# libgit2 (verified value logic)

Safe Rust wrappers over the libgit2 C library, split in two:

- `src/` is verified with Verus. It holds everything the wrappers decide
  rather than delegate to C: object IDs and their algorithms (parsing,
  formatting, comparison, zero checks), the published enumerations and flag
  sets (object kinds, merge analysis and preferences, file-merge favors and
  flags, lookup flags, packbuilder stages), the plain records exchanged with C
  (merge-file inputs, options and results, index times, indexer progress,
  message trailers, object-ID arrays), the owners that tie C objects to the
  repository or database they depend on, and the interpretation of every
  status code and out-slot a call hands back.
- `app/` makes the C calls through `libgit2-sys`, with `ffibox` owners for the
  C objects, and passes what comes back to the verified functions.

`tests/` exercises the library on concrete values.
