//! Verified value-level logic of safe Rust wrappers over libgit2.
//!
//! The wrappers talk to C through raw pointers; this crate holds what they
//! decide: the published enumerations and flag sets, the object-ID value and
//! its algorithms, and the interpretation of every status and output a C call
//! hands back.
pub mod diff_generate;
pub mod index;
pub mod indexer;
pub mod libgit2;
pub mod merge;
pub mod message;
pub mod notes;
pub mod object;
pub mod object_api;
pub mod odb;
pub mod odb_loose;
pub mod oid;
pub mod oidarray;
pub mod pack;
pub mod status;
pub mod types;
