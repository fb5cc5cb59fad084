use libgit2::merge::{
    MergeFileFavor, MergeFileFlags, MergeFileInput, MergeFileOptions, MergeFileResult,
};

#[test]
fn merge_file_input_handles_read_and_write_fields() {
    let contents: &[u8] = b"left\0right";
    let path: &[u8] = b"conflict.txt";
    let mut input = MergeFileInput::zeroed();
    input.set_version(1);
    input.set_mode(0o100644);
    input.set_borrowed_contents(Some(contents));
    input.set_borrowed_path(Some(path));

    let shared = &input;
    assert_eq!(shared.version(), 1);
    assert_eq!(shared.mode(), 0o100644);
    assert_eq!(shared.size(), contents.len());
    assert_eq!(shared.path(), Some(path));
    let bytes = shared.contents().expect("the stored span is present");
    let mut copied = [0; 10];
    copied.copy_from_slice(bytes);
    assert_eq!(&copied, b"left\0right");

    input.clear_contents();
    input.clear_path();
    assert!(input.contents().is_none());
    assert!(input.path().is_none());
    assert_eq!(input.size(), 0);
}

#[test]
fn a_non_null_empty_content_span_is_an_empty_view() {
    let input = MergeFileInput {
        version: 1,
        contents: Some(b""),
        path: None,
        mode: 0,
    };
    let contents = input
        .contents()
        .expect("a present span is a view, not `None`");
    assert_eq!(contents.len(), 0);
    assert!(input.path().is_none());
}

#[test]
fn empty_owned_result_supports_shared_and_exclusive_handles() {
    let mut result = MergeFileResult::new();
    assert!(result.path().is_none());
    assert!(result.contents().is_none());
    assert!(result.is_empty());

    let result_mut = &mut result;
    result_mut.set_automergeable(true);
    result_mut.set_mode(0o100644);

    let result_ref = &*result_mut;
    assert!(result_ref.is_automergeable());
    assert_eq!(result_ref.mode(), 0o100644);
}

#[test]
fn owned_fields_move_through_the_result_without_double_free() {
    let path = b"merged.txt".to_vec();
    let contents = b"text".to_vec();

    let mut result = MergeFileResult::new();
    result.set_path(Some(path));
    result.set_contents(Some(contents));
    assert_eq!(result.path(), Some(&b"merged.txt"[..]));
    assert_eq!(result.len(), 4);
    let view = result.contents().unwrap();
    let mut copied = [0; 4];
    copied.copy_from_slice(view);
    assert_eq!(&copied, b"text");

    let path = result.take_path().unwrap();
    let contents = result.take_contents().unwrap();
    assert!(result.path().is_none());
    assert!(result.contents().is_none());
    assert_eq!(path, b"merged.txt");
    assert_eq!(contents, b"text");
    assert!(result.is_empty());
}

#[test]
fn file_options_handles_validate_and_update_every_field() {
    let mut options = MergeFileOptions::zeroed();
    let flags = MergeFileFlags::style_diff3() | MergeFileFlags::diff_patience();
    options.set_version(1);
    options.set_flags(flags);
    options.set_favor(MergeFileFavor::Theirs);
    options.set_marker_size(11);
    options.set_borrowed_ancestor_label(Some(b"base"));
    options.set_borrowed_our_label(Some(b"ours"));
    options.set_borrowed_their_label(Some(b"theirs"));

    let shared = &options;
    assert_eq!(shared.version(), 1);
    assert_eq!(shared.flags(), Ok(flags));
    assert_eq!(shared.favor(), Ok(MergeFileFavor::Theirs));
    assert_eq!(shared.marker_size(), 11);
    assert_eq!(shared.ancestor_label(), Some(&b"base"[..]));
    assert_eq!(shared.our_label(), Some(&b"ours"[..]));
    assert_eq!(shared.their_label(), Some(&b"theirs"[..]));

    options.clear_ancestor_label();
    options.clear_our_label();
    options.clear_their_label();
    assert_eq!(options.ancestor_label(), None);
    assert_eq!(options.our_label(), None);
    assert_eq!(options.their_label(), None);
}

#[test]
fn unknown_file_option_values_are_rejected() {
    let unknown_flags = MergeFileFlags::all().bits() << 1;
    assert_eq!(MergeFileFlags::from_bits(unknown_flags), None);
    assert!(MergeFileFlags::default_flags().is_empty());

    let options = MergeFileOptions {
        version: 1,
        ancestor_label: None,
        our_label: None,
        their_label: None,
        favor: 99,
        flags: unknown_flags,
        marker_size: 0,
    };
    assert_eq!(options.flags(), Err(unknown_flags));
    assert_eq!(options.favor(), Err(99));
}

#[test]
fn file_flag_sets_combine_and_contain() {
    let combined = MergeFileFlags::style_merge() | MergeFileFlags::ignore_whitespace();
    assert_eq!(combined.bits(), 1 | 8);
    assert!(combined.contains(MergeFileFlags::style_merge()));
    assert!(!combined.contains(MergeFileFlags::style_zdiff3()));
    assert_eq!(MergeFileFlags::all().bits(), 1023);
    assert_eq!(MergeFileFlags::accept_conflicts().bits(), 512);
    assert_eq!(MergeFileFlags::from_bits(1023), Some(MergeFileFlags::all()));
    assert_eq!(MergeFileFlags::from_bits(1024), None);
}

#[test]
fn a_result_reports_its_length_and_keeps_other_fields_across_updates() {
    let mut result = MergeFileResult::new();
    result.set_contents(Some(Vec::new()));
    assert!(result.contents().is_some());
    assert_eq!(result.len(), 0);
    assert!(result.is_empty());
    result.set_mode(0o100755);
    result.set_automergeable(false);
    assert!(!result.is_automergeable());
    assert_eq!(result.automergeable, 0);
    result.set_automergeable(true);
    assert_eq!(result.automergeable, 1);
    assert_eq!(result.mode(), 0o100755);
    result.set_contents(Some(b"merged\n".to_vec()));
    assert_eq!(result.len(), 7);
    assert!(!result.is_empty());
}
