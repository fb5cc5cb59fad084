use libgit2::message::{GitMessageTrailer, GitMessageTrailerArray};

#[test]
fn borrowed_handles_read_and_replace_both_strings() {
    let first_key: &[u8] = b"Signed-off-by";
    let first_value: &[u8] = b"A. U. Thor";
    let second_key: &[u8] = b"Reviewed-by";
    let second_value: &[u8] = b"R. Viewer";
    let mut trailer = GitMessageTrailer::new(first_key, first_value);

    assert_eq!(trailer.key(), first_key);
    assert_eq!(trailer.value(), first_value);
    trailer.set_key(second_key);
    trailer.set_value(second_value);
    assert_eq!(trailer.key(), second_key);
    assert_eq!(trailer.value(), second_value);
}

#[test]
fn empty_owned_array_has_no_allocations() {
    let array = GitMessageTrailerArray::new();
    assert!(array.is_empty());
    assert!(!array.has_trailer_block());
    assert!(array.trailers().is_none());
}

#[test]
fn trailer_views_keep_strings_tied_to_the_array() {
    let trailers = vec![
        GitMessageTrailer::new(b"Signed-off-by", b"A. U. Thor"),
        GitMessageTrailer::new(b"Reviewed-by", b"R. Viewer"),
    ];
    let mut array = GitMessageTrailerArray::from_parts(Some(trailers), true);
    assert_eq!(array.len(), 2);
    assert!(array.has_trailer_block());
    let shared = array.trailers().unwrap();
    assert_eq!(shared.get(0).unwrap().key(), b"Signed-off-by");
    assert_eq!(shared.get(1).unwrap().value(), b"R. Viewer");

    let exclusive = array.trailers_mut().unwrap();
    exclusive
        .get_mut(1)
        .expect("second descriptor exists")
        .set_value(b"Second Signer");
    assert_eq!(exclusive.get(1).unwrap().value(), b"Second Signer");
    assert_eq!(array.trailers().unwrap()[1].value(), b"Second Signer");
    assert_eq!(array.trailers().unwrap()[1].key(), b"Reviewed-by");
}

#[test]
fn a_present_empty_run_is_not_the_absent_run() {
    let array = GitMessageTrailerArray::from_parts(Some(Vec::new()), false);
    assert!(array.is_empty());
    assert_eq!(array.len(), 0);
    assert_eq!(array.trailers().map(|t| t.len()), Some(0));
}
