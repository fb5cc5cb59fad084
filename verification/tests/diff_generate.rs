use libgit2::diff_generate::{diff_result, RepositoryDiff};
use libgit2::status::GIT_ERROR;

#[test]
fn typed_diff_result_rejects_a_null_success_output() {
    assert!(matches!(
        diff_result::<'static, Vec<u8>>(0, None),
        Err(GIT_ERROR)
    ));
}

#[test]
fn typed_diff_result_preserves_a_constructor_error() {
    assert!(matches!(diff_result::<'static, Vec<u8>>(-7, None), Err(-7)));
}

#[test]
fn a_produced_diff_is_held_and_lent_out() {
    let mut diff: RepositoryDiff<'static, Vec<u8>> = diff_result(0, Some(vec![1, 2])).unwrap();
    assert_eq!(diff.as_ref(), &vec![1, 2]);
    diff.as_mut().push(3);
    assert_eq!(diff.as_ref(), &vec![1, 2, 3]);
    assert!(matches!(diff_result::<'static, Vec<u8>>(-3, Some(vec![9])), Err(-3)));
}
