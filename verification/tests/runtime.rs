use libgit2::libgit2::{init_result, shutdown_result, version_result, Libgit2Version};

#[test]
fn initialization_counts_become_tokens() {
    let token = init_result(1).unwrap();
    assert_eq!(token.initial_count(), 1);
    assert!(token.initial_count() > 0);
    assert_eq!(init_result(3).unwrap().initial_count(), 3);
    assert_eq!(init_result(0).err(), Some(0));
    assert_eq!(init_result(-1).err(), Some(-1));
}

#[test]
fn shutdown_reports_the_remaining_counts() {
    assert_eq!(shutdown_result(0), Ok(0));
    assert_eq!(shutdown_result(2), Ok(2));
    assert_eq!(shutdown_result(-1), Err(-1));
}

#[test]
fn version_queries_read_the_out_slots_on_success() {
    assert_eq!(
        version_result(0, 1, 9, 7),
        Ok(Libgit2Version {
            major: 1,
            minor: 9,
            revision: 7
        })
    );
    assert_eq!(version_result(-1, 1, 9, 7), Err(-1));
}
