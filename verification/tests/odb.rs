use libgit2::indexer::{GitIndexerProgressCallback, IndexerProgress};
use libgit2::odb::{
    status_result, stream_read_result, writepack_result, wstream_result, GitOdbForeachCallback,
    GitOdbLookupFlags, InvalidOdbObjectType,
};
use libgit2::oid::{git_oid_fromstrn, Oid};
use libgit2::status::GIT_ERROR;
use libgit2_sys as ffi;
use libgit2::odb_loose::check_loose_objects_dir;

#[test]
fn lookup_flags_expose_only_published_bits() {
    assert_eq!(GitOdbLookupFlags::default_lookup().bits(), 0);
    assert_eq!(
        GitOdbLookupFlags::no_refresh().bits(),
        ffi::GIT_ODB_LOOKUP_NO_REFRESH
    );
}

#[test]
fn lookup_flags_reject_unpublished_bits() {
    assert_eq!(
        GitOdbLookupFlags::from_bits(1),
        Some(GitOdbLookupFlags::no_refresh())
    );
    assert_eq!(
        GitOdbLookupFlags::from_bits(0),
        Some(GitOdbLookupFlags::default_lookup())
    );
    assert_eq!(GitOdbLookupFlags::from_bits(2), None);
}

#[test]
fn stream_reads_are_bounded_by_the_buffer() {
    assert_eq!(stream_read_result(-5, 10), Err(-5));
    assert_eq!(stream_read_result(0, 10), Ok(0));
    assert_eq!(stream_read_result(10, 10), Ok(10));
    assert_eq!(stream_read_result(11, 10), Err(GIT_ERROR));
}

#[test]
fn status_only_calls_succeed_on_zero() {
    assert_eq!(status_result(0), Ok(()));
    assert_eq!(status_result(-3), Err(-3));
    assert_eq!(status_result(1), Err(1));
}

#[test]
fn write_streams_hold_the_database_borrow() {
    let mut stream = wstream_result::<'static, Vec<u8>>(0, Some(Vec::new())).unwrap();
    stream.as_mut().extend_from_slice(b"data");
    assert_eq!(stream.as_mut(), &b"data".to_vec());
    assert!(wstream_result::<'static, Vec<u8>>(-9, None).is_err());
}

struct Counting(u32);

impl GitIndexerProgressCallback for Counting {
    fn call(&mut self, progress: &IndexerProgress) -> i32 {
        self.0 += 1;
        progress.total_objects as i32
    }
}

#[test]
fn writepacks_keep_their_callback() {
    let mut pack = writepack_result::<'static, u8, Counting>(0, Some(4), Box::new(Counting(2)))
        .unwrap();
    assert_eq!(*pack.as_ref(), 4);
    *pack.as_mut() = 5;
    assert_eq!(*pack.as_ref(), 5);
    assert_eq!(pack.callback().0, 2);
    assert!(matches!(
        writepack_result::<'static, u8, Counting>(0, None, Box::new(Counting(0))),
        Err(GIT_ERROR)
    ));
    assert!(matches!(
        writepack_result::<'static, u8, Counting>(-4, Some(1), Box::new(Counting(0))),
        Err(-4)
    ));
}

struct Collect(Vec<Oid>);

impl GitOdbForeachCallback for Collect {
    fn call(&mut self, oid: &Oid) -> i32 {
        self.0.push(*oid);
        if self.0.len() == 2 { 1 } else { 0 }
    }
}

#[test]
fn foreach_callbacks_receive_each_id() {
    let first = git_oid_fromstrn(b"aa").unwrap();
    let second = git_oid_fromstrn(b"bb").unwrap();
    let mut collect = Collect(Vec::new());
    assert_eq!(GitOdbForeachCallback::call(&mut collect, &first), 0);
    assert_eq!(GitOdbForeachCallback::call(&mut collect, &second), 1);
    assert_eq!(collect.0, vec![first, second]);
    assert_eq!(InvalidOdbObjectType(99).0, 99);
}

#[test]
fn loose_constructor_rejects_an_empty_directory_before_ffi() {
    assert!(matches!(
        check_loose_objects_dir(b""),
        Err(ffi::GIT_EINVALID)
    ));
    assert_eq!(check_loose_objects_dir(b"."), Ok(()));
}
