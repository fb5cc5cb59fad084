use libgit2::object::{git_object_string2type, git_object_type2string, git_object_typeisloose};
use libgit2::odb::{object_type_result, read_header_result, rstream_result, InvalidOdbObjectType};
use libgit2::status::GIT_ERROR;
use libgit2::types::GitObjectType;
use libgit2_sys as ffi;

const ALL_KINDS: [GitObjectType; 8] = [
    GitObjectType::Any,
    GitObjectType::Invalid,
    GitObjectType::Commit,
    GitObjectType::Tree,
    GitObjectType::Blob,
    GitObjectType::Tag,
    GitObjectType::OfsDelta,
    GitObjectType::RefDelta,
];

#[test]
fn object_kind_names_round_trip_through_safe_functions() {
    for kind in [
        GitObjectType::Commit,
        GitObjectType::Tree,
        GitObjectType::Blob,
        GitObjectType::Tag,
    ] {
        let name = git_object_type2string(kind);
        assert_eq!(git_object_string2type(Some(name)), kind);
        assert!(git_object_typeisloose(kind));
    }
    assert_eq!(git_object_string2type(None), GitObjectType::Invalid);
}

#[test]
fn object_kind_lookup_matches_libgit2_prefix_semantics() {
    assert_eq!(
        git_object_string2type(Some(b"commitment")),
        GitObjectType::Commit
    );
    assert_eq!(git_object_string2type(Some(b"comm")), GitObjectType::Invalid);
    assert_eq!(git_object_string2type(Some(b"")), GitObjectType::Invalid);
    assert_eq!(
        git_object_string2type(Some(b"nonsense")),
        GitObjectType::Invalid
    );
}

#[test]
fn unnamed_object_kinds_have_an_empty_static_name() {
    assert_eq!(git_object_type2string(GitObjectType::Any), b"");
    assert_eq!(git_object_type2string(GitObjectType::Invalid), b"");
    assert!(!git_object_typeisloose(GitObjectType::Any));
    assert!(!git_object_typeisloose(GitObjectType::Invalid));
}

#[test]
fn delta_kinds_have_names_but_are_not_loose() {
    assert_eq!(git_object_type2string(GitObjectType::OfsDelta), b"OFS_DELTA");
    assert_eq!(git_object_type2string(GitObjectType::RefDelta), b"REF_DELTA");
    assert_eq!(
        git_object_string2type(Some(b"REF_DELTA")),
        GitObjectType::RefDelta
    );
    assert_eq!(
        git_object_string2type(Some(b"OFS_DELTA")),
        GitObjectType::OfsDelta
    );
    assert_eq!(git_object_string2type(Some(b"ofs_delta")), GitObjectType::Invalid);
    assert_eq!(git_object_string2type(Some(b"tagged")), GitObjectType::Tag);
    assert_eq!(git_object_string2type(Some(b"tre")), GitObjectType::Invalid);
    assert!(!git_object_typeisloose(GitObjectType::OfsDelta));
    assert!(!git_object_typeisloose(GitObjectType::RefDelta));
}

#[test]
fn object_kinds_match_the_c_scalars() {
    let expected = [
        ffi::GIT_OBJECT_ANY,
        ffi::GIT_OBJECT_INVALID,
        ffi::GIT_OBJECT_COMMIT,
        ffi::GIT_OBJECT_TREE,
        ffi::GIT_OBJECT_BLOB,
        ffi::GIT_OBJECT_TAG,
        ffi::GIT_OBJECT_OFS_DELTA,
        ffi::GIT_OBJECT_REF_DELTA,
    ];
    for (kind, raw) in ALL_KINDS.iter().zip(expected.iter()) {
        assert_eq!(kind.as_raw(), *raw as i32);
        assert_eq!(GitObjectType::from_raw(*raw as i32), Some(*kind));
    }
    assert_eq!(GitObjectType::from_raw(0), None);
    assert_eq!(GitObjectType::from_raw(5), None);
    assert_eq!(GitObjectType::from_raw(8), None);
    assert_eq!(GitObjectType::from_raw(-3), None);
}

#[test]
fn odb_object_kinds_are_checked() {
    assert_eq!(object_type_result(3), Ok(GitObjectType::Blob));
    assert_eq!(object_type_result(5), Err(InvalidOdbObjectType(5)));
    assert_eq!(read_header_result(0, 12, 1), Ok((12, GitObjectType::Commit)));
    assert_eq!(read_header_result(-3, 12, 1), Err(-3));
    assert_eq!(read_header_result(0, 12, 42), Err(GIT_ERROR));
}

#[test]
fn read_streams_carry_length_and_kind() {
    let (stream, len, kind) = rstream_result(0, Some("stream"), 9, 2).unwrap();
    assert_eq!(len, 9);
    assert_eq!(kind, GitObjectType::Tree);
    let mut stream = stream;
    assert_eq!(*stream.as_mut(), "stream");

    assert!(matches!(rstream_result(-7, Some("stream"), 9, 2), Err(-7)));
    assert!(matches!(
        rstream_result(0, Some("stream"), 9, 0),
        Err(e) if e == GIT_ERROR
    ));
}
