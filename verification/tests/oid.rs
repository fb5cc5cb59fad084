use core::cmp::Ordering;

use libgit2::oid::{
    git_oid_cmp, git_oid_cpy, git_oid_equal, git_oid_fmt, git_oid_from_prefix, git_oid_from_raw,
    git_oid_from_string, git_oid_fromraw, git_oid_fromstr, git_oid_fromstrn, git_oid_fromstrp,
    git_oid_is_zero, git_oid_tostr, InvalidOidType, Oid, OidType, RAW_DIGEST_LEN,
};
use libgit2::status::{GIT_EINVALID, GIT_ERROR};
use libgit2_sys as ffi;

#[test]
fn oid_types_round_trip_and_reject_unknown_values() {
    for oid_type in [OidType::Sha1, OidType::Sha256] {
        let raw = ffi::git_oid_t::from(oid_type);
        assert_eq!(OidType::try_from(raw), Ok(oid_type));
    }

    let invalid = ffi::GIT_OID_SHA256 + 1;
    assert_eq!(OidType::try_from(invalid), Err(InvalidOidType(invalid)));
    assert_eq!(InvalidOidType(invalid).value(), invalid);
}

#[test]
fn digest_widths_mirror_the_c_size_helpers() {
    assert_eq!(OidType::Sha1.digest_len(), 20);
    assert_eq!(OidType::Sha1.hex_len(), 40);
    assert_eq!(OidType::Sha256.digest_len(), 32);
    assert_eq!(OidType::Sha256.hex_len(), 64);
}

#[test]
fn digest_views_cover_only_the_significant_bytes() {
    let mut oid = Oid {
        kind: ffi::GIT_OID_SHA1 as u8,
        id: core::array::from_fn(|index| index as u8 + 1),
    };

    assert_eq!(oid.raw_bytes().len(), RAW_DIGEST_LEN);
    let digest = oid.digest().expect("SHA-1 is published");
    assert_eq!(digest.len(), 20);
    let expected: [u8; 20] = core::array::from_fn(|index| index as u8 + 1);
    assert_eq!(digest, expected);

    // Writing the digest cannot reach the unused trailing bytes.
    assert!(oid
        .copy_digest_from(&[0xff; 20])
        .expect("SHA-1 is published"));
    let whole = oid.raw_bytes();
    assert_eq!(&whole[..20], &[0xff; 20]);
    assert_eq!(whole[20], 21);

    // Widening to SHA-256 makes the trailing bytes significant.
    oid.set_oid_type(OidType::Sha256);
    assert_eq!(
        oid.digest().expect("SHA-256 is published").len(),
        RAW_DIGEST_LEN
    );
}

#[test]
fn digest_views_reject_an_unpublished_algorithm() {
    let mut oid = Oid::zeroed();
    assert_eq!(oid.digest().err(), Some(InvalidOidType(0)));
    assert_eq!(oid.copy_digest_from(&[0; 20]).err(), Some(InvalidOidType(0)));
    assert_eq!(oid.raw_bytes().len(), RAW_DIGEST_LEN);
}

#[test]
fn borrowed_handles_read_and_write_oid_fields() {
    let mut oid = Oid {
        kind: ffi::GIT_OID_SHA1 as u8,
        id: [0; 32],
    };
    assert_eq!(oid.oid_type(), Ok(OidType::Sha1));

    oid.set_oid_type(OidType::Sha256);
    let expected: [u8; 32] = core::array::from_fn(|index| index as u8);
    *oid.raw_bytes_mut() = expected;

    assert_eq!(oid.oid_type(), Ok(OidType::Sha256));
    assert_eq!(oid.raw_bytes(), expected);
}

#[test]
fn zeroed_oid_reports_an_invalid_type_without_creating_an_enum() {
    let oid = Oid::zeroed();
    assert_eq!(oid.oid_type(), Err(InvalidOidType(0)));
}

#[test]
fn safe_oid_operations_parse_compare_and_format() {
    let raw = [0xabu8; 20];
    let first = git_oid_fromraw(&raw).expect("twenty bytes form a SHA-1 OID");
    let second = git_oid_fromstrn(b"abababababababababababababababababababab")
        .expect("forty hexadecimal bytes form a SHA-1 OID");

    assert!(git_oid_equal(&first, &second));
    assert_eq!(git_oid_cmp(&first, &second), Ordering::Equal);
    assert!(!git_oid_is_zero(&first));

    let mut text = [0u8; 41];
    let len = git_oid_tostr(&mut text, &first).unwrap();
    assert_eq!(&text[..len], b"abababababababababababababababababababab");
    assert!(git_oid_tostr(&mut [], &first).is_none());
}

#[test]
fn parses_copies_and_formats_sha1_ids() {
    let raw = [0xabu8; 20];
    let oid = git_oid_from_raw(&raw, OidType::Sha1).unwrap();
    let copy = git_oid_cpy(&oid);
    let mut text = [0u8; 40];
    let len = git_oid_fmt(&mut text, &copy).unwrap();
    assert_eq!(&text[..len], &b"ab".repeat(20)[..]);
    assert!(git_oid_from_raw(&raw[..19], OidType::Sha1).is_err());
}

#[test]
fn prefixes_fill_the_digest_from_the_front() {
    let oid = git_oid_fromstrn(b"a1B").unwrap();
    assert_eq!(oid.oid_type(), Ok(OidType::Sha1));
    assert_eq!(oid.raw_bytes()[..3], [0xa1, 0xb0, 0x00]);
    assert_eq!(git_oid_fromstrp(b"a1B"), Ok(oid));
    assert_eq!(git_oid_fromstrn(b""), Err(GIT_ERROR));
    assert_eq!(git_oid_fromstrn(b"zz"), Err(GIT_ERROR));
    assert_eq!(git_oid_fromstrn(&[b'0'; 41]), Err(GIT_ERROR));
    assert!(git_oid_from_prefix(&[b'f'; 64], OidType::Sha256).is_ok());
    assert_eq!(git_oid_from_prefix(&[b'f'; 65], OidType::Sha256), Err(GIT_ERROR));
}

#[test]
fn complete_strings_must_have_the_full_width() {
    assert_eq!(git_oid_fromstr(b"abc"), Err(GIT_EINVALID));
    assert_eq!(git_oid_fromstr(&[b'g'; 40]), Err(GIT_ERROR));
    let full = git_oid_fromstr(&[b'0'; 40]).unwrap();
    assert!(git_oid_is_zero(&full));
    assert_eq!(
        git_oid_from_string(&[b'1'; 40], OidType::Sha256),
        Err(GIT_EINVALID)
    );
    let wide = git_oid_from_string(&[b'1'; 64], OidType::Sha256).unwrap();
    assert_eq!(wide.raw_bytes(), [0x11; 32]);
}

#[test]
fn formatting_then_parsing_round_trips() {
    let id: [u8; 32] = core::array::from_fn(|index| (index * 37 + 5) as u8);
    let oid = git_oid_from_raw(&id, OidType::Sha256).unwrap();
    let mut text = [0u8; 64];
    assert_eq!(git_oid_fmt(&mut text, &oid), Some(64));
    let parsed = git_oid_from_string(&text, OidType::Sha256).unwrap();
    assert!(git_oid_equal(&parsed, &oid));
    assert_eq!(parsed, oid);
}

#[test]
fn ordering_is_by_algorithm_then_digest() {
    let low = git_oid_fromstrn(b"01").unwrap();
    let high = git_oid_fromstrn(b"02").unwrap();
    assert_eq!(git_oid_cmp(&low, &high), Ordering::Less);
    assert_eq!(git_oid_cmp(&high, &low), Ordering::Greater);
    assert!(!git_oid_equal(&low, &high));
    let wide = git_oid_from_prefix(b"00", OidType::Sha256).unwrap();
    assert_eq!(git_oid_cmp(&high, &wide), Ordering::Less);

    // Trailing bytes outside the SHA-1 digest do not take part.
    let mut padded = low;
    padded.raw_bytes_mut()[31] = 9;
    assert!(git_oid_equal(&low, &padded));
}

#[test]
fn zero_ids_depend_on_the_algorithm() {
    let untyped = Oid { kind: 0, id: [7; 32] };
    assert!(git_oid_is_zero(&untyped));
    let unknown = Oid { kind: 9, id: [0; 32] };
    assert!(!git_oid_is_zero(&unknown));
    let mut sha1 = Oid { kind: 1, id: [0; 32] };
    sha1.raw_bytes_mut()[25] = 1;
    assert!(git_oid_is_zero(&sha1));
    sha1.raw_bytes_mut()[19] = 1;
    assert!(!git_oid_is_zero(&sha1));
}

#[test]
fn formatting_into_short_buffers() {
    let oid = git_oid_fromstrn(b"0123456789abcdef").unwrap();
    let mut short = [b'x'; 39];
    assert_eq!(git_oid_fmt(&mut short, &oid), None);
    assert_eq!(short, [b'x'; 39]);
    let mut five = [b'x'; 5];
    assert_eq!(git_oid_tostr(&mut five, &oid), Some(4));
    assert_eq!(&five, b"0123\0");
    let mut wide = [b'x'; 45];
    assert_eq!(git_oid_tostr(&mut wide, &oid), Some(40));
    assert_eq!(wide[40], 0);
    assert_eq!(wide[41], b'x');
    assert_eq!(git_oid_tostr(&mut [b'x'; 3], &Oid::zeroed()), Some(0));
}

#[test]
fn parsing_then_formatting_round_trips() {
    let sha1 = b"0123456789abcdef00ff10ee20dd30cc40bb50aa";
    let oid = git_oid_from_string(sha1, OidType::Sha1).unwrap();
    let mut text = [0u8; 40];
    assert_eq!(git_oid_fmt(&mut text, &oid), Some(40));
    assert_eq!(&text, sha1);

    let sha256 = b"00112233445566778899aabbccddeeff0123456789abcdef0f1e2d3c4b5a6978";
    let oid = git_oid_from_string(sha256, OidType::Sha256).unwrap();
    let mut text = [0u8; 64];
    assert_eq!(git_oid_fmt(&mut text, &oid), Some(64));
    assert_eq!(&text, sha256);

    let upper = b"ABABABABABABABABABABABABABABABABABABABAB";
    let oid = git_oid_from_string(upper, OidType::Sha1).unwrap();
    let mut text = [0u8; 40];
    assert_eq!(git_oid_fmt(&mut text, &oid), Some(40));
    assert_eq!(&text, b"abababababababababababababababababababab");
}
