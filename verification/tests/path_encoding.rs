use landmark_prediction::error::ErrorKind;
use landmark_prediction::path::{is_representable, path_as_cstring};

#[test]
fn plain_path_is_followed_by_the_terminator() {
    let bytes = path_as_cstring("models/shape.dat").unwrap();
    assert_eq!(bytes, b"models/shape.dat\0".to_vec());
}

#[test]
fn native_form_is_one_byte_longer_than_the_utf8_text() {
    let path = "mod\u{e8}le/\u{9762}/\u{1f600}.dat";
    let bytes = path_as_cstring(path).unwrap();
    assert_eq!(bytes.len(), path.len() + 1);
    assert_eq!(&bytes[..path.len()], path.as_bytes());
    assert_eq!(bytes[path.len()], 0);
}

#[test]
fn two_byte_character_is_written_in_utf8() {
    let bytes = path_as_cstring("\u{e9}").unwrap();
    assert_eq!(bytes, vec![0xc3, 0xa9, 0x00]);
}

#[test]
fn three_and_four_byte_characters_are_written_in_utf8() {
    let bytes = path_as_cstring("\u{20ac}\u{1f600}").unwrap();
    assert_eq!(bytes, vec![0xe2, 0x82, 0xac, 0xf0, 0x9f, 0x98, 0x80, 0x00]);
}

#[test]
fn empty_path_is_the_terminator_alone() {
    assert_eq!(path_as_cstring("").unwrap(), vec![0u8]);
}

#[test]
fn native_form_holds_its_only_nul_at_the_end() {
    for path in ["a", "models/shape.dat", "\u{80}\u{7ff}\u{800}\u{ffff}\u{10000}\u{10ffff}", "\u{1}\u{7f}"] {
        let bytes = path_as_cstring(path).unwrap();
        let first_nul = bytes.iter().position(|b| *b == 0);
        assert_eq!(first_nul, Some(bytes.len() - 1));
    }
}

#[test]
fn nul_inside_the_path_is_a_path_encoding_error() {
    let error = path_as_cstring("models/sh\0ape.dat").unwrap_err();
    assert_eq!(error.kind, ErrorKind::PathEncoding);
    assert_eq!(error.path, "models/sh\0ape.dat");
}

#[test]
fn nul_at_either_end_is_a_path_encoding_error() {
    assert_eq!(path_as_cstring("\0shape.dat").unwrap_err().kind, ErrorKind::PathEncoding);
    assert_eq!(path_as_cstring("shape.dat\0").unwrap_err().kind, ErrorKind::PathEncoding);
    assert_eq!(path_as_cstring("\0").unwrap_err().kind, ErrorKind::PathEncoding);
}

#[test]
fn nul_among_wide_characters_is_found() {
    let error = path_as_cstring("\u{9762}\0\u{1f600}").unwrap_err();
    assert_eq!(error.kind, ErrorKind::PathEncoding);
    assert_eq!(error.path, "\u{9762}\0\u{1f600}");
}

#[test]
fn representable_means_free_of_nul() {
    assert!(is_representable(""));
    assert!(is_representable("models/shape.dat"));
    assert!(is_representable("\u{100}\u{4000}\u{10000}"));
    assert!(!is_representable("\0"));
    assert!(!is_representable("models\0"));
    assert!(!is_representable("\u{100}\0\u{4000}"));
}

#[test]
fn encoding_succeeds_exactly_on_representable_paths() {
    for path in ["", "a", "a\0", "\0a", "a\0b", "\u{e9}t\u{e9}", "\u{e9}\0"] {
        assert_eq!(path_as_cstring(path).is_ok(), is_representable(path));
        assert_eq!(is_representable(path), !path.contains('\0'));
    }
}
