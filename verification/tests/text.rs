use tauri_wasm::text::bytes_eq;
use tauri_wasm::text::is_valid_utf8;
use tauri_wasm::text::str_eq;

#[test]
fn bytes_eq_basics() {
    assert!(bytes_eq(b"", b""));
    assert!(bytes_eq(b"abc", b"abc"));
    assert!(!bytes_eq(b"abc", b"abd"));
    assert!(!bytes_eq(b"abc", b"ab"));
}

#[test]
fn str_eq_basics() {
    assert!(str_eq("", ""));
    assert!(str_eq("héllo", "héllo"));
    assert!(!str_eq("héllo", "hello"));
    assert!(!str_eq("a", "aa"));
}

#[test]
fn valid_utf8_accepts_well_formed() {
    assert!(is_valid_utf8(b""));
    assert!(is_valid_utf8(b"plain ascii"));
    assert!(is_valid_utf8("é".as_bytes()));
    assert!(is_valid_utf8("€".as_bytes()));
    assert!(is_valid_utf8("🦀".as_bytes()));
    assert!(is_valid_utf8("mixé€d 🦀 text".as_bytes()));
    assert!(is_valid_utf8(b"\xed\x9f\xbf"));
    assert!(is_valid_utf8(b"\xee\x80\x80"));
    assert!(is_valid_utf8(b"\xf4\x8f\xbf\xbf"));
}

#[test]
fn valid_utf8_rejects_malformed() {
    assert!(!is_valid_utf8(b"\x80"));
    assert!(!is_valid_utf8(b"\xbf"));
    assert!(!is_valid_utf8(b"\xc0\xaf"));
    assert!(!is_valid_utf8(b"\xc1\xbf"));
    assert!(!is_valid_utf8(b"\xc2"));
    assert!(!is_valid_utf8(b"\xc2\x20"));
    assert!(!is_valid_utf8(b"\xe0\x9f\xbf"));
    assert!(!is_valid_utf8(b"\xed\xa0\x80"));
    assert!(!is_valid_utf8(b"\xe2\x82"));
    assert!(!is_valid_utf8(b"\xf0\x8f\xbf\xbf"));
    assert!(!is_valid_utf8(b"\xf4\x90\x80\x80"));
    assert!(!is_valid_utf8(b"\xf5\x80\x80\x80"));
    assert!(!is_valid_utf8(b"\xf8\x88\x80\x80\x80"));
    assert!(!is_valid_utf8(b"\xff"));
    assert!(!is_valid_utf8(b"ok so far \xe2\x82"));
}

#[test]
fn valid_utf8_agrees_with_std() {
    let cases: [&[u8]; 14] = [
        b"",
        b"ascii",
        b"\xc3\xa9",
        b"\xe2\x82\xac",
        b"\xf0\x9f\xa6\x80",
        b"\x80",
        b"\xc0\xaf",
        b"\xe0\x9f\xbf",
        b"\xed\xa0\x80",
        b"\xed\x9f\xbf",
        b"\xf0\x8f\xbf\xbf",
        b"\xf4\x90\x80\x80",
        b"\xf4\x8f\xbf\xbf",
        b"tail\xc2",
    ];
    for c in cases {
        assert_eq!(is_valid_utf8(c), std::str::from_utf8(c).is_ok());
    }
}
