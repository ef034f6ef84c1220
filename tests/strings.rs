use alpm::{cstr_content, first_nul, optional_or_empty, to_cstring, to_cstring_list, Error};

#[test]
fn text_becomes_a_nul_terminated_buffer() {
    assert_eq!(to_cstring(b"core"), Ok(b"core\0".to_vec()));
    assert_eq!(to_cstring(b""), Ok(vec![0u8]));
}

#[test]
fn embedded_nul_is_refused_with_its_position() {
    assert_eq!(to_cstring(b"a\0b"), Err(Error::NulByte(1)));
    assert_eq!(to_cstring(b"\0"), Err(Error::NulByte(0)));
    assert_eq!(to_cstring(b"ab\0c\0"), Err(Error::NulByte(2)));
}

#[test]
fn first_nul_finds_the_earliest() {
    assert_eq!(first_nul(b"abc"), None);
    assert_eq!(first_nul(b""), None);
    assert_eq!(first_nul(b"x\0y\0"), Some(1));
}

#[test]
fn buffer_content_stops_at_the_terminator() {
    assert_eq!(cstr_content(b"boot/\0junk"), b"boot/".to_vec());
    assert_eq!(cstr_content(b"etc/"), b"etc/".to_vec());
    assert_eq!(cstr_content(b"\0"), Vec::<u8>::new());
}

#[test]
fn list_conversion_keeps_order() {
    let bufs = to_cstring_list(&["a", "b", "c"]).unwrap();
    assert_eq!(bufs, vec![b"a\0".to_vec(), b"b\0".to_vec(), b"c\0".to_vec()]);
}

#[test]
fn list_set_and_read_back_round_trip() {
    let items = ["1", "2", "3", "/var/cache/pacman/pkg/"];
    let bufs = to_cstring_list(&items).unwrap();
    let back: Vec<Vec<u8>> = bufs.iter().map(|b| cstr_content(b)).collect();
    let expected: Vec<Vec<u8>> = items.iter().map(|s| s.as_bytes().to_vec()).collect();
    assert_eq!(back, expected);
}

#[test]
fn empty_list_converts_to_empty_list() {
    assert_eq!(to_cstring_list(&[]), Ok(Vec::new()));
}

#[test]
fn list_with_nul_fails_whole() {
    assert_eq!(to_cstring_list(&["a", "b\0", "c\0d"]), Err(Error::NulByte(1)));
    assert_eq!(to_cstring_list(&["ok", "x", "\0"]), Err(Error::NulByte(0)));
}

#[test]
fn absent_and_empty_fields_stay_apart() {
    let url: Option<&str> = None;
    let desc: Option<&str> = Some("");
    assert!(url.is_none());
    assert_eq!(desc, Some(""));
    assert_ne!(url, desc);
    assert_eq!(optional_or_empty(url), "");
    assert_eq!(optional_or_empty(desc), "");
    assert_eq!(optional_or_empty(Some("gpg")), "gpg");
}
