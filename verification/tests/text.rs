use ldk_node_rpc::text::{same_text, strip_slash, text_bytes};

#[test]
fn same_text_compares_exactly() {
    assert!(same_text("", ""));
    assert!(same_text("OpenChannel", "OpenChannel"));
    assert!(!same_text("OpenChannel", "openChannel"));
    assert!(!same_text("OpenChannel", "OpenChanne"));
    assert!(!same_text("OpenChanne", "OpenChannel"));
    assert!(!same_text("OpenChannel", "OpenChannem"));
    assert!(!same_text("", "a"));
    assert!(same_text("gr\u{fc}n", "gr\u{fc}n"));
    assert!(!same_text("gr\u{fc}n", "grun"));
}

#[test]
fn strip_slash_takes_one_slash_off() {
    assert_eq!(strip_slash("/abc"), Some("abc"));
    assert_eq!(strip_slash("//abc"), Some("/abc"));
    assert_eq!(strip_slash("/"), Some(""));
    assert_eq!(strip_slash("/\u{e9}t\u{e9}"), Some("\u{e9}t\u{e9}"));
}

#[test]
fn strip_slash_finds_no_slash() {
    assert_eq!(strip_slash(""), None);
    assert_eq!(strip_slash("abc/"), None);
    assert_eq!(strip_slash("\u{e9}/"), None);
    assert_eq!(strip_slash(" /abc"), None);
}

#[test]
fn text_bytes_are_utf8() {
    assert_eq!(text_bytes(""), Vec::<u8>::new());
    assert_eq!(text_bytes("Az/"), vec![0x41, 0x7a, 0x2f]);
    assert_eq!(text_bytes("\u{e9}"), vec![0xc3, 0xa9]);
    assert_eq!(text_bytes("\u{20ac}"), vec![0xe2, 0x82, 0xac]);
    assert_eq!(text_bytes("\u{1f600}"), vec![0xf0, 0x9f, 0x98, 0x80]);
}
