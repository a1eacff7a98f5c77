//! The key that spellings of one URI share.
use lspf::uri_key::uri_key;

fn text(uri: &str) -> String {
    String::from_utf8(uri_key(uri)).unwrap()
}

#[test]
fn a_key_folds_scheme_host_drive_and_escapes() {
    assert_eq!(text("FILE:///C%3A/a.rs"), text("file:///c:/a.rs"));
    assert_eq!(text("http://EXAMPLE.com/A"), text("http://example.COM/A"));
    assert_ne!(text("http://example.com/A"), text("http://example.com/a"));
    assert_ne!(text("file:///a%2Fb"), text("file:///a/b"));
}

#[test]
fn needless_escapes_are_undone_and_the_others_kept() {
    assert_eq!(text("file:///%61.rs"), text("file:///a.rs"));
    assert_eq!(text("file:///x%2Dy.rs"), text("file:///x-y.rs"));
    assert_eq!(text("file:///a%20b"), text("file:///a b"));
    assert_eq!(text("file:///a%2fb"), text("file:///a%2Fb"));
    assert_ne!(text("file:///a%3Fb"), text("file:///a?b"));
    assert_ne!(text("file:///a%2541"), text("file:///a%41"));
}

#[test]
fn the_scheme_is_caseless() {
    assert_eq!(text("UNTITLED:One"), text("untitled:One"));
    assert_ne!(text("untitled:One"), text("untitled:one"));
}

#[test]
fn the_host_of_a_file_is_caseless() {
    assert_eq!(text("file://SERVER/Share/a.rs"), text("file://server/Share/a.rs"));
    assert_ne!(text("file://server/Share/a.rs"), text("file://server/share/a.rs"));
}

#[test]
fn the_drive_letter_is_caseless() {
    assert_eq!(text("file:///D:/a.rs"), text("file:///d:/a.rs"));
    assert_ne!(text("file:///D:/a.rs"), text("file:///D:/A.rs"));
}
