use lsenext::path::{file_name, file_stem, join, parent};
use lsenext::text::{ascii_lowercase, contains, decimal, ps_quote, replace, wide_null};

#[test]
fn ps_quote_doubles_single_quotes() {
    assert_eq!(ps_quote("plain"), "'plain'");
    assert_eq!(ps_quote("it's"), "'it''s'");
    assert_eq!(ps_quote(""), "''");
    assert_eq!(ps_quote("''"), "''''''");
}

#[test]
fn wide_null_encodes_utf16() {
    assert_eq!(wide_null("A"), vec![0x41, 0]);
    assert_eq!(wide_null(""), vec![0]);
    assert_eq!(wide_null("é😀"), vec![0xe9, 0xd83d, 0xde00, 0]);
    let s = "runas C:\\Пример";
    let expected: Vec<u16> = s.encode_utf16().chain(Some(0)).collect();
    assert_eq!(wide_null(s), expected);
}

#[test]
fn text_helpers() {
    assert_eq!(ascii_lowercase("AbC-É"), "abc-É");
    assert!(contains("lsenext-arm64.exe", "arm64"));
    assert!(!contains("x6", "x64"));
    assert!(contains("abc", ""));
    assert_eq!(decimal(0), "0");
    assert_eq!(decimal(18446744073709551615), "18446744073709551615");
}

#[test]
fn path_components() {
    assert_eq!(file_name(r"C:\a\b.txt"), Some("b.txt".to_string()));
    assert_eq!(file_name("C:/a/b/"), Some("b".to_string()));
    assert_eq!(file_name(r"a\."), Some("a".to_string()));
    assert_eq!(file_name(r"a\.."), None);
    assert_eq!(file_name(r"C:"), None);
    assert_eq!(file_name(r"C:foo"), Some("foo".to_string()));
    assert_eq!(file_name(""), None);
    assert_eq!(parent(r"C:\a\b"), Some(r"C:\a".to_string()));
    assert_eq!(parent(r"C:\a"), Some(r"C:\".to_string()));
    assert_eq!(parent(r"C:\a\\b\"), Some(r"C:\a".to_string()));
    assert_eq!(parent("a"), Some("".to_string()));
    assert_eq!(parent(r"C:\"), None);
    assert_eq!(file_stem(r"C:\x\lsenext-register.exe"), Some("lsenext-register".to_string()));
    assert_eq!(file_stem(r"C:\x\.hidden"), Some(".hidden".to_string()));
    assert_eq!(file_stem(r"C:\x\a.b.c"), Some("a.b".to_string()));
    assert_eq!(file_stem(r"C:\x\noext"), Some("noext".to_string()));
}

#[test]
fn join_follows_windows_rules() {
    assert_eq!(join(r"C:\out", "file.txt"), r"C:\out\file.txt");
    assert_eq!(join(r"C:\out\", "file.txt"), r"C:\out\file.txt");
    assert_eq!(join("C:", "file.txt"), "C:file.txt");
    assert_eq!(join(r"C:\out", r"\abs"), r"C:\abs");
    assert_eq!(join(r"C:\out", r"D:\other"), r"D:\other");
    assert_eq!(join("", "x"), "x");
}

#[test]
fn prefixes_and_implied_roots() {
    assert_eq!(file_name(r"\\server\share"), None);
    assert_eq!(file_name(r"\\server\share\"), None);
    assert_eq!(file_name(r"\\server\share\dir"), Some("dir".to_string()));
    assert_eq!(file_name(r"\\?\C:\"), None);
    assert_eq!(file_name(r"\\?\C:\a"), Some("a".to_string()));
    assert_eq!(file_name(r"\\?\C:\a\."), None);
    assert_eq!(file_name(r"\\?\C:\a/b"), Some("a/b".to_string()));
    assert_eq!(file_name(r"\\?\UNC\srv\share"), None);
    assert_eq!(file_name(r"\\?\UNC\srv\share\f.txt"), Some("f.txt".to_string()));
    assert_eq!(file_name(r"\\.\COM1"), None);
    assert_eq!(file_name(r"\\.\pipe\x"), Some("x".to_string()));
    assert_eq!(file_name(r"\\server"), Some("server".to_string()));
    assert_eq!(parent(r"\\server\share\x"), Some(r"\\server\share\".to_string()));
    assert_eq!(parent(r"\\server\share"), None);
    assert_eq!(parent(r"\\?\C:\a\b"), Some(r"\\?\C:\a".to_string()));
    assert_eq!(parent("."), Some("".to_string()));
    assert_eq!(parent(r".\a"), Some(".".to_string()));
    assert_eq!(parent(r"a\.\b"), Some("a".to_string()));
    assert_eq!(join(r"C:\x", r"\\srv\share\y"), r"\\srv\share\y");
    assert_eq!(join(r"\\srv\share", "f"), r"\\srv\share\f");
    assert_eq!(join(r"\\srv\share\dir", r"\top"), r"\\srv\share\top");
}

#[test]
fn replace_matches_str_replace() {
    for (s, p, r) in [("aXbXc", "X", "--"), ("aaaa", "aa", "b"), ("abc", "zz", "y"), ("", "a", "b"), ("ab", "abc", "x")] {
        assert_eq!(replace(s, p, r), s.replace(p, r));
    }
    assert_eq!(replace("aaa", "aa", "b"), "ba");
}
