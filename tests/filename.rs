use portal::filename::{is_disallowed_char, is_reserved_file_name, sanitize_file_name};

const REPLACEMENT: &str = "_";

#[test]
fn replaces_disallowed_chars() {
    assert_eq!(
        sanitize_file_name("/foo/bar/baz", REPLACEMENT),
        "_foo_bar_baz"
    );
    assert_eq!(
        sanitize_file_name("foo/\0/\0/\0/bar", REPLACEMENT),
        "foo_bar"
    );
    assert_eq!(sanitize_file_name("//////////////", REPLACEMENT), "_");
}

#[test]
fn ensures_filename_is_not_empty() {
    assert_eq!(sanitize_file_name("", REPLACEMENT), "_");
    assert_eq!(sanitize_file_name("   ", REPLACEMENT), "_");
    assert_eq!(sanitize_file_name("\t\r\n ", REPLACEMENT), "_");
}

#[test]
fn prefixes_reserved_file_names_with_replacement() {
    assert_eq!(sanitize_file_name("NUL", REPLACEMENT), "_NUL");
    assert_eq!(sanitize_file_name("aux", REPLACEMENT), "_aux");
}

#[test]
fn replaces_windows_reserved_characters() {
    assert_eq!(sanitize_file_name("a:b*c?d\"e<f>g|h\\i", "-"), "a-b-c-d-e-f-g-h-i");
    assert_eq!(sanitize_file_name("x\u{7f}\u{85}y", "_"), "x_y");
}

#[test]
fn keeps_ordinary_names() {
    assert_eq!(sanitize_file_name("report 2024.pdf", "_"), "report 2024.pdf");
    assert_eq!(sanitize_file_name("  padded  ", "_"), "  padded  ");
}

#[test]
fn reserved_names_with_digits() {
    let chars = |s: &str| s.chars().collect::<Vec<char>>();
    assert!(is_reserved_file_name(&chars("COM1")));
    assert!(is_reserved_file_name(&chars("lpt9")));
    assert!(is_reserved_file_name(&chars("Con")));
    assert!(!is_reserved_file_name(&chars("COM10")));
    assert!(!is_reserved_file_name(&chars("CONX")));
    assert!(!is_reserved_file_name(&chars("COMA")));
    assert!(!is_reserved_file_name(&chars("")));
    assert_eq!(sanitize_file_name("com7", "_"), "_com7");
    assert_eq!(sanitize_file_name("com7.txt", "_"), "com7.txt");
}

#[test]
fn disallowed_characters() {
    assert!(is_disallowed_char('/'));
    assert!(is_disallowed_char('\u{1f}'));
    assert!(is_disallowed_char('\u{9f}'));
    assert!(!is_disallowed_char('\u{a0}'));
    assert!(!is_disallowed_char('a'));
}
