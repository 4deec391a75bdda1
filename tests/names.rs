use fsnav::names::{chars_of, contains_chars, matches_folded, trim_chars, validate_filename};
use fsnav::size::format_file_size;

#[test]
fn valid_and_invalid_names() {
    assert!(validate_filename("notes.txt").is_ok());
    assert!(validate_filename(".hidden").is_ok());
    assert!(validate_filename("a.b.c").is_ok());
    assert!(validate_filename("").is_err());
    assert!(validate_filename("a/b").is_err());
    assert!(validate_filename("a\\b").is_err());
    assert!(validate_filename("..").is_err());
    assert!(validate_filename("a..b").is_err());
    assert!(validate_filename("a\0b").is_err());
}

#[test]
fn runs_of_characters() {
    let s = chars_of("hello");
    assert!(contains_chars(&s, &chars_of("ell")));
    assert!(contains_chars(&s, &chars_of("")));
    assert!(contains_chars(&s, &chars_of("hello")));
    assert!(!contains_chars(&s, &chars_of("hello!")));
    assert!(!contains_chars(&s, &chars_of("lo!")));
    assert!(matches_folded("readme.md", "me.m"));
    assert!(!matches_folded("readme.md", "ME"));
}

#[test]
fn trimming() {
    assert_eq!(trim_chars(&chars_of("  x y \t")), vec!['x', ' ', 'y']);
    assert_eq!(trim_chars(&chars_of("   ")), Vec::<char>::new());
    assert_eq!(trim_chars(&chars_of("z")), vec!['z']);
    assert_eq!(trim_chars(&chars_of("\u{3000}a b\u{a0}\n")), vec!['a', ' ', 'b']);
    assert_eq!(trim_chars(&chars_of("\u{200b}a")), vec!['\u{200b}', 'a']);
}

#[test]
fn file_sizes() {
    assert_eq!(format_file_size(0), "0 B");
    assert_eq!(format_file_size(5), "5.0 B");
    assert_eq!(format_file_size(1023), "1023.0 B");
    assert_eq!(format_file_size(1024), "1.0 KB");
    assert_eq!(format_file_size(1536), "1.5 KB");
    assert_eq!(format_file_size(1280), "1.2 KB");
    assert_eq!(format_file_size(1048575), "1024.0 KB");
    assert_eq!(format_file_size(1048576), "1.0 MB");
    assert_eq!(format_file_size(5 * 1073741824), "5.0 GB");
    assert_eq!(format_file_size(2048 * 1073741824), "2048.0 GB");
}
