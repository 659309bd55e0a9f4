use webp_service::text::{chars_of, contains, decimal_string, same_text};

#[test]
fn chars_of_keeps_every_character_in_order() {
    assert_eq!(chars_of("a/é画"), vec!['a', '/', 'é', '画']);
    assert_eq!(chars_of(""), Vec::<char>::new());
}

#[test]
fn contains_finds_a_run_anywhere() {
    assert!(contains("image/heic", "heic"));
    assert!(contains("heic", "heic"));
    assert!(contains("heic-sequence", "heic"));
    assert!(contains("xxheifxx", "heif"));
    assert!(contains("画像heic画像", "heic"));
}

#[test]
fn contains_rejects_what_is_not_there() {
    assert!(!contains("image/png", "heic"));
    assert!(!contains("hei", "heic"));
    assert!(!contains("h-e-i-c", "heic"));
    assert!(!contains("HEIC", "heic"));
    assert!(!contains("", "heic"));
    assert!(!contains("image/gif", "hif"));
}

#[test]
fn contains_takes_the_empty_needle_everywhere() {
    assert!(contains("abc", ""));
    assert!(contains("", ""));
}

#[test]
fn contains_finds_a_run_after_a_false_start() {
    assert!(contains("hheic", "heic"));
    assert!(contains("heiheic", "heic"));
    assert!(contains("aab", "ab"));
}

#[test]
fn same_text_compares_character_by_character() {
    assert!(same_text("image", "image"));
    assert!(same_text("", ""));
    assert!(!same_text("image", "images"));
    assert!(!same_text("image", "imagE"));
    assert!(!same_text("image", ""));
}

#[test]
fn decimal_string_writes_numbers_in_base_ten() {
    assert_eq!(decimal_string(0), "0");
    assert_eq!(decimal_string(7), "7");
    assert_eq!(decimal_string(9), "9");
    assert_eq!(decimal_string(10), "10");
    assert_eq!(decimal_string(1905), "1905");
    assert_eq!(decimal_string(10485760), "10485760");
    assert_eq!(decimal_string(usize::MAX), usize::MAX.to_string());
}
