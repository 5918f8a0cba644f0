use cokacdir::file_ops::is_valid_filename;

#[test]
fn test_is_valid_filename_normal() {
    assert!(is_valid_filename("test.txt").is_ok());
    assert!(is_valid_filename("my_file").is_ok());
    assert!(is_valid_filename("file-name.rs").is_ok());
    assert!(is_valid_filename("FILE123").is_ok());
    assert!(is_valid_filename(".hidden").is_ok());
}

#[test]
fn test_is_valid_filename_empty_rejected() {
    assert!(is_valid_filename("").is_err());
    assert!(is_valid_filename("   ").is_err());
}

#[test]
fn test_is_valid_filename_path_separator_rejected() {
    assert!(is_valid_filename("path/file").is_err());
    assert!(is_valid_filename("path\\file").is_err());
    assert!(is_valid_filename("/absolute").is_err());
}

#[test]
fn test_is_valid_filename_null_byte_rejected() {
    assert!(is_valid_filename("file\0name").is_err());
}

#[test]
fn test_is_valid_filename_reserved_names_rejected() {
    assert!(is_valid_filename(".").is_err());
    assert!(is_valid_filename("..").is_err());
}

#[test]
fn test_is_valid_filename_too_long_rejected() {
    let long_name = "a".repeat(256);
    assert!(is_valid_filename(&long_name).is_err());

    let max_name = "a".repeat(255);
    assert!(is_valid_filename(&max_name).is_ok());
}

#[test]
fn test_is_valid_filename_control_chars_rejected() {
    assert!(is_valid_filename("file\nname").is_err());
    assert!(is_valid_filename("file\tname").is_err());
    assert!(is_valid_filename("file\rname").is_err());
}

#[test]
fn test_is_valid_filename_whitespace_rejected() {
    assert!(is_valid_filename(" leading").is_err());
    assert!(is_valid_filename("trailing ").is_err());
    assert!(is_valid_filename(" both ").is_err());
}

#[test]
fn test_is_valid_filename_leading_hyphen_rejected() {
    assert!(is_valid_filename("-option").is_err());
    assert!(is_valid_filename("--long-option").is_err());
}

#[test]
fn filename_errors_name_the_first_failed_check() {
    assert_eq!(is_valid_filename(""), Err("Filename cannot be empty"));
    assert_eq!(is_valid_filename("\u{3000}"), Err("Filename cannot be empty"));
    assert_eq!(is_valid_filename("a/b"), Err("Filename cannot contain path separators"));
    assert_eq!(is_valid_filename("a\0b"), Err("Filename cannot contain null bytes"));
    assert_eq!(is_valid_filename(".."), Err("Invalid filename"));
    assert_eq!(
        is_valid_filename(&"é".repeat(128)),
        Err("Filename too long (max 255 characters)")
    );
    assert_eq!(is_valid_filename("a\u{85}b"), Err("Filename cannot contain control characters"));
    assert_eq!(
        is_valid_filename("a\u{a0}"),
        Err("Filename cannot start or end with whitespace")
    );
    assert_eq!(is_valid_filename("-x"), Err("Filename cannot start with hyphen"));
    assert_eq!(is_valid_filename("x-"), Ok(()));
}
