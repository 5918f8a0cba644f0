use cokacdir::format::{
    ceil_char_boundary, floor_char_boundary, format_permissions, format_permissions_short,
    format_size, safe_prefix, safe_suffix, safe_truncate,
};

#[test]
fn test_format_size() {
    assert_eq!(format_size(0), "0 B");
    assert_eq!(format_size(512), "512 B");
    assert_eq!(format_size(1024), "1.0 KB");
    assert_eq!(format_size(1536), "1.5 KB");
    assert_eq!(format_size(1048576), "1.0 MB");
    assert_eq!(format_size(1073741824), "1.0 GB");
}

#[test]
fn test_format_permissions_short() {
    assert_eq!(format_permissions_short(0o755), "rwxr-xr-x");
    assert_eq!(format_permissions_short(0o644), "rw-r--r--");
    assert_eq!(format_permissions_short(0o777), "rwxrwxrwx");
    assert_eq!(format_permissions_short(0o000), "---------");
}

#[test]
fn format_size_rounds_to_the_nearest_tenth() {
    assert_eq!(format_size(1023), "1023 B");
    assert_eq!(format_size(1100), format!("{:.1} KB", 1100.0f64 / 1024.0));
    assert_eq!(format_size(1280), format!("{:.1} KB", 1280.0f64 / 1024.0));
    assert_eq!(format_size(1792), format!("{:.1} KB", 1792.0f64 / 1024.0));
    assert_eq!(format_size(1048575), format!("{:.1} KB", 1048575.0f64 / 1024.0));
    assert_eq!(format_size(5_000_000), "4.8 MB");
    assert_eq!(format_size(123_456_789_012), "115.0 GB");
}

#[test]
fn format_permissions_shows_type_and_octal() {
    assert_eq!(format_permissions(0o040755), "drwxr-xr-x (755)");
    assert_eq!(format_permissions(0o120777), "lrwxrwxrwx (777)");
    assert_eq!(format_permissions(0o100644), "-rw-r--r-- (644)");
    assert_eq!(format_permissions(0o100000), "---------- (0)");
    assert_eq!(format_permissions(0o100007), "-------rwx (7)");
}

#[test]
fn boundaries_round_to_whole_characters() {
    let s = "aé日🎉";
    assert_eq!(floor_char_boundary(s, 0), 0);
    assert_eq!(floor_char_boundary(s, 2), 1);
    assert_eq!(floor_char_boundary(s, 3), 3);
    assert_eq!(floor_char_boundary(s, 5), 3);
    assert_eq!(floor_char_boundary(s, 9), 6);
    assert_eq!(floor_char_boundary(s, 100), 10);
    assert_eq!(ceil_char_boundary(s, 2), 3);
    assert_eq!(ceil_char_boundary(s, 7), 10);
    assert_eq!(ceil_char_boundary(s, 100), 10);
}

#[test]
fn safe_cuts_keep_whole_characters() {
    let s = "aé日🎉";
    assert_eq!(safe_prefix(s, 100), s);
    assert_eq!(safe_prefix(s, 5), "aé");
    assert_eq!(safe_prefix(s, 0), "");
    assert_eq!(safe_suffix(s, 100), s);
    assert_eq!(safe_suffix(s, 5), "🎉");
    assert_eq!(safe_suffix(s, 7), "日🎉");
    assert_eq!(safe_suffix(s, 3), "");
    let mut t = String::from(s);
    safe_truncate(&mut t, 4);
    assert_eq!(t, "aé");
    safe_truncate(&mut t, 10);
    assert_eq!(t, "aé");
}
