use senka_panel::file_info::{file_type_from_flags, FileInfo, FileMode, FileType, Platform};

#[test]
fn parses_documented_example() {
    let mode = FileMode::from_formatted_str("-rwx-wx--x").unwrap();
    assert_eq!(mode.file_type, FileType::File);
    assert!(mode.user_read && mode.user_write && mode.user_exec);
    assert!(!mode.group_read && mode.group_write && mode.group_exec);
    assert!(!mode.other_read && !mode.other_write && mode.other_exec);
}

#[test]
fn parses_directory_and_link() {
    let dir = FileMode::from_formatted_str("drwxr-xr-x").unwrap();
    assert_eq!(dir.file_type, FileType::Directory);
    assert!(dir.group_read && !dir.group_write && dir.group_exec);
    let link = FileMode::from_formatted_str("lrwxrwxrwx").unwrap();
    assert_eq!(link.file_type, FileType::Link);
    let other = FileMode::from_formatted_str("c---------").unwrap();
    assert_eq!(other.file_type, FileType::Unspecified);
    assert!(!other.user_read && !other.other_exec);
}

#[test]
fn rejects_wrong_length() {
    assert!(FileMode::from_formatted_str("").is_none());
    assert!(FileMode::from_formatted_str("-rwx").is_none());
    assert!(FileMode::from_formatted_str("-rwxrwxrwxx").is_none());
}

#[test]
fn formats_numeric_modes() {
    assert_eq!(FileMode::from_u32(FileType::Directory, 0o755).as_formatted_string(), "drwxr-xr-x");
    assert_eq!(FileMode::from_u32(FileType::File, 0o100644).as_formatted_string(), "-rw-r--r--");
    assert_eq!(FileMode::from_u32(FileType::Link, 0o777).as_formatted_string(), "lrwxrwxrwx");
    assert_eq!(FileMode::from_u32(FileType::Unspecified, 0).as_formatted_string(), "----------");
    assert_eq!(FileMode::from_u32(FileType::File, 0o001).as_formatted_string(), "---------x");
}

#[test]
fn format_and_parse_round_trip() {
    for text in ["-rwx-wx--x", "drwxr-xr-x", "l---------", "-r--r--r--"] {
        let mode = FileMode::from_formatted_str(text).unwrap();
        assert_eq!(mode.as_formatted_string(), text);
        assert_eq!(FileMode::from_formatted_str(&mode.as_formatted_string()), Some(mode));
    }
    let unspecified = FileMode::from_u32(FileType::Unspecified, 0o640);
    let back = FileMode::from_formatted_str(&unspecified.as_formatted_string()).unwrap();
    assert_eq!(back.file_type, FileType::File);
    assert_eq!(back, FileMode { file_type: FileType::File, ..unspecified });
}

#[test]
fn only_low_nine_bits_count() {
    assert_eq!(FileMode::from_u32(FileType::File, 0o40751), FileMode::from_u32(FileType::File, 0o751));
}

#[test]
fn file_type_names() {
    assert_eq!(FileType::Unspecified.name(), "Unspecified");
    assert_eq!(FileType::Directory.name(), "Directory");
    assert_eq!(FileType::File.name(), "File");
    assert_eq!(FileType::Link.name(), "Link");
}

#[test]
fn entry_type_follows_flags() {
    assert_eq!(file_type_from_flags(true, true, true), FileType::Directory);
    assert_eq!(file_type_from_flags(false, true, true), FileType::File);
    assert_eq!(file_type_from_flags(false, false, true), FileType::Link);
    assert_eq!(file_type_from_flags(false, false, false), FileType::Unspecified);
}

#[test]
fn builds_listing_entries() {
    // 1970-01-01T00:00:01Z in 100 ns ticks since 1601.
    let ticks = 116_444_736_000_000_000u64 + 10_000_000;
    let linux = FileInfo::from_entry(String::from("a.txt"), false, true, false, 12, ticks, Platform::Ubuntu, Some(0o644));
    assert_eq!(linux.file_name, "a.txt");
    assert_eq!(linux.file_type, FileType::File);
    assert_eq!(linux.last_modified_time, 1_000_000);
    assert_eq!(linux.file_size, 12);
    assert_eq!(linux.file_mod.unwrap().as_formatted_string(), "-rw-r--r--");
    assert!(linux.owner.is_none() && linux.group.is_none());

    let windows = FileInfo::from_entry(String::from("dir"), true, false, false, 0, 15, Platform::Windows, Some(0o755));
    assert_eq!(windows.file_type, FileType::Directory);
    assert!(windows.file_mod.is_none());
    assert_eq!(windows.last_modified_time, 1 - 11_644_473_600_000_000);

    let unknown = FileInfo::from_entry(String::from("x"), false, false, false, 0, 0, Platform::Debian, None);
    assert!(unknown.file_mod.is_none());
    assert_eq!(unknown.last_modified_time, -11_644_473_600_000_000);
}
