use dune::file_info::FileInfo;
use dune::text::decimal_string;

fn info_of_size(size: u64) -> FileInfo {
    FileInfo::new(
        String::from("f"),
        String::from("/f"),
        false,
        0o644,
        false,
        0,
        size,
    )
}

#[test]
fn decimal_rendering_is_exact() {
    assert_eq!(decimal_string(0), "0");
    assert_eq!(decimal_string(7), "7");
    assert_eq!(decimal_string(10), "10");
    assert_eq!(decimal_string(1024), "1024");
    assert_eq!(decimal_string(u64::MAX), "18446744073709551615");
}

#[test]
fn pretty_size_picks_the_largest_exceeded_unit() {
    assert_eq!(info_of_size(0).pretty_size(), "  0 B");
    assert_eq!(info_of_size(10).pretty_size(), " 10 B");
    assert_eq!(info_of_size(1024).pretty_size(), "1024 B");
    assert_eq!(info_of_size(1025).pretty_size(), "  1 KiB");
    assert_eq!(info_of_size(10 * 1024).pretty_size(), " 10 KiB");
    assert_eq!(info_of_size(3 * 1024 * 1024).pretty_size(), "  3 MiB");
    assert_eq!(info_of_size(5 * 1024 * 1024 * 1024).pretty_size(), "  5 GiB");
    assert_eq!(info_of_size(7 * 1024 * 1024 * 1024 * 1024).pretty_size(), "  7 TiB");
    assert_eq!(info_of_size(2 * 1024 * 1024 * 1024 * 1024 * 1024).pretty_size(), "  2 PiB");
    assert_eq!(info_of_size(123456).pretty_size(), "120 KiB");
}

#[test]
fn file_info_getters_hand_back_the_record() {
    let fi = FileInfo::new(
        String::from("notes.txt"),
        String::from("/home/user/notes.txt"),
        false,
        0o644,
        true,
        1_700_000_000,
        2048,
    );
    assert_eq!(fi.name(), "notes.txt");
    assert_eq!(fi.path_str(), "/home/user/notes.txt");
    assert_eq!(fi.mode(), 0o644);
    assert!(!fi.is_dir());
    assert!(fi.is_read_only());
    assert_eq!(fi.last_modified(), 1_700_000_000);
}
