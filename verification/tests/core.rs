use bwp::cli::validate_command;
use bwp::errors::Error;
use bwp::filename::{derive_filename, filename_from_pairs};
use bwp::listing::{listing_request_url, resolve_wallpaper, WallpaperEntry};
use bwp::setter::{plan_set_bg, BgPlan};
use bwp::storage::{persist_plan, storage_dir_path};

fn entry(title: &str, url: &str) -> WallpaperEntry {
    WallpaperEntry { title: title.to_string(), url: url.to_string() }
}

#[test]
fn ls_command_is_accepted() {
    assert!(validate_command("ls").is_ok());
}

#[test]
fn unknown_command_is_rejected() {
    assert_eq!(validate_command("foo"), Err(Error::UnknownCommand));
    assert_eq!(validate_command(""), Err(Error::UnknownCommand));
    assert_eq!(validate_command("LS"), Err(Error::UnknownCommand));
}

#[test]
fn listing_url_carries_region() {
    assert_eq!(
        listing_request_url("en-US"),
        "https://www.bing.com/HPImageArchive.aspx?format=js&idx=0&n=10&mkt=en-US"
    );
}

#[test]
fn listing_url_empty_region_means_server_default() {
    assert_eq!(
        listing_request_url(""),
        "https://www.bing.com/HPImageArchive.aspx?format=js&idx=0&n=10&mkt="
    );
}

#[test]
fn resolved_url_is_absolute_and_prefixed() {
    let entries = vec![
        entry("Today", "/th?id=X.jpg"),
        entry("Yesterday", "/th?id=Y.jpg"),
    ];
    for num in 0..entries.len() {
        let w = resolve_wallpaper(&entries, num).unwrap();
        assert!(!w.url.is_empty());
        assert!(w.url.starts_with("https://www.bing.com"));
    }
    let w = resolve_wallpaper(&entries, 1).unwrap();
    assert_eq!(w.url, "https://www.bing.com/th?id=Y.jpg");
    assert_eq!(w.title, "Yesterday");
}

#[test]
fn out_of_range_index_fails() {
    let entries = vec![entry("Today", "/a.jpg"), entry("Yesterday", "/b.jpg")];
    assert_eq!(
        resolve_wallpaper(&entries, 2).map(|w| w.url),
        Err(Error::IndexOutOfRange)
    );
    assert_eq!(
        resolve_wallpaper(&entries, 10).map(|w| w.url),
        Err(Error::IndexOutOfRange)
    );
}

#[test]
fn index_at_window_fails_even_in_a_longer_listing() {
    let mut entries = Vec::new();
    for i in 0..12 {
        entries.push(entry("t", &format!("/img{i}.jpg")));
    }
    assert!(resolve_wallpaper(&entries, 9).is_ok());
    assert_eq!(
        resolve_wallpaper(&entries, 10).map(|w| w.url),
        Err(Error::IndexOutOfRange)
    );
}

#[test]
fn empty_listing_fails() {
    let entries: Vec<WallpaperEntry> = Vec::new();
    assert_eq!(
        resolve_wallpaper(&entries, 0).map(|w| w.url),
        Err(Error::IndexOutOfRange)
    );
}

#[test]
fn filename_comes_from_id_parameter() {
    let name = derive_filename("https://www.bing.com/th?id=ABC123_1920x1080.jpg").unwrap();
    assert_eq!(name, "ABC123_1920x1080.jpg");
}

#[test]
fn filename_without_id_is_the_default() {
    let name = derive_filename("https://www.bing.com/th?page=2&sort=desc").unwrap();
    assert_eq!(name, "bwp.jpg");
    let bare = derive_filename("https://www.bing.com/image.jpg").unwrap();
    assert_eq!(bare, "bwp.jpg");
}

#[test]
fn filename_is_url_decoded() {
    let name = derive_filename("https://www.bing.com/th?id=A%20B_1920x1080.jpg").unwrap();
    assert_eq!(name, "A B_1920x1080.jpg");
}

#[test]
fn last_id_parameter_wins() {
    let name = derive_filename("https://www.bing.com/th?id=first.jpg&id=second.jpg").unwrap();
    assert_eq!(name, "second.jpg");
}

#[test]
fn pair_scan_takes_the_last_id_and_ignores_other_keys() {
    let pairs = vec![
        ("page".to_string(), "2".to_string()),
        ("id".to_string(), "first.jpg".to_string()),
        ("sort".to_string(), "desc".to_string()),
        ("id".to_string(), "second.jpg".to_string()),
        ("tail".to_string(), "x".to_string()),
    ];
    assert_eq!(filename_from_pairs(&pairs), "second.jpg");
    let no_id = vec![("page".to_string(), "2".to_string())];
    assert_eq!(filename_from_pairs(&no_id), "bwp.jpg");
    assert_eq!(filename_from_pairs(&Vec::new()), "bwp.jpg");
}

#[test]
fn non_absolute_url_is_rejected() {
    assert_eq!(derive_filename("not a url"), Err(Error::InvalidUrl));
    assert_eq!(derive_filename("/th?id=X.jpg"), Err(Error::InvalidUrl));
}

#[test]
fn storage_dir_is_hidden_under_home() {
    assert_eq!(storage_dir_path("/home/user"), "/home/user/.bwp");
}

#[test]
fn storage_dir_setup_is_repeatable() {
    let first = storage_dir_path("/home/user");
    let second = storage_dir_path("/home/user");
    assert_eq!(first, second);
}

#[test]
fn persisted_bytes_are_identical_to_the_body() {
    let body: Vec<u8> = vec![0xFF, 0xD8, 0x00, 0x7F, 0x80, 0xFF];
    let w = persist_plan("/home/user/.bwp", "X.jpg", body.clone());
    assert_eq!(w.bytes, body);
    assert_eq!(w.path, "/home/user/.bwp/X.jpg");
}

#[test]
fn persisted_empty_body_stays_empty() {
    let w = persist_plan("/home/user/.bwp", "bwp.jpg", Vec::new());
    assert!(w.bytes.is_empty());
}

#[test]
fn background_is_left_alone_without_the_flag() {
    assert!(matches!(plan_set_bg(false, "linux", "/home/user/.bwp/X.jpg"), BgPlan::Skip));
    assert!(matches!(plan_set_bg(false, "macos", "/home/user/.bwp/X.jpg"), BgPlan::Skip));
}

#[test]
fn setter_runs_feh_once_on_the_supported_os() {
    match plan_set_bg(true, "linux", "/home/user/.bwp/X.jpg") {
        BgPlan::Run { program, args } => {
            assert_eq!(program, "feh");
            assert_eq!(args, vec!["--bg-scale".to_string(), "/home/user/.bwp/X.jpg".to_string()]);
        }
        _ => panic!("expected an invocation plan on the supported os"),
    }
}

#[test]
fn setter_reports_non_support_elsewhere() {
    assert!(matches!(plan_set_bg(true, "macos", "/x.jpg"), BgPlan::Unsupported));
    assert!(matches!(plan_set_bg(true, "windows", "/x.jpg"), BgPlan::Unsupported));
}

#[test]
fn error_messages_name_the_condition() {
    assert_eq!(Error::UnknownCommand.message(), "unknown command");
    assert_eq!(Error::IndexOutOfRange.message(), "wallpaper index out of range");
    assert_eq!(Error::InvalidUrl.message(), "invalid download url");
}
