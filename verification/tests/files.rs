//! Files: paths, folders and settings.

use paperwall::error::Error;
use paperwall::paths::{is_video_path, join, FilePath};
use paperwall::scaling::ScalingMode;
use paperwall::settings::{
    default_settings, read_settings, settings_file_content, Settings, SettingsFile,
};
use paperwall::urls::{create_file_url, create_video_url, create_wallpaper_page_url, PROTOCOL};
use paperwall::videos::{read_videos, sort_by_name, FolderEntry, FolderListing, Video};

fn found(path: &str, is_file: bool) -> FolderEntry {
    FolderEntry::Found { path: FilePath::new(path, true), is_file }
}

fn names(videos: &[Video]) -> Vec<&str> {
    videos.iter().map(|video| video.name.as_str()).collect()
}

#[test]
fn file_name_is_the_last_component() {
    for (path, name) in [
        ("/a/b.mp4", Some("b.mp4")),
        ("b.mp4", Some("b.mp4")),
        ("a/.b", Some(".b")),
        ("/a/b.mp4/", Some("b.mp4")),
        ("/a/..", None),
        ("/", None),
        ("", None),
    ] {
        let path = FilePath::new(path, true);
        assert_eq!(path.file_name.as_deref(), name);
        assert_eq!(path.copy().file_name.as_deref(), name);
    }
}

#[test]
fn videos_are_known_by_their_extension() {
    for (path, expected) in [
        ("/v/a.mp4", true),
        ("/v/a.MP4", true),
        ("/v/a.Mp4", true),
        ("/v/a.b.mp4", true),
        ("a.mp4", true),
        ("/v/a.mp4/", true),
        ("/v/.mp4", false),
        ("/v/mp4", false),
        ("/v/a.mp4.part", false),
        ("/v/a.mp", false),
        ("/v/a.mp45", false),
        ("/v/a.mp4 ", false),
        ("/v/a.", false),
        ("/v.mp4/..", false),
        ("", false),
    ] {
        assert_eq!(is_video_path(&FilePath::new(path, true)), expected, "{path:?}");
        let standard = std::path::Path::new(path);
        assert_eq!(
            standard
                .extension()
                .and_then(|extension| extension.to_str())
                .is_some_and(|extension| extension.eq_ignore_ascii_case("mp4")),
            expected
        );
    }
}

#[test]
fn rendered_paths_are_videos_too() {
    assert!(is_video_path(&FilePath::new("/v/\u{fffd}.mp4", false)));
}

#[test]
fn joining_adds_one_separator() {
    assert_eq!(join('/', "/home/u", "Movies"), "/home/u/Movies");
    assert_eq!(join('/', "/home/u/", "Movies"), "/home/u/Movies");
    assert_eq!(join('/', "", "Movies"), "Movies");
    assert_eq!(join('/', "/home/a\\", "Movies"), "/home/a\\/Movies");
    assert_eq!(join('\\', "C:\\Users\\u", "Videos"), "C:\\Users\\u\\Videos");
    assert_eq!(join('\\', "C:\\", "Videos"), "C:\\Videos");
    assert_eq!(join('\\', "C:/", "Videos"), "C:/Videos");
    assert_eq!(join('\\', "C:", "Videos"), "C:Videos");
    assert_eq!(join('\\', "1:", "Videos"), "1:\\Videos");
}

#[test]
fn verbatim_paths_are_put_together_anew() {
    for (base, expected) in [
        (r"\\?\C:\x", r"\\?\C:\x\Videos"),
        (r"\\?\C:\x/", r"\\?\C:\x/\Videos"),
        (r"\\?\C:\x\\", r"\\?\C:\x\Videos"),
        (r"\\?\C:\x\\y\", r"\\?\C:\x\y\Videos"),
        (r"\\?\C:\x\..\.", r"\\?\C:\x\..\.\Videos"),
        (r"\\?\C:", r"\\?\C:\Videos"),
        (r"\\?\C:\", r"\\?\C:\Videos"),
        (r"\\?\C:/x/y", r"\\?\C:\x/y\Videos"),
        (r"\\?\c:x", r"\\?\c:x\Videos"),
        (r"\\?\Volume\\x", r"\\?\Volume\x\Videos"),
        (r"\\?\UNC\server\share", r"\\?\UNC\server\share\Videos"),
        (r"\\?\UNC\server\share\\x\", r"\\?\UNC\server\share\x\Videos"),
        (r"\\?\UNC\server", r"\\?\UNC\server\Videos"),
        (r"\\?\UNC\server\", r"\\?\UNC\server\Videos"),
        (r"\\?\", r"\\?\\Videos"),
    ] {
        assert_eq!(join('\\', base, "Videos"), expected);
    }
    assert_eq!(join('\\', r"\\?\C:\x", ""), r"\\?\C:\x\");
    assert_eq!(join('\\', r"\\?\C:\x\\", ""), r"\\?\C:\x\\");
    assert_eq!(join('\\', r"\\?/C:\x/", "Videos"), r"\\?/C:\x/Videos");
    assert_eq!(join('\\', r"\\server\share", "Videos"), r"\\server\share\Videos");
    assert_eq!(join('/', r"\\?\a\\", "b"), r"\\?\a\\/b");
}

#[test]
fn videos_are_listed_by_name() {
    let listing = FolderListing::Entries {
        entries: vec![
            found("/v/b.mp4", true),
            found("/v/readme.txt", true),
            found("/v/a.MP4", true),
            found("/v/folder.mp4", false),
            found("/v/B.mp4", true),
            found("/v/é.mp4", true),
            found("/v/10.mp4", true),
            found("/v/9.mp4", true),
        ],
    };
    let videos = read_videos(listing).unwrap();
    assert_eq!(names(&videos), ["10.mp4", "9.mp4", "B.mp4", "a.MP4", "b.mp4", "é.mp4"]);
    assert_eq!(videos[3].path.text, "/v/a.MP4");
}

#[test]
fn missing_folder_has_no_videos() {
    assert!(read_videos(FolderListing::NotFound).unwrap().is_empty());
    assert!(read_videos(FolderListing::Entries { entries: Vec::new() }).unwrap().is_empty());
}

#[test]
fn unreadable_folder_is_a_failure() {
    let listing = FolderListing::Unreadable { error: Error::new("denied") };
    assert_eq!(read_videos(listing).unwrap_err().message, "denied");
}

#[test]
fn first_unreadable_entry_is_the_failure() {
    let listing = FolderListing::Entries {
        entries: vec![
            found("/v/b.mp4", true),
            FolderEntry::Unreadable { error: Error::new("first") },
            FolderEntry::Unreadable { error: Error::new("second") },
        ],
    };
    assert_eq!(read_videos(listing).unwrap_err().message, "first");
}

#[test]
fn videos_of_one_name_keep_their_order() {
    let video = |name: &str, path: &str| Video {
        name: name.to_string(),
        path: FilePath::new(path, true),
    };
    let sorted = sort_by_name(vec![
        video("b", "/1"),
        video("a", "/2"),
        video("b", "/3"),
        video("a", "/4"),
        video("b", "/5"),
    ]);
    let paths: Vec<&str> = sorted.iter().map(|video| video.path.text.as_str()).collect();
    assert_eq!(paths, ["/2", "/4", "/1", "/3", "/5"]);
}

#[test]
fn file_urls_are_percent_encoded() {
    assert_eq!(
        create_file_url(&FilePath::new("/my videos/a#1?.mp4", true)).unwrap(),
        "file:///my%20videos/a%231%3F.mp4"
    );
}

#[test]
fn relative_paths_have_no_url() {
    assert_eq!(
        create_file_url(&FilePath::new("videos/a.mp4", true)).unwrap_err().message,
        "Could not create file URL for videos/a.mp4"
    );
}

#[test]
fn paths_that_are_not_unicode_have_no_url() {
    assert_eq!(
        create_file_url(&FilePath::new("/v/\u{fffd}.mp4", false)).unwrap_err().message,
        "Could not create file URL for /v/\u{fffd}.mp4"
    );
}

#[test]
fn video_urls_carry_the_version() {
    assert_eq!(create_video_url(0), "video.mp4?v=0");
    assert_eq!(create_video_url(17), "video.mp4?v=17");
    assert_ne!(create_video_url(1), create_video_url(10));
}

#[test]
fn wallpaper_page_is_on_the_own_scheme() {
    assert_eq!(PROTOCOL, "paperwall");
    assert_eq!(create_wallpaper_page_url(), "paperwall://localhost/index.html");
}

#[test]
fn first_settings_fill_the_screen() {
    let settings = default_settings("/home/u/Movies".to_string());
    assert_eq!(settings.video_folder, "/home/u/Movies");
    assert_eq!(settings.scaling_mode, ScalingMode::FillScreen);
}

#[test]
fn settings_file_ends_with_a_line_break() {
    assert_eq!(settings_file_content("{}"), "{}\n");
}

#[test]
fn settings_are_read_or_missing_or_a_failure() {
    let settings = Settings {
        video_folder: "/v".to_string(),
        scaling_mode: ScalingMode::FitToScreen,
    };
    let stored = SettingsFile::Stored { settings };
    let read = read_settings(stored).unwrap().unwrap();
    assert_eq!((read.video_folder.as_str(), read.scaling_mode), ("/v", ScalingMode::FitToScreen));
    assert!(read_settings(SettingsFile::NotFound).unwrap().is_none());
    let malformed = SettingsFile::Malformed { error: Error::new("bad") };
    assert_eq!(read_settings(malformed).unwrap_err().message, "bad");
    let unreadable = SettingsFile::Unreadable { error: Error::new("denied") };
    assert_eq!(read_settings(unreadable).unwrap_err().message, "denied");
}
