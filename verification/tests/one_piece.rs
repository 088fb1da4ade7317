//! The app in one piece for Windows.

use paperwall::error::Error;
use paperwall::html;
use paperwall::paperwall_windows::app::{
    App, AppEvent, BrowserEvent, Startup, StartupReply, Task,
};
use paperwall::paperwall_windows::listing::{points_come_before, ListedPath};
use paperwall::paperwall_windows::{
    answer_wallpaper_request, create_picker_html, create_scaling_mode_options, create_settings,
    create_settings_path, create_tile, create_tiles, create_wallpaper_html, default_video_folder,
    escape_html, is_mp4, is_scaling_mode, object_fit, set_picker_folder,
    set_wallpaper_scaling_mode, set_wallpaper_video, Settings, VideoListing,
};
use paperwall::paths::FilePath;
use paperwall::response::create_text_response;
use paperwall::videos::Video;
use paperwall::windows::Wallpaper;

fn settings(folder: &str, scaling_mode: &str) -> Settings {
    Settings { video_folder: folder.to_string(), scaling_mode: scaling_mode.to_string() }
}

fn app(has_wallpaper: bool) -> App {
    App {
        settings: settings("C:\\v", "Fill Screen"),
        settings_path: "C:\\s.json".to_string(),
        has_wallpaper,
        task: Task::Wait,
    }
}

fn user(app: App, event: BrowserEvent) -> App {
    app.handle(AppEvent::User { event })
}

fn done(app: App) -> App {
    app.handle(AppEvent::Done { outcome: Ok(()) })
}

fn fail(app: App) -> App {
    app.handle(AppEvent::Done { outcome: Err(Error::new("oops")) })
}

fn report(app: &App) -> &str {
    match &app.task {
        Task::Report { message } => message,
        other => panic!("{other:?}"),
    }
}

fn select(path: &str, is_file: bool) -> BrowserEvent {
    BrowserEvent::SelectVideo { path: FilePath::new(path, true), is_file }
}

fn mode(name: &str) -> BrowserEvent {
    BrowserEvent::UpdateScalingMode { scaling_mode: name.to_string() }
}

#[test]
fn mode_names_are_exact() {
    assert!(is_scaling_mode("Fill Screen"));
    assert!(is_scaling_mode("Fit to Screen"));
    assert!(!is_scaling_mode("fill screen"));
    assert!(!is_scaling_mode(""));
    assert_eq!(object_fit("Fill Screen"), "cover");
    assert_eq!(object_fit("Fit to Screen"), "contain");
    assert_eq!(object_fit("other"), "contain");
}

#[test]
fn escaping_in_turn_is_escaping() {
    for text in ["", "&", "\"<>&", "&lt;", "a & \"b\" < c > d", "&amp;quot;"] {
        assert_eq!(escape_html(text), html::escape_html(text));
    }
    assert_eq!(escape_html("\"<&>"), "&quot;&lt;&amp;&gt;");
}

#[test]
fn mp4_files_are_videos() {
    assert!(is_mp4(&FilePath::new("/v/a.MP4", true)));
    assert!(!is_mp4(&FilePath::new("/v/a.mov", true)));
}

#[test]
fn named_mode_is_selected() {
    assert_eq!(
        create_scaling_mode_options("Fit to Screen"),
        "<option>Fill Screen</option><option selected>Fit to Screen</option>"
    );
    assert_eq!(
        create_scaling_mode_options("?"),
        "<option>Fill Screen</option><option>Fit to Screen</option>"
    );
}

#[test]
fn places_come_from_the_environment() {
    assert_eq!(default_video_folder(Some("C:\\Users\\u")).unwrap(), "C:\\Users\\u\\Videos");
    assert_eq!(default_video_folder(None).unwrap_err().message, "USERPROFILE is not set");
    assert_eq!(
        create_settings_path(Some("C:\\L")).unwrap(),
        "C:\\L\\paperwall\\settings.json"
    );
    assert_eq!(create_settings_path(None).unwrap_err().message, "LOCALAPPDATA is not set");
}

#[test]
fn settings_always_name_a_mode() {
    let kept = create_settings(Some(settings("C:\\v", "Fit to Screen")), None).unwrap();
    assert_eq!((kept.video_folder.as_str(), kept.scaling_mode.as_str()), ("C:\\v", "Fit to Screen"));
    let corrected = create_settings(Some(settings("C:\\v", "Stretch")), None).unwrap();
    assert_eq!(
        (corrected.video_folder.as_str(), corrected.scaling_mode.as_str()),
        ("C:\\v", "Fill Screen")
    );
    let first = create_settings(None, Some("C:\\u")).unwrap();
    assert_eq!(
        (first.video_folder.as_str(), first.scaling_mode.as_str()),
        ("C:\\u\\Videos", "Fill Screen")
    );
    assert_eq!(create_settings(None, None).unwrap_err().message, "USERPROFILE is not set");
}

#[test]
fn picker_page_is_filled() {
    let template = "<link rel=\"stylesheet\" href=\"main.css\"><script src=\"main.js\"></script>\
                    {{video_folder}} {{scaling_mode_options}} {{tiles}}";
    assert_eq!(
        create_picker_html(template, "c", "j", &settings("a&b", "Fill Screen"), "T"),
        "<style>c</style><script>j</script>a&amp;b \
         <option selected>Fill Screen</option><option>Fit to Screen</option> T"
    );
}

const TILE: &str = r#"<button
				aria-label="b&amp;.mp4"
				aria-pressed="false"
				class="tile"
				data-video-path="/v/b&amp;.mp4"
				title="b&amp;.mp4"
				type="button"
			>
				<video muted preload="metadata" src="file:///v/b&amp;.mp4"></video>
			</button>"#;

#[test]
fn tile_names_path_and_url() {
    let video =
        Video { name: "b&.mp4".to_string(), path: FilePath::new("/v/b&.mp4", true) };
    assert_eq!(create_tile(&video, "file:///v/b&.mp4"), TILE);
}

#[test]
fn tiles_are_listed_by_file_name() {
    assert_eq!(create_tiles(VideoListing::NotFolder).unwrap(), "");
    let denied = VideoListing::Unreadable { error: Error::new("denied") };
    assert_eq!(create_tiles(denied).unwrap_err().message, "denied");
    let path = |text: &str| Some(ListedPath::unicode(FilePath::new(text, true)));
    let listing = VideoListing::Entries {
        entries: vec![path("/v/c.mp4"), None, path("/v/x.txt"), path("/v/b&.mp4")],
    };
    let tiles = create_tiles(listing).unwrap();
    assert!(tiles.starts_with(TILE));
    assert_eq!(tiles.matches("<button").count(), 2);
    assert!(tiles.contains("data-video-path=\"/v/c.mp4\""));
    let relative = VideoListing::Entries { entries: vec![path("v/c.mp4")] };
    assert_eq!(
        create_tiles(relative).unwrap_err().message,
        "Could not create file URL for v/c.mp4"
    );
}

#[test]
fn names_that_are_not_unicode_are_ordered_by_code_points() {
    let entry = |surrogate: u32, rest: &str| {
        let mut name_points = vec![surrogate];
        name_points.extend(rest.chars().map(u32::from));
        let path = FilePath::new(&format!("/v/\u{fffd}{rest}"), false);
        Some(ListedPath { path, name_points })
    };
    for swapped in [false, true] {
        let mut entries = vec![entry(0xDC00, "a.mp4"), entry(0xD800, "b.mp4")];
        if swapped {
            entries.reverse();
        }
        assert_eq!(
            create_tiles(VideoListing::Entries { entries }).unwrap_err().message,
            "Could not create file URL for /v/\u{fffd}b.mp4"
        );
    }
}

#[test]
fn code_points_order_names_as_text() {
    let points = |name: &str| {
        let listed = ListedPath::unicode(FilePath::new(&format!("/v/{name}"), true));
        assert_eq!(listed.path.file_name.as_deref(), Some(name));
        listed.name_points
    };
    assert_eq!(points("aé😀"), vec![0x61, 0xE9, 0x1F600]);
    let names = ["a", "aa", "ab", "b", "B", "é", "😀", "\u{ffff}", "10", "9"];
    for left in names {
        for right in names {
            assert_eq!(points_come_before(&points(left), &points(right)), left < right);
        }
    }
}

#[test]
fn scripts_end_with_a_semicolon() {
    assert_eq!(
        set_picker_folder("C:\\v", "<b>\"</b>"),
        "window.paperwall.setVideoFolder(\"C:\\\\v\", \"<b>\\\"</b>\");"
    );
    assert_eq!(
        set_wallpaper_scaling_mode("Fit to Screen"),
        "window.paperwall.setScalingMode(\"Fit to Screen\");"
    );
    let mut wallpaper = Wallpaper::create(&FilePath::new("/v/a.mp4", true));
    assert_eq!(
        set_wallpaper_video(&mut wallpaper, &FilePath::new("/v/b.mp4", true)),
        "window.paperwall.setVideoSource(\"video.mp4?v=1\");"
    );
    assert_eq!((wallpaper.video_path.text.as_str(), wallpaper.version), ("/v/b.mp4", 1));
}

#[test]
fn wallpaper_page_is_filled() {
    assert_eq!(
        create_wallpaper_html("{{fill_screen}} {{object_fit}} {{video_url}}", "Fill Screen", 2),
        "Fill Screen cover video.mp4?v=2"
    );
}

#[test]
fn wallpaper_requests_are_answered() {
    let answer = |path: &str, video| {
        let response = answer_wallpaper_request(path, "{{video_url}}", "Fill Screen", video);
        (response.status, String::from_utf8(response.body).unwrap())
    };
    let none = || Err(Error::new("gone"));
    assert_eq!(answer("/", none()), (200, "video.mp4?v=0".to_string()));
    assert_eq!(answer("/index.html", none()), (200, "video.mp4?v=0".to_string()));
    assert_eq!(answer("/video.mp4", none()), (500, "gone".to_string()));
    let served = Ok(create_text_response(200, "bytes"));
    assert_eq!(answer("/video.mp4", served), (200, "bytes".to_string()));
    assert_eq!(answer("/wallpaper.css", none()), (404, "Not found".to_string()));
}

#[test]
fn mode_is_taken_and_then_stored() {
    let app = user(app(true), mode("Fit to Screen"));
    assert_eq!(app.settings.scaling_mode, "Fit to Screen");
    match &app.task {
        Task::SaveScalingMode { settings } => assert_eq!(settings.scaling_mode, "Fit to Screen"),
        other => panic!("{other:?}"),
    }
    let applied = done(app);
    match &applied.task {
        Task::ApplyScalingMode { scaling_mode } => assert_eq!(scaling_mode, "Fit to Screen"),
        other => panic!("{other:?}"),
    }
    assert!(matches!(done(applied).task, Task::Wait));
}

#[test]
fn failed_store_keeps_the_mode() {
    let app = fail(user(app(false), mode("Fit to Screen")));
    assert_eq!(report(&app), "Updating scaling mode failed | oops");
    assert_eq!(app.settings.scaling_mode, "Fit to Screen");
}

#[test]
fn unknown_mode_is_passed_over() {
    let app = user(app(true), mode("Stretch"));
    assert_eq!(app.settings.scaling_mode, "Fill Screen");
    assert!(matches!(app.task, Task::Wait));
}

#[test]
fn folder_is_taken_stored_and_shown() {
    let app = user(app(false), BrowserEvent::PickVideoFolder);
    assert!(matches!(&app.task, Task::PickFolder { directory } if directory == "C:\\v"));
    let app = app.handle(AppEvent::FolderPicked { video_folder: Some("C:\\w".to_string()) });
    assert_eq!(app.settings.video_folder, "C:\\w");
    assert!(matches!(&app.task, Task::SaveFolder { settings } if settings.video_folder == "C:\\w"));
    let app = done(app);
    assert!(matches!(&app.task, Task::ShowFolder { video_folder } if video_folder == "C:\\w"));
    let app = fail(app);
    assert_eq!(report(&app), "Updating video folder failed | oops");
}

#[test]
fn video_files_become_the_wallpaper() {
    let created = user(app(false), select("/v/a.mp4", true));
    match &created.task {
        Task::CreateWallpaper { path, scaling_mode } => {
            assert_eq!((path.text.as_str(), scaling_mode.as_str()), ("/v/a.mp4", "Fill Screen"));
        }
        other => panic!("{other:?}"),
    }
    assert!(done(created).has_wallpaper);
    let set = user(app(true), select("/v/a.mp4", true));
    assert!(matches!(&set.task, Task::SetVideo { path } if path.text == "/v/a.mp4"));
    assert_eq!(report(&fail(set)), "Updating wallpaper failed | oops");
    assert!(matches!(user(app(true), select("/v/a.mp4", false)).task, Task::Wait));
    assert!(matches!(user(app(true), select("/v/a.mov", true)).task, Task::Wait));
}

#[test]
fn closing_a_window_ends_it() {
    assert!(matches!(app(true).handle(AppEvent::WindowClosed).task, Task::Exit));
}

#[test]
fn start_stores_the_settings_in_any_case() {
    let startup = Startup::begin(Ok("C:\\s.json".to_string()));
    let startup = startup.advance(StartupReply::SettingsRead {
        stored: Ok(Some(settings("C:\\v", "Stretch"))),
        user_profile: None,
    });
    match &startup {
        Startup::SaveSettings { settings, .. } => assert_eq!(settings.scaling_mode, "Fill Screen"),
        other => panic!("{other:?}"),
    }
    let startup = startup.advance(StartupReply::Done { outcome: Ok(()) });
    assert!(matches!(&startup, Startup::CreatePicker { .. }));
    match startup.advance(StartupReply::Done { outcome: Ok(()) }) {
        Startup::Running { app } => {
            assert!(!app.has_wallpaper);
            assert_eq!(app.settings_path, "C:\\s.json");
        }
        other => panic!("{other:?}"),
    }
}

#[test]
fn one_piece_start_fails_with_its_cause() {
    let failed = |startup| match startup {
        Startup::Failed { error } => error.message,
        other => panic!("{other:?}"),
    };
    let begun = || Startup::begin(Ok("C:\\s.json".to_string()));
    assert_eq!(failed(Startup::begin(Err(Error::new("cause")))), "cause");
    assert_eq!(
        failed(begun().advance(StartupReply::SettingsRead {
            stored: Err(Error::new("cause")),
            user_profile: Some("C:\\u".to_string()),
        })),
        "cause"
    );
    let first = |user_profile: Option<&str>| {
        begun().advance(StartupReply::SettingsRead {
            stored: Ok(None),
            user_profile: user_profile.map(|folder| folder.to_string()),
        })
    };
    assert_eq!(failed(first(None)), "USERPROFILE is not set");
    let error = || Err(Error::new("cause"));
    assert_eq!(
        failed(first(Some("C:\\u")).advance(StartupReply::Done { outcome: error() })),
        "cause"
    );
    let opening = first(Some("C:\\u")).advance(StartupReply::Done { outcome: Ok(()) });
    assert_eq!(failed(opening.advance(StartupReply::Done { outcome: error() })), "cause");
}
