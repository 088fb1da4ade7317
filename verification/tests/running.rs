//! Running: what the app does from its start to its end.

use paperwall::app::{
    prepare_folder_page, App, AppEvent, FolderPage, Startup, StartupReply, Task, UserEvent,
};
use paperwall::error::Error;
use paperwall::paths::FilePath;
use paperwall::picker::Platform;
use paperwall::scaling::ScalingMode;
use paperwall::settings::Settings;
use paperwall::videos::{FolderEntry, FolderListing, Video};

fn page(paths: &[&str]) -> FolderPage {
    FolderPage {
        videos: paths
            .iter()
            .map(|path| Video { name: path.to_string(), path: FilePath::new(path, true) })
            .collect(),
        tiles: "tiles".to_string(),
        html: "html".to_string(),
    }
}

fn settings(folder: &str, scaling_mode: ScalingMode) -> Settings {
    Settings { video_folder: folder.to_string(), scaling_mode }
}

fn app(has_wallpaper: bool) -> App {
    App {
        settings: settings("/v", ScalingMode::FillScreen),
        settings_path: "/settings.json".to_string(),
        selected_video: if has_wallpaper { Some(0) } else { None },
        videos: page(&["/v/a.mp4", "/v/b.mp4"]).videos,
        has_wallpaper,
        task: Task::Wait,
    }
}

fn user(app: App, event: UserEvent) -> App {
    app.handle(AppEvent::User { event })
}

fn done(app: App) -> App {
    app.handle(AppEvent::Done { outcome: Ok(()) })
}

fn fail(app: App) -> App {
    app.handle(AppEvent::Done { outcome: Err(Error::new("oops")) })
}

fn assert_report(app: &App, expected: &str) {
    match &app.task {
        Task::Report { message } => assert_eq!(message, expected),
        other => panic!("{other:?}"),
    }
}

#[test]
fn first_video_creates_the_wallpaper() {
    let app = user(app(false), UserEvent::SelectVideo { index: 1 });
    match &app.task {
        Task::CreateWallpaper { index, path, scaling_mode } => {
            assert_eq!((*index, path.text.as_str()), (1, "/v/b.mp4"));
            assert_eq!(*scaling_mode, ScalingMode::FillScreen);
        }
        other => panic!("{other:?}"),
    }
    let app = done(app);
    assert!(app.has_wallpaper);
    assert_eq!(app.selected_video, Some(1));
    assert!(matches!(app.task, Task::Wait));
}

#[test]
fn next_video_is_set_on_the_wallpaper() {
    let app = user(app(true), UserEvent::SelectVideo { index: 1 });
    assert!(matches!(&app.task, Task::SetVideo { index: 1, .. }));
    let app = done(app);
    assert_eq!(app.selected_video, Some(1));
}

#[test]
fn shown_or_missing_video_asks_nothing() {
    let shown = user(app(true), UserEvent::SelectVideo { index: 0 });
    assert!(matches!(shown.task, Task::Wait));
    let missing = user(app(true), UserEvent::SelectVideo { index: 2 });
    assert!(matches!(missing.task, Task::Wait));
    assert_eq!(missing.selected_video, Some(0));
}

#[test]
fn failed_wallpaper_is_reported_and_can_be_tried_again() {
    let app = fail(user(app(false), UserEvent::SelectVideo { index: 0 }));
    assert_report(&app, "Updating wallpaper failed | oops");
    assert!(!app.has_wallpaper);
    assert_eq!(app.selected_video, None);
    let app = user(app, UserEvent::SelectVideo { index: 0 });
    assert!(matches!(&app.task, Task::CreateWallpaper { index: 0, .. }));
}

#[test]
fn chosen_mode_is_stored_and_applied() {
    let event = UserEvent::UpdateScalingMode { scaling_mode: ScalingMode::FitToScreen };
    let app = user(app(true), event);
    match &app.task {
        Task::WriteScalingMode { settings } => {
            assert_eq!(settings.video_folder, "/v");
            assert_eq!(settings.scaling_mode, ScalingMode::FitToScreen);
        }
        other => panic!("{other:?}"),
    }
    assert_eq!(app.settings.scaling_mode, ScalingMode::FillScreen);
    let app = done(app);
    assert_eq!(app.settings.scaling_mode, ScalingMode::FitToScreen);
    assert!(matches!(
        app.task,
        Task::ApplyScalingMode { scaling_mode: ScalingMode::FitToScreen }
    ));
    let reported = fail(app);
    assert_report(&reported, "Updating scaling mode failed | oops");
    assert_eq!(reported.settings.scaling_mode, ScalingMode::FitToScreen);
}

#[test]
fn mode_without_wallpaper_is_only_stored() {
    let event = UserEvent::UpdateScalingMode { scaling_mode: ScalingMode::FitToScreen };
    let app = done(user(app(false), event));
    assert!(matches!(app.task, Task::Wait));
    assert_eq!(app.settings.scaling_mode, ScalingMode::FitToScreen);
}

#[test]
fn current_mode_asks_nothing() {
    let event = UserEvent::UpdateScalingMode { scaling_mode: ScalingMode::FillScreen };
    assert!(matches!(user(app(true), event).task, Task::Wait));
}

#[test]
fn mode_that_cannot_be_stored_is_not_taken() {
    let event = UserEvent::UpdateScalingMode { scaling_mode: ScalingMode::FitToScreen };
    let app = fail(user(app(true), event));
    assert_report(&app, "Updating scaling mode failed | oops");
    assert_eq!(app.settings.scaling_mode, ScalingMode::FillScreen);
}

#[test]
fn picked_folder_is_shown_without_a_choice() {
    let app = user(app(true), UserEvent::PickVideoFolder);
    match &app.task {
        Task::PickFolder { directory } => assert_eq!(directory, "/v"),
        other => panic!("{other:?}"),
    }
    let app = app.handle(AppEvent::FolderPicked { video_folder: Some("/w".to_string()) });
    match &app.task {
        Task::ReadFolder { video_folder, scaling_mode } => {
            assert_eq!((video_folder.as_str(), *scaling_mode), ("/w", ScalingMode::FillScreen));
        }
        other => panic!("{other:?}"),
    }
    let app = app.handle(AppEvent::FolderRead { page: Ok(page(&["/w/c.mp4"])) });
    match &app.task {
        Task::WriteFolder { settings, .. } => assert_eq!(settings.video_folder, "/w"),
        other => panic!("{other:?}"),
    }
    assert_eq!(app.settings.video_folder, "/v");
    let app = done(app);
    match &app.task {
        Task::ShowFolder { html, video_folder, tiles } => {
            assert_eq!(
                (html.as_str(), video_folder.as_str(), tiles.as_str()),
                ("html", "/w", "tiles")
            );
        }
        other => panic!("{other:?}"),
    }
    assert_eq!(app.settings.video_folder, "/w");
    assert_eq!(app.videos.len(), 1);
    assert_eq!(app.selected_video, None);
    assert!(app.has_wallpaper);
    assert!(matches!(done(app).task, Task::Wait));
}

#[test]
fn folder_that_fails_is_not_taken() {
    let picking = || user(app(true), UserEvent::PickVideoFolder);
    let none = picking().handle(AppEvent::FolderPicked { video_folder: None });
    assert!(matches!(none.task, Task::Wait));
    let reading =
        || picking().handle(AppEvent::FolderPicked { video_folder: Some("/w".to_string()) });
    let unread = reading().handle(AppEvent::FolderRead { page: Err(Error::new("denied")) });
    assert_report(&unread, "Updating video folder failed | denied");
    assert_eq!(unread.settings.video_folder, "/v");
    let unwritten = fail(reading().handle(AppEvent::FolderRead { page: Ok(page(&[])) }));
    assert_report(&unwritten, "Updating video folder failed | oops");
    assert_eq!(unwritten.settings.video_folder, "/v");
    assert_eq!(unwritten.videos.len(), 2);
    assert_eq!(unwritten.selected_video, Some(0));
    let unshown = fail(done(reading().handle(AppEvent::FolderRead { page: Ok(page(&[])) })));
    assert_report(&unshown, "Updating video folder failed | oops");
    assert_eq!(unshown.settings.video_folder, "/w");
}

#[test]
fn what_does_not_belong_is_passed_over() {
    let waiting = app(true).handle(AppEvent::FolderPicked { video_folder: None });
    assert!(matches!(waiting.task, Task::Wait));
    assert!(matches!(done(waiting).task, Task::Wait));
    let picking = user(app(true), UserEvent::PickVideoFolder);
    let still = user(picking, UserEvent::SelectVideo { index: 1 });
    assert!(matches!(still.task, Task::PickFolder { .. }));
}

#[test]
fn closing_the_picker_ends_the_app() {
    assert!(matches!(app(true).handle(AppEvent::PickerClosed).task, Task::Exit));
}

#[test]
fn folder_page_is_prepared() {
    let entry = |path: &str| FolderEntry::Found { path: FilePath::new(path, true), is_file: true };
    let listing = FolderListing::Entries { entries: vec![entry("/v/b.mp4"), entry("/v/a.mp4")] };
    let page = prepare_folder_page(
        Platform::MacOs,
        "{{video_folder}}:{{tiles}}",
        "/v",
        ScalingMode::FillScreen,
        listing,
    )
    .unwrap();
    assert_eq!(page.videos[0].name, "a.mp4");
    assert_eq!(page.html, format!("/v:{}", page.tiles));
    assert_eq!(page.tiles.matches("<button").count(), 2);
    let failed = prepare_folder_page(
        Platform::MacOs,
        "",
        "/v",
        ScalingMode::FillScreen,
        FolderListing::Unreadable { error: Error::new("denied") },
    );
    assert_eq!(failed.unwrap_err().message, "denied");
    let listing = FolderListing::Entries { entries: vec![entry("v/b.mp4")] };
    let failed =
        prepare_folder_page(Platform::Windows, "", "/v", ScalingMode::FillScreen, listing);
    assert_eq!(failed.unwrap_err().message, "Could not create file URL for v/b.mp4");
}

fn failed(startup: Startup) -> String {
    match startup {
        Startup::Failed { error } => error.message,
        other => panic!("{other:?}"),
    }
}

fn start_done(startup: Startup) -> Startup {
    startup.advance(StartupReply::Done { outcome: Ok(()) })
}

#[test]
fn stored_settings_are_taken_and_not_stored_again() {
    let startup = Startup::begin(Ok("/s.json".to_string()));
    let stored = Ok(Some(settings("/v", ScalingMode::FitToScreen)));
    let startup = startup.advance(StartupReply::SettingsRead { stored });
    assert!(matches!(&startup, Startup::ReadFolder { should_write: false, .. }));
    let startup = startup.advance(StartupReply::FolderRead { page: Ok(page(&["/v/a.mp4"])) });
    assert!(matches!(&startup, Startup::CreatePicker { .. }));
    match start_done(startup) {
        Startup::Running { app } => {
            assert_eq!(app.settings.scaling_mode, ScalingMode::FitToScreen);
            assert_eq!(app.settings_path, "/s.json");
            assert_eq!((app.selected_video, app.has_wallpaper), (None, false));
            assert_eq!(app.videos.len(), 1);
        }
        other => panic!("{other:?}"),
    }
}

#[test]
fn first_settings_are_stored_once_the_picker_is_open() {
    let startup = Startup::begin(Ok("/s.json".to_string()))
        .advance(StartupReply::SettingsRead { stored: Ok(None) });
    assert!(matches!(&startup, Startup::ReadDefaultFolder { .. }));
    let startup =
        startup.advance(StartupReply::DefaultFolderRead { video_folder: Ok("/m".to_string()) });
    let startup = startup.advance(StartupReply::FolderRead { page: Ok(page(&[])) });
    let startup = start_done(startup);
    match &startup {
        Startup::WriteSettings { settings_path, settings, .. } => {
            assert_eq!((settings_path.as_str(), settings.video_folder.as_str()), ("/s.json", "/m"));
            assert_eq!(settings.scaling_mode, ScalingMode::FillScreen);
        }
        other => panic!("{other:?}"),
    }
    assert!(matches!(start_done(startup), Startup::Running { .. }));
}

#[test]
fn start_fails_with_its_cause() {
    let error = || Error::new("cause");
    let begun = || Startup::begin(Ok("/s.json".to_string()));
    assert_eq!(failed(Startup::begin(Err(error()))), "cause");
    assert_eq!(
        failed(begun().advance(StartupReply::SettingsRead { stored: Err(error()) })),
        "cause"
    );
    let missing = || begun().advance(StartupReply::SettingsRead { stored: Ok(None) });
    assert_eq!(
        failed(missing().advance(StartupReply::DefaultFolderRead { video_folder: Err(error()) })),
        "cause"
    );
    let reading = || {
        missing().advance(StartupReply::DefaultFolderRead { video_folder: Ok("/m".to_string()) })
    };
    assert_eq!(
        failed(reading().advance(StartupReply::FolderRead { page: Err(error()) })),
        "cause"
    );
    let opening = || reading().advance(StartupReply::FolderRead { page: Ok(page(&[])) });
    assert_eq!(
        failed(opening().advance(StartupReply::Done { outcome: Err(error()) })),
        "cause"
    );
    assert_eq!(
        failed(start_done(opening()).advance(StartupReply::Done { outcome: Err(error()) })),
        "cause"
    );
}
