//! Platforms: what macOS and Windows do differently.

use paperwall::desktop::{
    attach_wallpaper_window, await_desktop_parent, can_place, find_worker_window, AttachReply,
    AttachStage, DesktopParent, DesktopReply, DesktopStage, Edges, Placement, Screen,
    TopLevelWindow, WindowEdges, WorkerSearch, BOTTOM,
};
use paperwall::error::Error;
use paperwall::macos;
use paperwall::macos::{AssetAnswer, MediaTime, PickerAssets};
use paperwall::paths::FilePath;
use paperwall::response::{create_text_response, Response};
use paperwall::scaling::{ScalingMode, VideoGravity};
use paperwall::videos::Video;
use paperwall::windows;
use paperwall::windows::WallpaperResource;

fn video(path: &str, utf8: bool) -> Video {
    Video { name: "v.mp4".to_string(), path: FilePath::new(path, utf8) }
}

fn assets() -> PickerAssets {
    PickerAssets {
        app_js: "app()".to_string(),
        main_css: "main{}".to_string(),
        main_js: "main()".to_string(),
    }
}

fn content_type(response: &Response) -> &str {
    assert_eq!(response.headers.len(), 1);
    assert_eq!(response.headers[0].name, "content-type");
    &response.headers[0].value
}

fn ask(picker: &macos::Picker, videos: &Vec<Video>, path: &str) -> Response {
    match picker.create_asset_response(&assets(), videos, path) {
        AssetAnswer::Respond { response } => response,
        AssetAnswer::MakePreview { index, .. } => panic!("preview {index}"),
    }
}

fn assert_not_found(response: &Response) {
    assert_eq!(response.status, 404);
    assert_eq!(content_type(response), "text/plain");
    assert_eq!(response.body, b"Not found");
}

#[test]
fn macos_settings_are_below_the_library() {
    assert_eq!(
        macos::read_settings_path(Some("/Users/u")).unwrap(),
        "/Users/u/Library/Application Support/paperwall/settings.json"
    );
    assert_eq!(macos::read_settings_path(None).unwrap_err().message, "HOME is unavailable");
}

#[test]
fn macos_videos_are_in_the_movies_folder() {
    assert_eq!(
        macos::read_default_video_folder(Some("/Volumes/M"), Some("/Users/u")).unwrap(),
        "/Volumes/M"
    );
    assert_eq!(
        macos::read_default_video_folder(None, Some("/Users/u")).unwrap(),
        "/Users/u/Movies"
    );
    assert_eq!(
        macos::read_default_video_folder(None, None).unwrap_err().message,
        "HOME is unavailable"
    );
    assert_eq!(macos::read_home_dir(Some("/Users/u")).unwrap(), "/Users/u");
}

#[test]
fn macos_thumbnail_leads_to_its_preview() {
    for index in [0, 7, 10, usize::MAX] {
        let image = macos::create_thumbnail(&video("/v.mp4", true), index).unwrap();
        assert_eq!(image, format!("<img alt=\"\" src=\"preview/{index}.jpg\">"));
        let source = image.split('"').nth(3).unwrap();
        assert_eq!(macos::parse_preview_index(&format!("/{source}")), Some(index));
    }
}

#[test]
fn preview_paths_are_exact() {
    for (path, index) in [
        ("/preview/3.jpg", Some(3)),
        ("/preview/+3.jpg", Some(3)),
        ("/preview/003.jpg", Some(3)),
        ("/preview/.jpg", None),
        ("/preview/3.png", None),
        ("/preview/3", None),
        ("/preview/-3.jpg", None),
        ("/preview/3.jpg.jpg", None),
        ("/preview/99999999999999999999.jpg", None),
        ("/preview", None),
        ("preview/3.jpg", None),
        ("", None),
    ] {
        assert_eq!(macos::parse_preview_index(path), index, "{path:?}");
    }
}

#[test]
fn macos_picker_serves_its_files() {
    let picker = macos::Picker::create("<html>".to_string());
    let none = Vec::new();
    for (path, kind, body) in [
        ("/", "text/html", "<html>"),
        ("/main.html", "text/html", "<html>"),
        ("/app.js", "text/javascript", "app()"),
        ("/main.css", "text/css", "main{}"),
        ("/main.js", "text/javascript", "main()"),
    ] {
        let response = ask(&picker, &none, path);
        assert_eq!(response.status, 200);
        assert_eq!(content_type(&response), kind);
        assert_eq!(response.body, body.as_bytes());
    }
    for path in ["/other", "", "/preview/x.jpg", "/main.html/"] {
        assert_not_found(&ask(&picker, &none, path));
    }
}

#[test]
fn preview_is_made_once() {
    let mut picker = macos::Picker::create(String::new());
    let videos = vec![video("/v/a.mp4", true), video("/v/b.mp4", true)];
    match picker.create_asset_response(&assets(), &videos, "/preview/1.jpg") {
        AssetAnswer::MakePreview { index, path } => {
            assert_eq!((index, path.as_str()), (1, "/v/b.mp4"));
        }
        AssetAnswer::Respond { .. } => panic!("no preview is there"),
    }
    let made = picker.create_preview_response(1, Ok(vec![9, 8]));
    assert_eq!((made.status, content_type(&made)), (200, "image/jpeg"));
    assert_eq!(made.body, [9, 8]);
    let again = ask(&picker, &videos, "/preview/1.jpg");
    assert_eq!((again.status, content_type(&again)), (200, "image/jpeg"));
    assert_eq!(again.body, [9, 8]);
}

#[test]
fn failed_preview_is_not_found_and_tried_again() {
    let mut picker = macos::Picker::create(String::new());
    let videos = vec![video("/v/a.mp4", true)];
    let error = Error::new("Could not create video preview");
    assert_not_found(&picker.create_preview_response(0, Err(error)));
    assert!(matches!(
        picker.create_asset_response(&assets(), &videos, "/preview/0.jpg"),
        AssetAnswer::MakePreview { index: 0, .. }
    ));
}

#[test]
fn preview_needs_a_video_with_a_unicode_path() {
    let picker = macos::Picker::create(String::new());
    let videos = vec![video("/v/\u{fffd}.mp4", false)];
    assert_not_found(&ask(&picker, &videos, "/preview/0.jpg"));
    assert_not_found(&ask(&picker, &videos, "/preview/1.jpg"));
}

#[test]
fn other_videos_have_other_previews() {
    let mut picker = macos::Picker::create("old".to_string());
    let _ = picker.create_preview_response(0, Ok(vec![1]));
    let script = picker.set_videos("new".to_string(), "/v", "tiles");
    assert_eq!(script, "window.paperwall.setVideos(\"/v\", \"tiles\")");
    assert_eq!(picker.html, "new");
    let videos = vec![video("/v/a.mp4", true)];
    assert!(matches!(
        picker.create_asset_response(&assets(), &videos, "/preview/0.jpg"),
        AssetAnswer::MakePreview { index: 0, .. }
    ));
}

#[test]
fn preview_is_taken_in_the_middle() {
    let time = |value, timescale| MediaTime { value, timescale };
    assert_eq!(macos::create_preview_time(time(0, 600), Some(5)), time(0, 1));
    assert_eq!(macos::create_preview_time(time(-4, 600), None), time(0, 1));
    assert_eq!(macos::create_preview_time(time(10, 0), None), time(0, 1));
    assert_eq!(macos::create_preview_time(time(11, 600), None), time(5, 600));
    assert_eq!(macos::create_preview_time(time(11, 600), Some(4)), time(4, 600));
    assert_eq!(macos::middle_frame(0), 0);
    assert_eq!(macos::middle_frame(7), 3);
    assert_eq!(macos::middle_frame(8), 4);
}

#[test]
fn macos_wallpaper_plays_unicode_paths() {
    let path = FilePath::new("/v/a.mp4", true);
    let mut wallpaper = macos::Wallpaper::create(&path, ScalingMode::FillScreen).unwrap();
    assert_eq!(wallpaper.playback.path, "/v/a.mp4");
    assert_eq!(wallpaper.playback.gravity, VideoGravity::ResizeAspectFill);
    wallpaper.set_scaling_mode(ScalingMode::FitToScreen);
    assert_eq!(wallpaper.playback.path, "/v/a.mp4");
    assert_eq!(wallpaper.playback.gravity, VideoGravity::ResizeAspect);
    let other = FilePath::new("/v/b.mp4", true);
    wallpaper.set_video(&other, ScalingMode::FillScreen).unwrap();
    assert_eq!(wallpaper.playback.path, "/v/b.mp4");
    assert_eq!(wallpaper.playback.gravity, VideoGravity::ResizeAspectFill);
}

#[test]
fn macos_wallpaper_refuses_other_paths() {
    let bad = FilePath::new("/v/\u{fffd}.mp4", false);
    let error = macos::Wallpaper::create(&bad, ScalingMode::FillScreen).unwrap_err();
    assert_eq!(error.message, "Video path is not UTF-8");
    let path = FilePath::new("/v/a.mp4", true);
    let mut wallpaper = macos::Wallpaper::create(&path, ScalingMode::FillScreen).unwrap();
    let error = wallpaper.set_video(&bad, ScalingMode::FitToScreen).unwrap_err();
    assert_eq!(error.message, "Video path is not UTF-8");
    assert_eq!(wallpaper.playback.path, "/v/a.mp4");
    assert_eq!(wallpaper.playback.gravity, VideoGravity::ResizeAspectFill);
}

#[test]
fn windows_settings_are_in_the_local_data() {
    assert_eq!(
        windows::read_settings_path(Some("C:\\Users\\u\\AppData\\Local")).unwrap(),
        "C:\\Users\\u\\AppData\\Local\\paperwall\\settings.json"
    );
    assert_eq!(
        windows::read_settings_path(Some(r"\\?\C:\x/")).unwrap(),
        r"\\?\C:\x/\paperwall\settings.json"
    );
    assert_eq!(
        windows::read_settings_path(Some(r"\\?\C:\x\\")).unwrap(),
        r"\\?\C:\x\paperwall\settings.json"
    );
    assert_eq!(
        windows::read_settings_path(Some(r"\\?\UNC\server")).unwrap(),
        r"\\?\UNC\server\paperwall\settings.json"
    );
    assert_eq!(
        windows::read_settings_path(Some(r"\\?")).unwrap(),
        r"\\?\paperwall\settings.json"
    );
    assert_eq!(
        windows::read_settings_path(None).unwrap_err().message,
        "LOCALAPPDATA is not set"
    );
}

#[test]
fn windows_thumbnail_is_the_video() {
    assert_eq!(
        windows::create_thumbnail(&video("/v/a b.mp4", true), 3).unwrap(),
        "<video muted preload=\"metadata\" src=\"file:///v/a%20b.mp4\"></video>"
    );
    assert_eq!(
        windows::thumbnail_of_url("file:///C:/a&b.mp4"),
        "<video muted preload=\"metadata\" src=\"file:///C:/a&amp;b.mp4\"></video>"
    );
    assert_eq!(
        windows::create_thumbnail(&video("a.mp4", true), 3).unwrap_err().message,
        "Could not create file URL for a.mp4"
    );
}

#[test]
fn windows_picker_page_holds_its_files() {
    let page = "<link rel=\"stylesheet\" href=\"main.css\">\
                <script src=\"app.js\"></script><script src=\"main.js\"></script>";
    let picker = windows::Picker::create(page, "css", "app", "main");
    assert_eq!(picker.html, "<style>css</style><script>app</script><script>main</script>");
    assert_eq!(
        picker.set_videos(String::new(), "C:\\v", "t"),
        "window.paperwall.setVideos(\"C:\\\\v\", \"t\")"
    );
}

#[test]
fn windows_wallpaper_page_is_filled() {
    assert_eq!(
        windows::create_wallpaper_html(
            "{{fill_screen}};{{object_fit}};{{video_url}}",
            ScalingMode::FitToScreen,
            4
        ),
        "Fill Screen;contain;video.mp4?v=4"
    );
}

#[test]
fn windows_wallpaper_counts_its_videos() {
    let mut wallpaper = windows::Wallpaper::create(&FilePath::new("/v/a.mp4", true));
    assert_eq!((wallpaper.video_path.text.as_str(), wallpaper.version), ("/v/a.mp4", 0));
    let script =
        wallpaper.set_video(&FilePath::new("/v/b.mp4", true), ScalingMode::FillScreen);
    assert_eq!(script, "window.paperwall.setVideoSource(\"video.mp4?v=1\")");
    assert_eq!((wallpaper.video_path.text.as_str(), wallpaper.version), ("/v/b.mp4", 1));
    assert_eq!(
        wallpaper.set_scaling_mode(ScalingMode::FitToScreen),
        "window.paperwall.setScalingMode(\"Fit to Screen\")"
    );
}

#[test]
fn windows_wallpaper_requests_are_routed() {
    assert_eq!(windows::wallpaper_resource("/"), WallpaperResource::Page);
    assert_eq!(windows::wallpaper_resource("/index.html"), WallpaperResource::Page);
    assert_eq!(windows::wallpaper_resource("/video.mp4"), WallpaperResource::Video);
    assert_eq!(windows::wallpaper_resource("/wallpaper.css"), WallpaperResource::StyleSheet);
    assert_eq!(windows::wallpaper_resource("/else"), WallpaperResource::Nothing);
    let answer = |path: &str, video: Result<Response, Error>| {
        windows::answer_wallpaper_request(
            path,
            "{{object_fit}} {{video_url}}",
            "css{}",
            ScalingMode::FillScreen,
            video,
        )
    };
    let none = || Err(Error::new("no video"));
    let page = answer("/", none());
    assert_eq!(page.body, b"cover video.mp4?v=0");
    assert_eq!(content_type(&page), "text/html; charset=utf-8");
    let style = answer("/wallpaper.css", none());
    assert_eq!((content_type(&style), style.body.as_slice()), ("text/css", &b"css{}"[..]));
    let missing = answer("/else", none());
    assert_eq!((missing.status, missing.body.as_slice()), (404, &b"Not found"[..]));
    let failed = answer("/video.mp4", none());
    assert_eq!((failed.status, failed.body.as_slice()), (500, &b"no video"[..]));
    let served = answer("/video.mp4", Ok(create_text_response(206, "bytes")));
    assert_eq!((served.status, served.body.as_slice()), (206, &b"bytes"[..]));
}

const PARENT: DesktopParent = DesktopParent { insert_after: 7, layered: true, window: 8 };
const SCREEN: Screen = Screen { x: -10, y: 0, width: 1920, height: 1080 };

fn step(stage: AttachStage, reply: AttachReply) -> AttachStage {
    attach_wallpaper_window(PARENT, SCREEN, stage, reply)
}

fn failure(stage: AttachStage) -> String {
    match stage {
        AttachStage::Failed { error } => error.message,
        other => panic!("{other:?}"),
    }
}

#[test]
fn layered_window_is_attached_in_order() {
    let stage = step(AttachStage::ReadStyle, AttachReply::StyleRead { style: 0x00CF_0001, error: 0 });
    assert!(matches!(stage, AttachStage::WriteStyle { style: 0x4000_0001 }));
    let stage = step(stage, AttachReply::StyleWritten { error: 0 });
    assert!(matches!(stage, AttachStage::ReadExtendedStyle));
    let stage = step(stage, AttachReply::ExtendedStyleRead { style: 0x100 });
    assert!(matches!(stage, AttachStage::WriteExtendedStyle { style: 0x8_0100 }));
    let stage = step(stage, AttachReply::ExtendedStyleWritten);
    assert!(matches!(stage, AttachStage::SetAlpha));
    let stage = step(stage, AttachReply::AlphaSet { outcome: Ok(()) });
    assert!(matches!(stage, AttachStage::SetParent { window: 8 }));
    let stage = step(stage, AttachReply::ParentSet { error: 0 });
    let first = Placement { insert_after: 7, x: 0, y: 0, width: 1920, height: 1080, flags: 0x30 };
    match &stage {
        AttachStage::Place { placement } => assert_eq!(*placement, first),
        other => panic!("{other:?}"),
    }
    let stage = step(stage, AttachReply::Placed { outcome: Ok(()) });
    assert!(matches!(stage, AttachStage::ReadEdges));
    let edges = WindowEdges {
        window: Edges { left: 0, top: 0, right: 1920, bottom: 1080 },
        client: Edges { left: 3, top: 4, right: 1917, bottom: 1076 },
    };
    assert!(can_place(SCREEN, edges));
    let stage = step(stage, AttachReply::EdgesRead { edges: Ok(edges) });
    let last = Placement {
        insert_after: 7,
        x: -3,
        y: -4,
        width: 1926,
        height: 1088,
        flags: 0x50,
    };
    match &stage {
        AttachStage::Show { placement } => assert_eq!(*placement, last),
        other => panic!("{other:?}"),
    }
    let stage = step(stage, AttachReply::Placed { outcome: Ok(()) });
    assert!(matches!(stage, AttachStage::Attached));
    let stage = step(stage, AttachReply::ParentSet { error: 5 });
    assert!(matches!(stage, AttachStage::Attached));
}

#[test]
fn plain_window_is_not_layered() {
    let parent = DesktopParent { insert_after: BOTTOM, layered: false, window: 9 };
    let stage = attach_wallpaper_window(
        parent,
        SCREEN,
        AttachStage::WriteStyle { style: 0 },
        AttachReply::StyleWritten { error: 0 },
    );
    assert!(matches!(stage, AttachStage::SetParent { window: 9 }));
}

#[test]
fn attaching_fails_with_the_code() {
    assert_eq!(
        failure(step(AttachStage::ReadStyle, AttachReply::StyleRead { style: 0, error: 1400 })),
        "Reading wallpaper window style failed | code=1400"
    );
    assert!(matches!(
        step(AttachStage::ReadStyle, AttachReply::StyleRead { style: 2, error: 1400 }),
        AttachStage::WriteStyle { style: 0x4000_0002 }
    ));
    assert_eq!(
        failure(step(
            AttachStage::WriteStyle { style: 0 },
            AttachReply::StyleWritten { error: 5 }
        )),
        "Updating wallpaper window style failed | code=5"
    );
    assert_eq!(
        failure(step(
            AttachStage::SetParent { window: 8 },
            AttachReply::ParentSet { error: 87 }
        )),
        "Attaching wallpaper window failed | code=87"
    );
    let error = || Err(Error::new("system"));
    assert_eq!(
        failure(step(AttachStage::SetAlpha, AttachReply::AlphaSet { outcome: error() })),
        "system"
    );
    let placement =
        Placement { insert_after: 0, x: 0, y: 0, width: 0, height: 0, flags: 0 };
    assert_eq!(
        failure(step(
            AttachStage::Place { placement },
            AttachReply::Placed { outcome: error() }
        )),
        "system"
    );
    assert_eq!(
        failure(step(
            AttachStage::ReadEdges,
            AttachReply::EdgesRead { edges: Err(Error::new("system")) }
        )),
        "system"
    );
    assert_eq!(
        failure(step(
            AttachStage::Show { placement },
            AttachReply::Placed { outcome: error() }
        )),
        "system"
    );
}

#[test]
fn edges_beyond_the_coordinates_cannot_be_placed() {
    let zero = Edges { left: 0, top: 0, right: 0, bottom: 0 };
    let wide = Edges { left: i32::MIN, top: 0, right: i32::MAX, bottom: 0 };
    assert!(can_place(SCREEN, WindowEdges { window: zero, client: zero }));
    assert!(!can_place(SCREEN, WindowEdges { window: wide, client: zero }));
    assert!(!can_place(SCREEN, WindowEdges { window: zero, client: wide }));
    let large = Edges { left: 0, top: 0, right: i32::MAX, bottom: 0 };
    assert!(!can_place(SCREEN, WindowEdges { window: large, client: zero }));
}

#[test]
fn raised_desktop_uses_the_program_manager() {
    let stage = await_desktop_parent(
        DesktopStage::FindProgramManager,
        DesktopReply::ProgramManager { outcome: Ok(11) },
    );
    assert!(matches!(stage, DesktopStage::CreateWorkerWindow { program_manager: 11 }));
    let stage = await_desktop_parent(stage, DesktopReply::WorkerWindowCreated);
    assert!(matches!(stage, DesktopStage::ReadExtendedStyle { program_manager: 11 }));
    let stage =
        await_desktop_parent(stage, DesktopReply::ExtendedStyleRead { style: 0x20_0001 });
    assert!(matches!(stage, DesktopStage::FindShellView { program_manager: 11 }));
    let stage = await_desktop_parent(stage, DesktopReply::ShellView { outcome: Ok(12) });
    match stage {
        DesktopStage::Found { parent } => assert_eq!(
            parent,
            DesktopParent { insert_after: 12, layered: true, window: 11 }
        ),
        other => panic!("{other:?}"),
    }
}

#[test]
fn flat_desktop_uses_the_worker_window() {
    let stage = await_desktop_parent(
        DesktopStage::ReadExtendedStyle { program_manager: 11 },
        DesktopReply::ExtendedStyleRead { style: 0x1F_FFFF },
    );
    assert!(matches!(stage, DesktopStage::FindWorkerWindow));
    let found = await_desktop_parent(stage, DesktopReply::WorkerWindow { window: Some(13) });
    match found {
        DesktopStage::Found { parent } => assert_eq!(
            parent,
            DesktopParent { insert_after: 1, layered: false, window: 13 }
        ),
        other => panic!("{other:?}"),
    }
}

#[test]
fn desktop_search_fails_with_its_cause() {
    let message = |stage| match stage {
        DesktopStage::Failed { error } => error.message,
        other => panic!("{other:?}"),
    };
    let error = || Err(Error::new("no window"));
    assert_eq!(
        message(await_desktop_parent(
            DesktopStage::FindProgramManager,
            DesktopReply::ProgramManager { outcome: error() }
        )),
        "no window"
    );
    assert_eq!(
        message(await_desktop_parent(
            DesktopStage::FindShellView { program_manager: 1 },
            DesktopReply::ShellView { outcome: error() }
        )),
        "no window"
    );
    assert_eq!(
        message(await_desktop_parent(
            DesktopStage::FindWorkerWindow,
            DesktopReply::WorkerWindow { window: None }
        )),
        "Finding the desktop wallpaper layer failed"
    );
    assert!(matches!(
        await_desktop_parent(
            DesktopStage::FindWorkerWindow,
            DesktopReply::WorkerWindowCreated
        ),
        DesktopStage::FindWorkerWindow
    ));
}

#[test]
fn worker_window_is_the_one_behind_the_icons() {
    let window = |has_shell_view, next_worker| TopLevelWindow { has_shell_view, next_worker };
    assert_eq!(find_worker_window(&Vec::new()), None);
    assert_eq!(
        find_worker_window(&vec![
            window(false, Some(1)),
            window(true, None),
            window(true, Some(2)),
            window(true, Some(3)),
        ]),
        Some(2)
    );
    assert_eq!(find_worker_window(&vec![window(false, Some(1))]), None);
    assert_eq!(find_worker_window(&vec![window(true, Some(0)), window(true, Some(3))]), None);
    let mut search = WorkerSearch::new();
    assert!(search.visit(window(true, None)));
    assert!(!search.visit(window(true, Some(4))));
    assert_eq!(search.finish(), Some(4));
}
