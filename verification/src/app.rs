//! The app: what it does from its start to its end, and what it holds in between.
//!
//! All that reaches outside is a task: the app says what is to be done, and what came of it
//! decides what it does next. What came of something else leaves it as it is.
use crate::error::Error;
use crate::paths::{FilePath, FilePathView};
use crate::picker::{create_picker_html, create_tiles, Platform};
use crate::scaling::ScalingMode;
use crate::settings::{default_settings, Settings, SettingsView};
use crate::videos::{read_videos, FolderListing, Video, VideoView};
use crate::{picker, settings, videos};
use vstd::prelude::*;

verus! {

/// All that the picker shows of a folder.
#[derive(Debug)]
pub struct FolderPage {
    pub videos: Vec<Video>,
    pub tiles: String,
    pub html: String,
}

/// The model of a `FolderPage`.
#[verifier::ext_equal]
pub struct FolderPageView {
    pub videos: Seq<VideoView>,
    pub tiles: Seq<char>,
    pub html: Seq<char>,
}

impl View for FolderPage {
    type V = FolderPageView;

    open spec fn view(&self) -> FolderPageView {
        FolderPageView {
            videos: videos::video_views(self.videos@),
            tiles: self.tiles@,
            html: self.html@,
        }
    }
}

/// Prepares what the picker shows of a folder. A failure to list it, and then a video without a
/// thumbnail, is the outcome of the whole.
pub fn prepare_folder_page(
    platform: Platform,
    template: &str,
    video_folder: &str,
    scaling_mode: ScalingMode,
    listing: FolderListing,
) -> (result: Result<FolderPage, Error>)
    ensures
        match videos::listed_videos(listing) {
            Err(message) => result matches Err(error) && error@ == message,
            Ok(listed) => match result {
                Ok(page) => {
                    &&& page@.videos == listed
                    &&& picker::are_tiles(platform, listed, page@.tiles)
                    &&& page@.html == picker::picker_html(
                        template@,
                        video_folder@,
                        scaling_mode,
                        page@.tiles,
                    )
                },
                Err(error) => picker::is_tiles_failure(platform, listed, error@),
            },
        },
{
    let videos = match read_videos(listing) {
        Ok(videos) => videos,
        Err(error) => {
            return Err(error);
        },
    };
    let tiles = match create_tiles(platform, &videos) {
        Ok(tiles) => tiles,
        Err(error) => {
            return Err(error);
        },
    };
    let html = create_picker_html(template, video_folder, scaling_mode, &tiles);
    Ok(FolderPage { videos, tiles, html })
}

/// On macOS a folder that can be listed can be shown.
pub proof fn law_macos_shows_every_folder(listed: Seq<VideoView>, message: Seq<char>)
    ensures
        !picker::is_tiles_failure(Platform::MacOs, listed, message),
{
}

/// What the user does in the picker.
#[derive(Clone, Copy, Debug, PartialEq, Eq, Structural)]
pub enum UserEvent {
    PickVideoFolder,
    SelectVideo { index: usize },
    UpdateScalingMode { scaling_mode: ScalingMode },
}

/// What is to be done outside the app.
#[derive(Debug)]
pub enum Task {
    /// Nothing, until something happens.
    Wait,
    /// Nothing but to report this failure.
    Report { message: String },
    /// Nothing any more.
    Exit,
    /// Let the user pick a folder, starting in this one.
    PickFolder { directory: String },
    /// Prepare the page of this folder.
    ReadFolder { video_folder: String, scaling_mode: ScalingMode },
    /// Store the settings with another folder, whose page this is.
    WriteFolder { settings: Settings, page: FolderPage },
    /// Show this page in the picker.
    ShowFolder { html: String, video_folder: String, tiles: String },
    /// Store the settings with another scaling mode.
    WriteScalingMode { settings: Settings },
    /// Turn the wallpaper to this scaling mode.
    ApplyScalingMode { scaling_mode: ScalingMode },
    /// Create the wallpaper with the video at `index`.
    CreateWallpaper { index: usize, path: FilePath, scaling_mode: ScalingMode },
    /// Turn the wallpaper to the video at `index`.
    SetVideo { index: usize, path: FilePath, scaling_mode: ScalingMode },
}

/// The model of a `Task`.
#[verifier::ext_equal]
pub enum TaskView {
    Wait,
    Report { message: Seq<char> },
    Exit,
    PickFolder { directory: Seq<char> },
    ReadFolder { video_folder: Seq<char>, scaling_mode: ScalingMode },
    WriteFolder { settings: SettingsView, page: FolderPageView },
    ShowFolder { html: Seq<char>, video_folder: Seq<char>, tiles: Seq<char> },
    WriteScalingMode { settings: SettingsView },
    ApplyScalingMode { scaling_mode: ScalingMode },
    CreateWallpaper { index: usize, path: FilePathView, scaling_mode: ScalingMode },
    SetVideo { index: usize, path: FilePathView, scaling_mode: ScalingMode },
}

impl View for Task {
    type V = TaskView;

    open spec fn view(&self) -> TaskView {
        match self {
            Task::Wait => TaskView::Wait,
            Task::Report { message } => TaskView::Report { message: message@ },
            Task::Exit => TaskView::Exit,
            Task::PickFolder { directory } => TaskView::PickFolder { directory: directory@ },
            Task::ReadFolder { video_folder, scaling_mode } => TaskView::ReadFolder {
                video_folder: video_folder@,
                scaling_mode: *scaling_mode,
            },
            Task::WriteFolder { settings, page } => TaskView::WriteFolder {
                settings: settings@,
                page: page@,
            },
            Task::ShowFolder { html, video_folder, tiles } => TaskView::ShowFolder {
                html: html@,
                video_folder: video_folder@,
                tiles: tiles@,
            },
            Task::WriteScalingMode { settings } => TaskView::WriteScalingMode {
                settings: settings@,
            },
            Task::ApplyScalingMode { scaling_mode } => TaskView::ApplyScalingMode {
                scaling_mode: *scaling_mode,
            },
            Task::CreateWallpaper { index, path, scaling_mode } => TaskView::CreateWallpaper {
                index: *index,
                path: path@,
                scaling_mode: *scaling_mode,
            },
            Task::SetVideo { index, path, scaling_mode } => TaskView::SetVideo {
                index: *index,
                path: path@,
                scaling_mode: *scaling_mode,
            },
        }
    }
}

/// What happened outside the app.
#[derive(Debug)]
pub enum AppEvent {
    /// The picker was closed.
    PickerClosed,
    /// The user did something in the picker.
    User { event: UserEvent },
    /// The user picked a folder, or none.
    FolderPicked { video_folder: Option<String> },
    /// The page of a folder was prepared, or not.
    FolderRead { page: Result<FolderPage, Error> },
    /// The task was done, or not.
    Done { outcome: Result<(), Error> },
}

/// The app between two events.
#[derive(Debug)]
pub struct App {
    pub settings: Settings,
    pub settings_path: String,
    pub selected_video: Option<usize>,
    pub videos: Vec<Video>,
    pub has_wallpaper: bool,
    pub task: Task,
}

/// The model of an `App`.
#[verifier::ext_equal]
pub struct AppView {
    pub settings: SettingsView,
    pub settings_path: Seq<char>,
    pub selected_video: Option<usize>,
    pub videos: Seq<VideoView>,
    pub has_wallpaper: bool,
    pub task: TaskView,
}

impl View for App {
    type V = AppView;

    open spec fn view(&self) -> AppView {
        AppView {
            settings: self.settings@,
            settings_path: self.settings_path@,
            selected_video: self.selected_video,
            videos: videos::video_views(self.videos@),
            has_wallpaper: self.has_wallpaper,
            task: self.task@,
        }
    }
}

/// The report of a failure.
pub open spec fn report(what: Seq<char>, message: Seq<char>) -> TaskView {
    TaskView::Report { message: what + " failed | "@ + message }
}

/// Reports a failure.
fn failure_report(what: &str, error: Error) -> (result: Task)
    ensures
        result@ == report(what@, error@),
{
    let mut message = what.to_owned();
    message.append(" failed | ");
    message.append(&error.message);
    Task::Report { message }
}

/// What the app does when another scaling mode is chosen: nothing if it is the current one, and
/// else it stores it first.
pub open spec fn after_scaling_mode_update(app: AppView, scaling_mode: ScalingMode) -> AppView {
    let task = if scaling_mode == app.settings.scaling_mode {
        TaskView::Wait
    } else {
        TaskView::WriteScalingMode { settings: SettingsView { scaling_mode, ..app.settings } }
    };
    AppView { task, ..app }
}

/// What the app does when another folder is chosen: it reads it first.
pub open spec fn after_video_folder_update(app: AppView, video_folder: Seq<char>) -> AppView {
    AppView {
        task: TaskView::ReadFolder { video_folder, scaling_mode: app.settings.scaling_mode },
        ..app
    }
}

/// What the app does when a video is chosen: nothing if it is the one shown or there is no such
/// video, and else it turns the wallpaper to it, or creates the wallpaper if there is none.
pub open spec fn after_wallpaper_update(app: AppView, index: usize) -> AppView {
    let task = if app.selected_video == Some(index) || index >= app.videos.len() {
        TaskView::Wait
    } else if app.has_wallpaper {
        TaskView::SetVideo {
            index,
            path: app.videos[index as int].path,
            scaling_mode: app.settings.scaling_mode,
        }
    } else {
        TaskView::CreateWallpaper {
            index,
            path: app.videos[index as int].path,
            scaling_mode: app.settings.scaling_mode,
        }
    };
    AppView { task, ..app }
}

/// What the app does when the user does something in the picker.
pub open spec fn after_user_event(app: AppView, event: UserEvent) -> AppView {
    match event {
        UserEvent::PickVideoFolder => AppView {
            task: TaskView::PickFolder { directory: app.settings.video_folder },
            ..app
        },
        UserEvent::SelectVideo { index } => after_wallpaper_update(app, index),
        UserEvent::UpdateScalingMode { scaling_mode } => after_scaling_mode_update(
            app,
            scaling_mode,
        ),
    }
}

/// What the app does once a task is done.
pub open spec fn after_success(app: AppView) -> AppView {
    match app.task {
        TaskView::WriteFolder { settings, page } => AppView {
            settings,
            selected_video: None,
            videos: page.videos,
            task: TaskView::ShowFolder {
                html: page.html,
                video_folder: settings.video_folder,
                tiles: page.tiles,
            },
            ..app
        },
        TaskView::ShowFolder { .. } => AppView { task: TaskView::Wait, ..app },
        TaskView::WriteScalingMode { settings } => AppView {
            settings,
            task: if app.has_wallpaper {
                TaskView::ApplyScalingMode { scaling_mode: settings.scaling_mode }
            } else {
                TaskView::Wait
            },
            ..app
        },
        TaskView::ApplyScalingMode { .. } => AppView { task: TaskView::Wait, ..app },
        TaskView::CreateWallpaper { index, .. } => AppView {
            selected_video: Some(index),
            has_wallpaper: true,
            task: TaskView::Wait,
            ..app
        },
        TaskView::SetVideo { index, .. } => AppView {
            selected_video: Some(index),
            task: TaskView::Wait,
            ..app
        },
        _ => app,
    }
}

/// What the app does once a task has failed: it reports it and keeps all that it holds.
pub open spec fn after_failure(app: AppView, message: Seq<char>) -> AppView {
    match app.task {
        TaskView::WriteFolder { .. } | TaskView::ShowFolder { .. } => AppView {
            task: report("Updating video folder"@, message),
            ..app
        },
        TaskView::WriteScalingMode { .. } | TaskView::ApplyScalingMode { .. } => AppView {
            task: report("Updating scaling mode"@, message),
            ..app
        },
        TaskView::CreateWallpaper { .. } | TaskView::SetVideo { .. } => AppView {
            task: report("Updating wallpaper"@, message),
            ..app
        },
        _ => app,
    }
}

/// Whether the app has nothing to do until something happens.
pub open spec fn is_resting(task: TaskView) -> bool {
    task is Wait || task is Report
}

/// What the app does when something happens.
pub open spec fn after_event(app: AppView, event: AppEvent) -> AppView {
    match event {
        AppEvent::PickerClosed => if is_resting(app.task) {
            AppView { task: TaskView::Exit, ..app }
        } else {
            app
        },
        AppEvent::User { event } => if is_resting(app.task) {
            after_user_event(app, event)
        } else {
            app
        },
        AppEvent::FolderPicked { video_folder } => if app.task is PickFolder {
            match video_folder {
                Some(video_folder) => after_video_folder_update(app, video_folder@),
                None => AppView { task: TaskView::Wait, ..app },
            }
        } else {
            app
        },
        AppEvent::FolderRead { page } => match app.task {
            TaskView::ReadFolder { video_folder, scaling_mode } => match page {
                Ok(page) => AppView {
                    task: TaskView::WriteFolder {
                        settings: SettingsView { video_folder, scaling_mode },
                        page: page@,
                    },
                    ..app
                },
                Err(error) => AppView { task: report("Updating video folder"@, error@), ..app },
            },
            _ => app,
        },
        AppEvent::Done { outcome } => match outcome {
            Ok(()) => after_success(app),
            Err(error) => after_failure(app, error@),
        },
    }
}

impl App {
    /// Begins to turn to another scaling mode.
    pub fn update_scaling_mode(self, scaling_mode: ScalingMode) -> (result: App)
        ensures
            result@ == after_scaling_mode_update(self@, scaling_mode),
    {
        let task = if scaling_mode == self.settings.scaling_mode {
            Task::Wait
        } else {
            Task::WriteScalingMode {
                settings: Settings {
                    scaling_mode,
                    video_folder: self.settings.video_folder.clone(),
                },
            }
        };
        App { task, ..self }
    }

    /// Begins to turn to another folder.
    pub fn update_video_folder(self, video_folder: String) -> (result: App)
        ensures
            result@ == after_video_folder_update(self@, video_folder@),
    {
        let scaling_mode = self.settings.scaling_mode;
        App { task: Task::ReadFolder { video_folder, scaling_mode }, ..self }
    }

    /// Begins to turn to the video at `index`.
    pub fn update_wallpaper(self, index: usize) -> (result: App)
        ensures
            result@ == after_wallpaper_update(self@, index),
    {
        let selected = match self.selected_video {
            Some(current) => current == index,
            None => false,
        };
        let task = if selected || index >= self.videos.len() {
            Task::Wait
        } else {
            let path = self.videos[index].path.copy();
            let scaling_mode = self.settings.scaling_mode;
            if self.has_wallpaper {
                Task::SetVideo { index, path, scaling_mode }
            } else {
                Task::CreateWallpaper { index, path, scaling_mode }
            }
        };
        App { task, ..self }
    }

    /// Begins what the user has asked for.
    fn handle_user_event(self, event: UserEvent) -> (result: App)
        ensures
            result@ == after_user_event(self@, event),
    {
        match event {
            UserEvent::PickVideoFolder => {
                let directory = self.settings.video_folder.clone();
                App { task: Task::PickFolder { directory }, ..self }
            },
            UserEvent::SelectVideo { index } => self.update_wallpaper(index),
            UserEvent::UpdateScalingMode { scaling_mode } => self.update_scaling_mode(
                scaling_mode,
            ),
        }
    }

    /// Goes on after a task that was done.
    fn handle_success(self) -> (result: App)
        ensures
            result@ == after_success(self@),
    {
        match self.task {
            Task::WriteFolder { settings, page } => {
                let video_folder = settings.video_folder.clone();
                App {
                    settings,
                    settings_path: self.settings_path,
                    selected_video: None,
                    videos: page.videos,
                    has_wallpaper: self.has_wallpaper,
                    task: Task::ShowFolder { html: page.html, video_folder, tiles: page.tiles },
                }
            },
            Task::ShowFolder { .. } => App { task: Task::Wait, ..self },
            Task::WriteScalingMode { settings } => {
                let task = if self.has_wallpaper {
                    Task::ApplyScalingMode { scaling_mode: settings.scaling_mode }
                } else {
                    Task::Wait
                };
                App {
                    settings,
                    settings_path: self.settings_path,
                    selected_video: self.selected_video,
                    videos: self.videos,
                    has_wallpaper: self.has_wallpaper,
                    task,
                }
            },
            Task::ApplyScalingMode { .. } => App { task: Task::Wait, ..self },
            Task::CreateWallpaper { index, .. } => App {
                selected_video: Some(index),
                has_wallpaper: true,
                task: Task::Wait,
                ..self
            },
            Task::SetVideo { index, .. } => App {
                selected_video: Some(index),
                task: Task::Wait,
                ..self
            },
            _ => self,
        }
    }

    /// Goes on after a task that has failed.
    fn handle_failure(self, error: Error) -> (result: App)
        ensures
            result@ == after_failure(self@, error@),
    {
        match self.task {
            Task::WriteFolder { .. } | Task::ShowFolder { .. } => App {
                task: failure_report("Updating video folder", error),
                ..self
            },
            Task::WriteScalingMode { .. } | Task::ApplyScalingMode { .. } => App {
                task: failure_report("Updating scaling mode", error),
                ..self
            },
            Task::CreateWallpaper { .. } | Task::SetVideo { .. } => App {
                task: failure_report("Updating wallpaper", error),
                ..self
            },
            _ => self,
        }
    }

    /// Goes on after something happened.
    pub fn handle(self, event: AppEvent) -> (result: App)
        ensures
            result@ == after_event(self@, event),
    {
        let resting = match self.task {
            Task::Wait => true,
            Task::Report { .. } => true,
            _ => false,
        };
        match event {
            AppEvent::PickerClosed => {
                if resting {
                    App { task: Task::Exit, ..self }
                } else {
                    self
                }
            },
            AppEvent::User { event } => {
                if resting {
                    self.handle_user_event(event)
                } else {
                    self
                }
            },
            AppEvent::FolderPicked { video_folder } => {
                match self.task {
                    Task::PickFolder { .. } => match video_folder {
                        Some(video_folder) => self.update_video_folder(video_folder),
                        None => App { task: Task::Wait, ..self },
                    },
                    _ => self,
                }
            },
            AppEvent::FolderRead { page } => match self.task {
                Task::ReadFolder { video_folder, scaling_mode } => {
                    let task = match page {
                        Ok(page) => Task::WriteFolder {
                            settings: Settings { video_folder, scaling_mode },
                            page,
                        },
                        Err(error) => failure_report("Updating video folder", error),
                    };
                    App {
                        settings: self.settings,
                        settings_path: self.settings_path,
                        selected_video: self.selected_video,
                        videos: self.videos,
                        has_wallpaper: self.has_wallpaper,
                        task,
                    }
                },
                _ => self,
            },
            AppEvent::Done { outcome } => match outcome {
                Ok(()) => self.handle_success(),
                Err(error) => self.handle_failure(error),
            },
        }
    }
}

/// What is to be done outside before the app runs.
#[derive(Debug)]
pub enum Startup {
    /// Read the settings file.
    ReadSettings { settings_path: String },
    /// Find the folder that videos are taken from at first.
    ReadDefaultFolder { settings_path: String },
    /// Prepare the page of the folder of these settings.
    ReadFolder { settings_path: String, settings: Settings, should_write: bool },
    /// Open the picker on this page.
    CreatePicker { settings_path: String, settings: Settings, should_write: bool, page: FolderPage },
    /// Store these settings.
    WriteSettings { settings_path: String, settings: Settings, page: FolderPage },
    /// Nothing: the app runs.
    Running { app: App },
    /// Nothing: the app cannot run.
    Failed { error: Error },
}

/// The model of a `Startup`.
#[verifier::ext_equal]
pub enum StartupView {
    ReadSettings { settings_path: Seq<char> },
    ReadDefaultFolder { settings_path: Seq<char> },
    ReadFolder { settings_path: Seq<char>, settings: SettingsView, should_write: bool },
    CreatePicker {
        settings_path: Seq<char>,
        settings: SettingsView,
        should_write: bool,
        page: FolderPageView,
    },
    WriteSettings { settings_path: Seq<char>, settings: SettingsView, page: FolderPageView },
    Running { app: AppView },
    Failed { message: Seq<char> },
}

impl View for Startup {
    type V = StartupView;

    open spec fn view(&self) -> StartupView {
        match self {
            Startup::ReadSettings { settings_path } => StartupView::ReadSettings {
                settings_path: settings_path@,
            },
            Startup::ReadDefaultFolder { settings_path } => StartupView::ReadDefaultFolder {
                settings_path: settings_path@,
            },
            Startup::ReadFolder { settings_path, settings, should_write } => {
                StartupView::ReadFolder {
                    settings_path: settings_path@,
                    settings: settings@,
                    should_write: *should_write,
                }
            },
            Startup::CreatePicker { settings_path, settings, should_write, page } => {
                StartupView::CreatePicker {
                    settings_path: settings_path@,
                    settings: settings@,
                    should_write: *should_write,
                    page: page@,
                }
            },
            Startup::WriteSettings { settings_path, settings, page } => {
                StartupView::WriteSettings {
                    settings_path: settings_path@,
                    settings: settings@,
                    page: page@,
                }
            },
            Startup::Running { app } => StartupView::Running { app: app@ },
            Startup::Failed { error } => StartupView::Failed { message: error@ },
        }
    }
}

/// What came of a task at the start.
#[derive(Debug)]
pub enum StartupReply {
    /// The settings file was read, and holds settings or is not there.
    SettingsRead { stored: Result<Option<Settings>, Error> },
    /// The first folder was found, or not.
    DefaultFolderRead { video_folder: Result<String, Error> },
    /// The page of the folder was prepared, or not.
    FolderRead { page: Result<FolderPage, Error> },
    /// The task was done, or not.
    Done { outcome: Result<(), Error> },
}

/// The app as it starts: with no video chosen and no wallpaper.
pub open spec fn first_app(
    settings_path: Seq<char>,
    settings: SettingsView,
    page: FolderPageView,
) -> AppView {
    AppView {
        settings,
        settings_path,
        selected_video: None,
        videos: page.videos,
        has_wallpaper: false,
        task: TaskView::Wait,
    }
}

/// The start once the place of the settings is known, or not.
pub open spec fn first_startup(settings_path: Result<Seq<char>, Seq<char>>) -> StartupView {
    match settings_path {
        Ok(settings_path) => StartupView::ReadSettings { settings_path },
        Err(message) => StartupView::Failed { message },
    }
}

/// How the start goes on. Settings that were stored are taken and not stored again; without any,
/// those of a first run are, and are stored once the picker is open.
pub open spec fn after_reply(startup: StartupView, reply: StartupReply) -> StartupView {
    match (startup, reply) {
        (StartupView::ReadSettings { settings_path }, StartupReply::SettingsRead { stored }) => {
            match stored {
                Ok(Some(settings)) => StartupView::ReadFolder {
                    settings_path,
                    settings: settings@,
                    should_write: false,
                },
                Ok(None) => StartupView::ReadDefaultFolder { settings_path },
                Err(error) => StartupView::Failed { message: error@ },
            }
        },
        (
            StartupView::ReadDefaultFolder { settings_path },
            StartupReply::DefaultFolderRead { video_folder },
        ) => match video_folder {
            Ok(video_folder) => StartupView::ReadFolder {
                settings_path,
                settings: settings::first_settings(video_folder@),
                should_write: true,
            },
            Err(error) => StartupView::Failed { message: error@ },
        },
        (
            StartupView::ReadFolder { settings_path, settings, should_write },
            StartupReply::FolderRead { page },
        ) => match page {
            Ok(page) => StartupView::CreatePicker {
                settings_path,
                settings,
                should_write,
                page: page@,
            },
            Err(error) => StartupView::Failed { message: error@ },
        },
        (
            StartupView::CreatePicker { settings_path, settings, should_write, page },
            StartupReply::Done { outcome },
        ) => match outcome {
            Ok(()) => if should_write {
                StartupView::WriteSettings { settings_path, settings, page }
            } else {
                StartupView::Running { app: first_app(settings_path, settings, page) }
            },
            Err(error) => StartupView::Failed { message: error@ },
        },
        (
            StartupView::WriteSettings { settings_path, settings, page },
            StartupReply::Done { outcome },
        ) => match outcome {
            Ok(()) => StartupView::Running { app: first_app(settings_path, settings, page) },
            Err(error) => StartupView::Failed { message: error@ },
        },
        _ => startup,
    }
}

/// The app as it starts.
fn create_app(settings_path: String, settings: Settings, page: FolderPage) -> (result: App)
    ensures
        result@ == first_app(settings_path@, settings@, page@),
{
    App {
        settings,
        settings_path,
        selected_video: None,
        videos: page.videos,
        has_wallpaper: false,
        task: Task::Wait,
    }
}

impl Startup {
    /// Begins with the place of the settings.
    pub fn begin(settings_path: Result<String, Error>) -> (result: Startup)
        ensures
            result@ == first_startup(
                match settings_path {
                    Ok(path) => Ok(path@),
                    Err(error) => Err(error@),
                },
            ),
    {
        match settings_path {
            Ok(settings_path) => Startup::ReadSettings { settings_path },
            Err(error) => Startup::Failed { error },
        }
    }

    /// Goes on after a task.
    pub fn advance(self, reply: StartupReply) -> (result: Startup)
        ensures
            result@ == after_reply(self@, reply),
    {
        match (self, reply) {
            (Startup::ReadSettings { settings_path }, StartupReply::SettingsRead { stored }) => {
                match stored {
                    Ok(Some(settings)) => Startup::ReadFolder {
                        settings_path,
                        settings,
                        should_write: false,
                    },
                    Ok(None) => Startup::ReadDefaultFolder { settings_path },
                    Err(error) => Startup::Failed { error },
                }
            },
            (
                Startup::ReadDefaultFolder { settings_path },
                StartupReply::DefaultFolderRead { video_folder },
            ) => match video_folder {
                Ok(video_folder) => Startup::ReadFolder {
                    settings_path,
                    settings: default_settings(video_folder),
                    should_write: true,
                },
                Err(error) => Startup::Failed { error },
            },
            (
                Startup::ReadFolder { settings_path, settings, should_write },
                StartupReply::FolderRead { page },
            ) => match page {
                Ok(page) => Startup::CreatePicker { settings_path, settings, should_write, page },
                Err(error) => Startup::Failed { error },
            },
            (
                Startup::CreatePicker { settings_path, settings, should_write, page },
                StartupReply::Done { outcome },
            ) => match outcome {
                Ok(()) => {
                    if should_write {
                        Startup::WriteSettings { settings_path, settings, page }
                    } else {
                        Startup::Running { app: create_app(settings_path, settings, page) }
                    }
                },
                Err(error) => Startup::Failed { error },
            },
            (
                Startup::WriteSettings { settings_path, settings, page },
                StartupReply::Done { outcome },
            ) => match outcome {
                Ok(()) => Startup::Running { app: create_app(settings_path, settings, page) },
                Err(error) => Startup::Failed { error },
            },
            (startup, _) => startup,
        }
    }
}

/// What holds of the app at all times: a chosen video is one of the folder's and is shown on a
/// wallpaper, a wallpaper is created once, and what a task is about is what the app holds.
pub open spec fn is_valid(app: AppView) -> bool {
    &&& app.selected_video matches Some(index) ==> index < app.videos.len() && app.has_wallpaper
    &&& match app.task {
        TaskView::WriteScalingMode { settings } => {
            &&& settings.video_folder == app.settings.video_folder
            &&& settings.scaling_mode != app.settings.scaling_mode
        },
        TaskView::ApplyScalingMode { scaling_mode } => {
            &&& app.has_wallpaper
            &&& scaling_mode == app.settings.scaling_mode
        },
        TaskView::ReadFolder { scaling_mode, .. } => scaling_mode == app.settings.scaling_mode,
        TaskView::WriteFolder { settings, .. } => settings.scaling_mode
            == app.settings.scaling_mode,
        TaskView::ShowFolder { video_folder, .. } => {
            &&& video_folder == app.settings.video_folder
            &&& app.selected_video is None
        },
        TaskView::CreateWallpaper { index, path, scaling_mode } => {
            &&& !app.has_wallpaper
            &&& index < app.videos.len()
            &&& path == app.videos[index as int].path
            &&& scaling_mode == app.settings.scaling_mode
        },
        TaskView::SetVideo { index, path, scaling_mode } => {
            &&& app.has_wallpaper
            &&& index < app.videos.len()
            &&& app.selected_video != Some(index)
            &&& path == app.videos[index as int].path
            &&& scaling_mode == app.settings.scaling_mode
        },
        _ => true,
    }
}

/// The app is valid when it starts.
pub proof fn law_start_is_valid(startup: StartupView, reply: StartupReply)
    requires
        !(startup is Running),
    ensures
        after_reply(startup, reply) matches StartupView::Running { app } ==> is_valid(app),
{
}

/// Whatever happens, the app stays valid.
pub proof fn law_events_keep_app_valid(app: AppView, event: AppEvent)
    requires
        is_valid(app),
    ensures
        is_valid(after_event(app, event)),
{
}

/// The settings that the app holds change only once others were stored, and then to those.
pub proof fn law_settings_follow_the_file(app: AppView, event: AppEvent)
    requires
        after_event(app, event).settings != app.settings,
    ensures
        event matches AppEvent::Done { outcome: Ok(()) },
        match app.task {
            TaskView::WriteFolder { settings, .. } => after_event(app, event).settings == settings,
            TaskView::WriteScalingMode { settings } => after_event(app, event).settings
                == settings,
            _ => false,
        },
{
}

/// Whether a task is over once it was done or has failed, with nothing else to tell of it.
pub open spec fn is_plain(task: TaskView) -> bool {
    ||| task is WriteFolder
    ||| task is ShowFolder
    ||| task is WriteScalingMode
    ||| task is ApplyScalingMode
    ||| task is CreateWallpaper
    ||| task is SetVideo
}

/// A task that fails changes nothing that the app holds, and is reported.
pub proof fn law_failures_change_nothing(app: AppView, error: Error)
    requires
        is_plain(app.task),
    ensures
        ({
            let after = after_event(app, AppEvent::Done { outcome: Err(error) });
            &&& after == (AppView { task: after.task, ..app })
            &&& after.task is Report
        }),
{
}

/// A folder that cannot be shown changes nothing that the app holds, and is reported.
pub proof fn law_unreadable_folder_changes_nothing(app: AppView, error: Error)
    requires
        app.task is ReadFolder,
    ensures
        after_event(app, AppEvent::FolderRead { page: Err(error) }) == (AppView {
            task: report("Updating video folder"@, error@),
            ..app
        }),
{
}

/// Choosing the video that is shown asks nothing of the outside.
pub proof fn law_shown_video_is_not_set_again(app: AppView, index: usize)
    requires
        app.selected_video == Some(index),
    ensures
        after_wallpaper_update(app, index) == (AppView { task: TaskView::Wait, ..app }),
{
}

/// Choosing a video that is there, and is not shown, and all going well, shows it.
pub proof fn law_chosen_video_is_shown(app: AppView, index: usize)
    requires
        is_valid(app),
        is_resting(app.task),
        index < app.videos.len(),
        app.selected_video != Some(index),
    ensures
        ({
            let begun = after_event(
                app,
                AppEvent::User { event: UserEvent::SelectVideo { index } },
            );
            let done = after_event(begun, AppEvent::Done { outcome: Ok(()) });
            let path = app.videos[index as int].path;
            let scaling_mode = app.settings.scaling_mode;
            &&& begun.task == (if app.has_wallpaper {
                TaskView::SetVideo { index, path, scaling_mode }
            } else {
                TaskView::CreateWallpaper { index, path, scaling_mode }
            })
            &&& done == (AppView {
                selected_video: Some(index),
                has_wallpaper: true,
                task: TaskView::Wait,
                ..app
            })
        }),
{
}

/// Turning to another folder, and all going well, shows that folder with no video chosen. The
/// wallpaper stays.
pub proof fn law_picked_folder_is_shown(app: AppView, video_folder: String, page: FolderPage)
    requires
        is_resting(app.task),
    ensures
        ({
            let picking = after_event(
                app,
                AppEvent::User { event: UserEvent::PickVideoFolder },
            );
            let reading = after_event(
                picking,
                AppEvent::FolderPicked { video_folder: Some(video_folder) },
            );
            let writing = after_event(reading, AppEvent::FolderRead { page: Ok(page) });
            let showing = after_event(writing, AppEvent::Done { outcome: Ok(()) });
            let done = after_event(showing, AppEvent::Done { outcome: Ok(()) });
            &&& showing.task == (TaskView::ShowFolder {
                html: page@.html,
                video_folder: video_folder@,
                tiles: page@.tiles,
            })
            &&& done == (AppView {
                settings: SettingsView { video_folder: video_folder@, ..app.settings },
                selected_video: None,
                videos: page@.videos,
                task: TaskView::Wait,
                ..app
            })
        }),
{
}

/// Turning to another scaling mode, and all going well, ends in that mode, with nothing else
/// changed. The wallpaper is turned to it if there is one.
pub proof fn law_chosen_mode_is_set(app: AppView, scaling_mode: ScalingMode)
    requires
        is_resting(app.task),
        scaling_mode != app.settings.scaling_mode,
    ensures
        ({
            let writing = after_event(
                app,
                AppEvent::User { event: UserEvent::UpdateScalingMode { scaling_mode } },
            );
            let written = after_event(writing, AppEvent::Done { outcome: Ok(()) });
            let done = after_event(written, AppEvent::Done { outcome: Ok(()) });
            &&& app.has_wallpaper ==> written.task == (TaskView::ApplyScalingMode { scaling_mode })
            &&& done == (AppView {
                settings: SettingsView { scaling_mode, ..app.settings },
                task: TaskView::Wait,
                ..app
            })
        }),
{
}

/// The app ends only when the picker is closed, and then it does.
pub proof fn law_app_ends_with_picker(app: AppView, event: AppEvent)
    ensures
        after_event(app, event).task is Exit ==> app.task is Exit || event is PickerClosed,
        is_resting(app.task) && event is PickerClosed ==> after_event(app, event).task is Exit,
{
}

/// The start after some replies.
pub open spec fn startup_after(settings_path: Seq<char>, replies: Seq<StartupReply>) -> StartupView
    decreases replies.len(),
{
    if replies.len() == 0 {
        StartupView::ReadSettings { settings_path }
    } else {
        after_reply(startup_after(settings_path, replies.drop_last()), replies.last())
    }
}

/// Whether it was found that no settings are stored.
pub open spec fn found_no_settings(replies: Seq<StartupReply>) -> bool {
    exists|i: int|
        0 <= i < replies.len() && ((#[trigger] replies[i]) matches StartupReply::SettingsRead {
            stored: Ok(None),
        })
}

/// Whether settings that are about to be stored are those of a first run.
pub open spec fn stores_first_settings(replies: Seq<StartupReply>, startup: StartupView) -> bool {
    match startup {
        StartupView::ReadDefaultFolder { .. } => found_no_settings(replies),
        StartupView::ReadFolder { settings, should_write, .. } => should_write ==> settings
            == settings::first_settings(settings.video_folder) && found_no_settings(replies),
        StartupView::CreatePicker { settings, should_write, .. } => should_write ==> settings
            == settings::first_settings(settings.video_folder) && found_no_settings(replies),
        StartupView::WriteSettings { settings, .. } => settings == settings::first_settings(
            settings.video_folder,
        ) && found_no_settings(replies),
        _ => true,
    }
}

/// At the start settings are stored only where none were, and those of a first run are.
pub proof fn law_only_first_settings_are_stored(
    settings_path: Seq<char>,
    replies: Seq<StartupReply>,
)
    ensures
        stores_first_settings(replies, startup_after(settings_path, replies)),
    decreases replies.len(),
{
    if replies.len() > 0 {
        let earlier = replies.drop_last();
        law_only_first_settings_are_stored(settings_path, earlier);
        if found_no_settings(earlier) {
            let i = choose|i: int|
                0 <= i < earlier.len() && ((
                #[trigger] earlier[i]) matches StartupReply::SettingsRead { stored: Ok(None) });
            assert(replies[i] == earlier[i]);
        }
        assert(replies[replies.len() - 1] == replies.last());
    }
}

/// Whether an event is one that the app waits for: what the user does while it rests, and what came
/// of its task.
pub open spec fn is_awaited(task: TaskView, event: AppEvent) -> bool {
    match event {
        AppEvent::PickerClosed => task is Wait || task is Report,
        AppEvent::User { .. } => task is Wait || task is Report,
        AppEvent::FolderPicked { .. } => task is PickFolder,
        AppEvent::FolderRead { .. } => task is ReadFolder,
        AppEvent::Done { .. } => task is WriteFolder || task is ShowFolder
            || task is WriteScalingMode || task is ApplyScalingMode || task is CreateWallpaper
            || task is SetVideo,
    }
}

/// An event that the app does not wait for changes nothing.
pub proof fn law_other_events_are_passed_over(app: AppView, event: AppEvent)
    requires
        !is_awaited(app.task, event),
    ensures
        after_event(app, event) == app,
{
}

/// What the user asks for is begun at once, and changes nothing yet: a folder is picked from the
/// current one on, a video that is there and not shown is set or made a wallpaper of, and a mode
/// that is not the current one is stored, with the folder as it is.
pub proof fn law_user_events_begin_tasks(app: AppView, event: UserEvent)
    requires
        is_resting(app.task),
    ensures
        ({
            let begun = after_event(app, AppEvent::User { event });
            &&& begun == (AppView { task: begun.task, ..app })
            &&& match event {
                UserEvent::PickVideoFolder => begun.task == (TaskView::PickFolder {
                    directory: app.settings.video_folder,
                }),
                UserEvent::SelectVideo { index } => if index < app.videos.len()
                    && app.selected_video != Some(index) {
                    let path = app.videos[index as int].path;
                    let scaling_mode = app.settings.scaling_mode;
                    if app.has_wallpaper {
                        begun.task == (TaskView::SetVideo { index, path, scaling_mode })
                    } else {
                        begun.task == (TaskView::CreateWallpaper { index, path, scaling_mode })
                    }
                } else {
                    begun.task is Wait
                },
                UserEvent::UpdateScalingMode { scaling_mode } => if scaling_mode
                    == app.settings.scaling_mode {
                    begun.task is Wait
                } else {
                    begun.task == (TaskView::WriteScalingMode {
                        settings: SettingsView {
                            video_folder: app.settings.video_folder,
                            scaling_mode,
                        },
                    })
                },
            }
        }),
{
}

/// A folder that is picked is read, in the current mode, and what was read is stored with that
/// folder and that mode. Where none is picked, the app rests. None of this changes what it holds.
pub proof fn law_picked_folder_is_read_and_stored(
    app: AppView,
    video_folder: String,
    folder: Seq<char>,
    scaling_mode: ScalingMode,
    page: FolderPage,
)
    ensures
        app.task is PickFolder ==> {
            &&& after_event(app, AppEvent::FolderPicked { video_folder: Some(video_folder) }) == (
            AppView {
                task: TaskView::ReadFolder {
                    video_folder: video_folder@,
                    scaling_mode: app.settings.scaling_mode,
                },
                ..app
            })
            &&& after_event(app, AppEvent::FolderPicked { video_folder: None }) == (AppView {
                task: TaskView::Wait,
                ..app
            })
        },
        app.task == (TaskView::ReadFolder { video_folder: folder, scaling_mode }) ==> after_event(
            app,
            AppEvent::FolderRead { page: Ok(page) },
        ) == (AppView {
            task: TaskView::WriteFolder {
                settings: SettingsView { video_folder: folder, scaling_mode },
                page: page@,
            },
            ..app
        }),
{
}

/// What the app holds once a task is done, for every task: only settings that were stored are taken
/// over, a new folder comes with its own videos and none chosen, and a video that was set is the
/// one shown.
pub proof fn law_done_tasks(app: AppView)
    requires
        is_plain(app.task),
    ensures
        ({
            let done = after_event(app, AppEvent::Done { outcome: Ok(()) });
            &&& done.settings_path == app.settings_path
            &&& done.has_wallpaper == (app.has_wallpaper || app.task is CreateWallpaper)
            &&& match app.task {
                TaskView::WriteFolder { settings, page } => {
                    &&& done.settings == settings
                    &&& done.videos == page.videos
                    &&& done.selected_video is None
                    &&& done.task == (TaskView::ShowFolder {
                        html: page.html,
                        video_folder: settings.video_folder,
                        tiles: page.tiles,
                    })
                },
                TaskView::WriteScalingMode { settings } => {
                    &&& done.settings == settings
                    &&& done.videos == app.videos && done.selected_video == app.selected_video
                    &&& app.has_wallpaper ==> done.task == (TaskView::ApplyScalingMode {
                        scaling_mode: settings.scaling_mode,
                    })
                    &&& !app.has_wallpaper ==> done.task is Wait
                },
                TaskView::CreateWallpaper { index, .. } | TaskView::SetVideo { index, .. } => {
                    &&& done.settings == app.settings && done.videos == app.videos
                    &&& done.selected_video == Some(index)
                    &&& done.task is Wait
                },
                _ => done == (AppView { task: TaskView::Wait, ..app }),
            }
        }),
{
}

/// A failure is reported under what was asked for, with its own message behind.
pub proof fn law_failures_are_told(app: AppView, error: Error)
    requires
        is_plain(app.task),
    ensures
        after_event(app, AppEvent::Done { outcome: Err(error) }).task == (TaskView::Report {
            message: (if app.task is WriteFolder || app.task is ShowFolder {
                "Updating video folder"@
            } else if app.task is WriteScalingMode || app.task is ApplyScalingMode {
                "Updating scaling mode"@
            } else {
                "Updating wallpaper"@
            }) + " failed | "@ + error@,
        }),
{
}

/// A folder that cannot be shown is reported under the folder, with its own message behind.
pub proof fn law_unreadable_folder_is_told(app: AppView, error: Error)
    requires
        app.task is ReadFolder,
    ensures
        after_event(app, AppEvent::FolderRead { page: Err(error) }).task == (TaskView::Report {
            message: "Updating video folder"@ + " failed | "@ + error@,
        }),
{
}

/// Whether a reply is the one that the start waits for.
pub open spec fn is_startup_awaited(startup: StartupView, reply: StartupReply) -> bool {
    ||| startup is ReadSettings && reply is SettingsRead
    ||| startup is ReadDefaultFolder && reply is DefaultFolderRead
    ||| startup is ReadFolder && reply is FolderRead
    ||| startup is CreatePicker && reply is Done
    ||| startup is WriteSettings && reply is Done
}

/// The start goes on with the reply that it waits for, and with no other. It fails exactly with a
/// failure, and says the same.
pub proof fn law_start_goes_on_with_its_reply(startup: StartupView, reply: StartupReply)
    ensures
        is_startup_awaited(startup, reply) <==> after_reply(startup, reply) != startup,
        is_startup_awaited(startup, reply) ==> match reply {
            StartupReply::SettingsRead { stored: Err(error) } => after_reply(startup, reply) == (
            StartupView::Failed { message: error@ }),
            StartupReply::DefaultFolderRead { video_folder: Err(error) } => after_reply(
                startup,
                reply,
            ) == (StartupView::Failed { message: error@ }),
            StartupReply::FolderRead { page: Err(error) } => after_reply(startup, reply) == (
            StartupView::Failed { message: error@ }),
            StartupReply::Done { outcome: Err(error) } => after_reply(startup, reply) == (
            StartupView::Failed { message: error@ }),
            _ => !(after_reply(startup, reply) is Failed),
        },
{
}

/// Settings that are stored are those that the app runs with, and are not stored again. The app
/// starts with the videos of the page, none chosen, and no wallpaper.
pub proof fn law_stored_settings_are_taken(
    settings_path: Seq<char>,
    settings: Settings,
    page: FolderPage,
)
    ensures
        ({
            let reading = StartupView::ReadSettings { settings_path };
            let stored = StartupReply::SettingsRead { stored: Ok(Some(settings)) };
            let listing = after_reply(reading, stored);
            let opening = after_reply(listing, StartupReply::FolderRead { page: Ok(page) });
            let done = after_reply(opening, StartupReply::Done { outcome: Ok(()) });
            &&& listing is ReadFolder && listing->ReadFolder_settings == settings@
            &&& opening is CreatePicker && opening->CreatePicker_page == page@
            &&& done == (StartupView::Running {
                app: AppView {
                    settings: settings@,
                    settings_path,
                    selected_video: None,
                    videos: page@.videos,
                    has_wallpaper: false,
                    task: TaskView::Wait,
                },
            })
        }),
{
}

/// Where none are stored, the app runs with those of a first run: it fills the screen with videos
/// of the folder that was found, and stores these settings once the picker is open.
pub proof fn law_first_settings_are_made_and_stored(
    settings_path: Seq<char>,
    video_folder: String,
    page: FolderPage,
)
    ensures
        ({
            let reading = StartupView::ReadSettings { settings_path };
            let finding = after_reply(reading, StartupReply::SettingsRead { stored: Ok(None) });
            let found = StartupReply::DefaultFolderRead { video_folder: Ok(video_folder) };
            let listing = after_reply(finding, found);
            let opening = after_reply(listing, StartupReply::FolderRead { page: Ok(page) });
            let writing = after_reply(opening, StartupReply::Done { outcome: Ok(()) });
            let done = after_reply(writing, StartupReply::Done { outcome: Ok(()) });
            let settings = SettingsView {
                video_folder: video_folder@,
                scaling_mode: ScalingMode::FillScreen,
            };
            &&& listing is ReadFolder && listing->ReadFolder_settings == settings
            &&& opening is CreatePicker && opening->CreatePicker_page == page@
            &&& writing is WriteSettings && writing->WriteSettings_settings == settings
                && writing->WriteSettings_settings_path == settings_path
            &&& done == (StartupView::Running {
                app: AppView {
                    settings,
                    settings_path,
                    selected_video: None,
                    videos: page@.videos,
                    has_wallpaper: false,
                    task: TaskView::Wait,
                },
            })
        }),
{
}

/// The start begins where the settings are kept, or fails with the reason why that is not known.
pub proof fn law_start_begins_with_the_settings(place: Seq<char>)
    ensures
        first_startup(Ok(place)) == (StartupView::ReadSettings { settings_path: place }),
        first_startup(Err(place)) == (StartupView::Failed { message: place }),
{
}

} // verus!
