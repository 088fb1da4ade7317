//! What the app in one piece does from its start to its end, and what it holds in between.
//!
//! All that reaches outside is a task: the app says what is to be done, and what came of it
//! decides what it does next. What came of something else leaves it as it is.
use crate::error::Error;
use crate::paperwall_windows;
use crate::paperwall_windows::{create_settings, is_mp4, is_scaling_mode, Settings, SettingsView};
use crate::paths;
use crate::paths::{FilePath, FilePathView};
use vstd::prelude::*;

verus! {

/// What the user does in the picker.
#[derive(Debug)]
pub enum BrowserEvent {
    PickVideoFolder,
    /// The video at `path` is chosen, which is a file or not.
    SelectVideo { path: FilePath, is_file: bool },
    UpdateScalingMode { scaling_mode: String },
}

/// What is to be done outside the app.
#[derive(Debug)]
pub enum Task {
    /// Nothing, until something happens.
    Wait,
    /// Nothing but to report this failure.
    Report { message: String },
    /// Nothing any more.
    Exit,
    /// Let the user pick a folder, starting in this one.
    PickFolder { directory: String },
    /// Store these settings, which have another folder.
    SaveFolder { settings: Settings },
    /// Show this folder in the picker.
    ShowFolder { video_folder: String },
    /// Store these settings, which have another scaling mode.
    SaveScalingMode { settings: Settings },
    /// Turn the wallpaper to this scaling mode.
    ApplyScalingMode { scaling_mode: String },
    /// Create the wallpaper with the video at `path`.
    CreateWallpaper { path: FilePath, scaling_mode: String },
    /// Turn the wallpaper to the video at `path`.
    SetVideo { path: FilePath },
}

/// The model of a `Task`.
#[verifier::ext_equal]
pub enum TaskView {
    Wait,
    Report { message: Seq<char> },
    Exit,
    PickFolder { directory: Seq<char> },
    SaveFolder { settings: SettingsView },
    ShowFolder { video_folder: Seq<char> },
    SaveScalingMode { settings: SettingsView },
    ApplyScalingMode { scaling_mode: Seq<char> },
    CreateWallpaper { path: FilePathView, scaling_mode: Seq<char> },
    SetVideo { path: FilePathView },
}

impl View for Task {
    type V = TaskView;

    open spec fn view(&self) -> TaskView {
        match self {
            Task::Wait => TaskView::Wait,
            Task::Report { message } => TaskView::Report { message: message@ },
            Task::Exit => TaskView::Exit,
            Task::PickFolder { directory } => TaskView::PickFolder { directory: directory@ },
            Task::SaveFolder { settings } => TaskView::SaveFolder { settings: settings@ },
            Task::ShowFolder { video_folder } => TaskView::ShowFolder {
                video_folder: video_folder@,
            },
            Task::SaveScalingMode { settings } => TaskView::SaveScalingMode {
                settings: settings@,
            },
            Task::ApplyScalingMode { scaling_mode } => TaskView::ApplyScalingMode {
                scaling_mode: scaling_mode@,
            },
            Task::CreateWallpaper { path, scaling_mode } => TaskView::CreateWallpaper {
                path: path@,
                scaling_mode: scaling_mode@,
            },
            Task::SetVideo { path } => TaskView::SetVideo { path: path@ },
        }
    }
}

/// What happened outside the app.
#[derive(Debug)]
pub enum AppEvent {
    /// A window was closed.
    WindowClosed,
    /// The user did something in the picker.
    User { event: BrowserEvent },
    /// The user picked a folder, or none.
    FolderPicked { video_folder: Option<String> },
    /// The task was done, or not.
    Done { outcome: Result<(), Error> },
}

/// The app between two events.
#[derive(Debug)]
pub struct App {
    pub settings: Settings,
    pub settings_path: String,
    pub has_wallpaper: bool,
    pub task: Task,
}

/// The model of an `App`.
#[verifier::ext_equal]
pub struct AppView {
    pub settings: SettingsView,
    pub settings_path: Seq<char>,
    pub has_wallpaper: bool,
    pub task: TaskView,
}

impl View for App {
    type V = AppView;

    open spec fn view(&self) -> AppView {
        AppView {
            settings: self.settings@,
            settings_path: self.settings_path@,
            has_wallpaper: self.has_wallpaper,
            task: self.task@,
        }
    }
}

/// The report of a failure.
pub open spec fn report(what: Seq<char>, message: Seq<char>) -> TaskView {
    TaskView::Report { message: what + " failed | "@ + message }
}

/// Reports a failure.
fn failure_report(what: &str, error: Error) -> (result: Task)
    ensures
        result@ == report(what@, error@),
{
    let mut message = what.to_owned();
    message.append(" failed | ");
    message.append(&error.message);
    Task::Report { message }
}

/// What the app does when a scaling mode is chosen: it takes it over and stores it. A name that
/// is no mode's is passed over.
pub open spec fn after_scaling_mode_update(app: AppView, scaling_mode: Seq<char>) -> AppView {
    if paperwall_windows::names_scaling_mode(scaling_mode) {
        let settings = SettingsView { scaling_mode, ..app.settings };
        AppView { settings, task: TaskView::SaveScalingMode { settings }, ..app }
    } else {
        AppView { task: TaskView::Wait, ..app }
    }
}

/// What the app does when a folder is chosen: it takes it over and stores it.
pub open spec fn after_video_folder_update(app: AppView, video_folder: Seq<char>) -> AppView {
    let settings = SettingsView { video_folder, ..app.settings };
    AppView { settings, task: TaskView::SaveFolder { settings }, ..app }
}

/// What the app does when a path is chosen: if it is a video file, it turns the wallpaper to it,
/// or creates the wallpaper if there is none.
pub open spec fn after_wallpaper_update(
    app: AppView,
    path: FilePathView,
    is_file: bool,
) -> AppView {
    let task = if !paths::is_video_name(path.file_name) || !is_file {
        TaskView::Wait
    } else if app.has_wallpaper {
        TaskView::SetVideo { path }
    } else {
        TaskView::CreateWallpaper { path, scaling_mode: app.settings.scaling_mode }
    };
    AppView { task, ..app }
}

/// What the app does when the user does something in the picker.
pub open spec fn after_user_event(app: AppView, event: BrowserEvent) -> AppView {
    match event {
        BrowserEvent::PickVideoFolder => AppView {
            task: TaskView::PickFolder { directory: app.settings.video_folder },
            ..app
        },
        BrowserEvent::SelectVideo { path, is_file } => after_wallpaper_update(app, path@, is_file),
        BrowserEvent::UpdateScalingMode { scaling_mode } => after_scaling_mode_update(
            app,
            scaling_mode@,
        ),
    }
}

/// What the app does once a task is done.
pub open spec fn after_success(app: AppView) -> AppView {
    match app.task {
        TaskView::SaveFolder { .. } => AppView {
            task: TaskView::ShowFolder { video_folder: app.settings.video_folder },
            ..app
        },
        TaskView::ShowFolder { .. } => AppView { task: TaskView::Wait, ..app },
        TaskView::SaveScalingMode { .. } => AppView {
            task: if app.has_wallpaper {
                TaskView::ApplyScalingMode { scaling_mode: app.settings.scaling_mode }
            } else {
                TaskView::Wait
            },
            ..app
        },
        TaskView::ApplyScalingMode { .. } => AppView { task: TaskView::Wait, ..app },
        TaskView::CreateWallpaper { .. } => AppView {
            has_wallpaper: true,
            task: TaskView::Wait,
            ..app
        },
        TaskView::SetVideo { .. } => AppView { task: TaskView::Wait, ..app },
        _ => app,
    }
}

/// What the app does once a task has failed: it reports it and keeps all that it holds.
pub open spec fn after_failure(app: AppView, message: Seq<char>) -> AppView {
    match app.task {
        TaskView::SaveFolder { .. } | TaskView::ShowFolder { .. } => AppView {
            task: report("Updating video folder"@, message),
            ..app
        },
        TaskView::SaveScalingMode { .. } | TaskView::ApplyScalingMode { .. } => AppView {
            task: report("Updating scaling mode"@, message),
            ..app
        },
        TaskView::CreateWallpaper { .. } | TaskView::SetVideo { .. } => AppView {
            task: report("Updating wallpaper"@, message),
            ..app
        },
        _ => app,
    }
}

/// Whether the app has nothing to do until something happens.
pub open spec fn is_resting(task: TaskView) -> bool {
    task is Wait || task is Report
}

/// What the app does when something happens.
pub open spec fn after_event(app: AppView, event: AppEvent) -> AppView {
    match event {
        AppEvent::WindowClosed => if is_resting(app.task) {
            AppView { task: TaskView::Exit, ..app }
        } else {
            app
        },
        AppEvent::User { event } => if is_resting(app.task) {
            after_user_event(app, event)
        } else {
            app
        },
        AppEvent::FolderPicked { video_folder } => if app.task is PickFolder {
            match video_folder {
                Some(video_folder) => after_video_folder_update(app, video_folder@),
                None => AppView { task: TaskView::Wait, ..app },
            }
        } else {
            app
        },
        AppEvent::Done { outcome } => match outcome {
            Ok(()) => after_success(app),
            Err(error) => after_failure(app, error@),
        },
    }
}

impl App {
    /// Turns to another scaling mode.
    pub fn update_scaling_mode(self, scaling_mode: String) -> (result: App)
        ensures
            result@ == after_scaling_mode_update(self@, scaling_mode@),
    {
        if !is_scaling_mode(&scaling_mode) {
            return App { task: Task::Wait, ..self };
        }
        let settings = Settings { video_folder: self.settings.video_folder, scaling_mode };
        let task = Task::SaveScalingMode { settings: settings.copy() };
        App {
            settings,
            settings_path: self.settings_path,
            has_wallpaper: self.has_wallpaper,
            task,
        }
    }

    /// Turns to another folder.
    pub fn update_video_folder(self, video_folder: String) -> (result: App)
        ensures
            result@ == after_video_folder_update(self@, video_folder@),
    {
        let settings = Settings { video_folder, scaling_mode: self.settings.scaling_mode };
        let task = Task::SaveFolder { settings: settings.copy() };
        App {
            settings,
            settings_path: self.settings_path,
            has_wallpaper: self.has_wallpaper,
            task,
        }
    }

    /// Begins to turn to the video at `path`.
    pub fn update_wallpaper(self, path: FilePath, is_file: bool) -> (result: App)
        ensures
            result@ == after_wallpaper_update(self@, path@, is_file),
    {
        let task = if !is_mp4(&path) || !is_file {
            Task::Wait
        } else if self.has_wallpaper {
            Task::SetVideo { path }
        } else {
            Task::CreateWallpaper { path, scaling_mode: self.settings.scaling_mode.clone() }
        };
        App { task, ..self }
    }

    /// Begins what the user has asked for.
    fn handle_user_event(self, event: BrowserEvent) -> (result: App)
        ensures
            result@ == after_user_event(self@, event),
    {
        match event {
            BrowserEvent::PickVideoFolder => {
                let directory = self.settings.video_folder.clone();
                App { task: Task::PickFolder { directory }, ..self }
            },
            BrowserEvent::SelectVideo { path, is_file } => self.update_wallpaper(path, is_file),
            BrowserEvent::UpdateScalingMode { scaling_mode } => self.update_scaling_mode(
                scaling_mode,
            ),
        }
    }

    /// Goes on after a task that was done.
    fn handle_success(self) -> (result: App)
        ensures
            result@ == after_success(self@),
    {
        match self.task {
            Task::SaveFolder { .. } => {
                let video_folder = self.settings.video_folder.clone();
                App { task: Task::ShowFolder { video_folder }, ..self }
            },
            Task::ShowFolder { .. } => App { task: Task::Wait, ..self },
            Task::SaveScalingMode { .. } => {
                let task = if self.has_wallpaper {
                    Task::ApplyScalingMode { scaling_mode: self.settings.scaling_mode.clone() }
                } else {
                    Task::Wait
                };
                App { task, ..self }
            },
            Task::ApplyScalingMode { .. } => App { task: Task::Wait, ..self },
            Task::CreateWallpaper { .. } => App { has_wallpaper: true, task: Task::Wait, ..self },
            Task::SetVideo { .. } => App { task: Task::Wait, ..self },
            _ => self,
        }
    }

    /// Goes on after a task that has failed.
    fn handle_failure(self, error: Error) -> (result: App)
        ensures
            result@ == after_failure(self@, error@),
    {
        match self.task {
            Task::SaveFolder { .. } | Task::ShowFolder { .. } => App {
                task: failure_report("Updating video folder", error),
                ..self
            },
            Task::SaveScalingMode { .. } | Task::ApplyScalingMode { .. } => App {
                task: failure_report("Updating scaling mode", error),
                ..self
            },
            Task::CreateWallpaper { .. } | Task::SetVideo { .. } => App {
                task: failure_report("Updating wallpaper", error),
                ..self
            },
            _ => self,
        }
    }

    /// Goes on after something happened.
    pub fn handle(self, event: AppEvent) -> (result: App)
        ensures
            result@ == after_event(self@, event),
    {
        let resting = match self.task {
            Task::Wait => true,
            Task::Report { .. } => true,
            _ => false,
        };
        match event {
            AppEvent::WindowClosed => {
                if resting {
                    App { task: Task::Exit, ..self }
                } else {
                    self
                }
            },
            AppEvent::User { event } => {
                if resting {
                    self.handle_user_event(event)
                } else {
                    self
                }
            },
            AppEvent::FolderPicked { video_folder } => match self.task {
                Task::PickFolder { .. } => match video_folder {
                    Some(video_folder) => self.update_video_folder(video_folder),
                    None => App { task: Task::Wait, ..self },
                },
                _ => self,
            },
            AppEvent::Done { outcome } => match outcome {
                Ok(()) => self.handle_success(),
                Err(error) => self.handle_failure(error),
            },
        }
    }
}

/// What is to be done outside before the app runs.
#[derive(Debug)]
pub enum Startup {
    /// Read the settings file, if there is one.
    ReadSettings { settings_path: String },
    /// Store these settings.
    SaveSettings { settings_path: String, settings: Settings },
    /// Open the picker on the folder of these settings.
    CreatePicker { settings_path: String, settings: Settings },
    /// Nothing: the app runs.
    Running { app: App },
    /// Nothing: the app cannot run.
    Failed { error: Error },
}

/// The model of a `Startup`.
#[verifier::ext_equal]
pub enum StartupView {
    ReadSettings { settings_path: Seq<char> },
    SaveSettings { settings_path: Seq<char>, settings: SettingsView },
    CreatePicker { settings_path: Seq<char>, settings: SettingsView },
    Running { app: AppView },
    Failed { message: Seq<char> },
}

impl View for Startup {
    type V = StartupView;

    open spec fn view(&self) -> StartupView {
        match self {
            Startup::ReadSettings { settings_path } => StartupView::ReadSettings {
                settings_path: settings_path@,
            },
            Startup::SaveSettings { settings_path, settings } => StartupView::SaveSettings {
                settings_path: settings_path@,
                settings: settings@,
            },
            Startup::CreatePicker { settings_path, settings } => StartupView::CreatePicker {
                settings_path: settings_path@,
                settings: settings@,
            },
            Startup::Running { app } => StartupView::Running { app: app@ },
            Startup::Failed { error } => StartupView::Failed { message: error@ },
        }
    }
}

/// What came of a task at the start.
#[derive(Debug)]
pub enum StartupReply {
    /// The settings file was read, and holds settings or is not there. `user_profile` is the
    /// value of `USERPROFILE`.
    SettingsRead { stored: Result<Option<Settings>, Error>, user_profile: Option<String> },
    /// The task was done, or not.
    Done { outcome: Result<(), Error> },
}

/// The app as it starts: with no wallpaper.
pub open spec fn first_app(settings_path: Seq<char>, settings: SettingsView) -> AppView {
    AppView { settings, settings_path, has_wallpaper: false, task: TaskView::Wait }
}

/// How the start goes on. The settings, stored or new, are stored in any case.
pub open spec fn after_reply(startup: StartupView, reply: StartupReply) -> StartupView {
    match (startup, reply) {
        (
            StartupView::ReadSettings { settings_path },
            StartupReply::SettingsRead { stored, user_profile },
        ) => match (stored, user_profile) {
            (Ok(Some(settings)), _) => StartupView::SaveSettings {
                settings_path,
                settings: paperwall_windows::corrected(settings@),
            },
            (Ok(None), Some(folder)) => StartupView::SaveSettings {
                settings_path,
                settings: SettingsView {
                    video_folder: paths::joined('\\', folder@, "Videos"@),
                    scaling_mode: paperwall_windows::FILL_SCREEN@,
                },
            },
            (Ok(None), None) => StartupView::Failed { message: "USERPROFILE is not set"@ },
            (Err(error), _) => StartupView::Failed { message: error@ },
        },
        (
            StartupView::SaveSettings { settings_path, settings },
            StartupReply::Done { outcome },
        ) => match outcome {
            Ok(()) => StartupView::CreatePicker { settings_path, settings },
            Err(error) => StartupView::Failed { message: error@ },
        },
        (
            StartupView::CreatePicker { settings_path, settings },
            StartupReply::Done { outcome },
        ) => match outcome {
            Ok(()) => StartupView::Running { app: first_app(settings_path, settings) },
            Err(error) => StartupView::Failed { message: error@ },
        },
        _ => startup,
    }
}

impl Startup {
    /// Begins with the place of the settings.
    pub fn begin(settings_path: Result<String, Error>) -> (result: Startup)
        ensures
            match settings_path {
                Ok(path) => result@ == (StartupView::ReadSettings { settings_path: path@ }),
                Err(error) => result@ == (StartupView::Failed { message: error@ }),
            },
    {
        match settings_path {
            Ok(settings_path) => Startup::ReadSettings { settings_path },
            Err(error) => Startup::Failed { error },
        }
    }

    /// Goes on after a task.
    pub fn advance(self, reply: StartupReply) -> (result: Startup)
        ensures
            result@ == after_reply(self@, reply),
    {
        match (self, reply) {
            (
                Startup::ReadSettings { settings_path },
                StartupReply::SettingsRead { stored, user_profile },
            ) => {
                let stored = match stored {
                    Ok(stored) => stored,
                    Err(error) => {
                        return Startup::Failed { error };
                    },
                };
                let user_profile = match &user_profile {
                    Some(folder) => Some(folder.as_str()),
                    None => None,
                };
                match create_settings(stored, user_profile) {
                    Ok(settings) => Startup::SaveSettings { settings_path, settings },
                    Err(error) => Startup::Failed { error },
                }
            },
            (
                Startup::SaveSettings { settings_path, settings },
                StartupReply::Done { outcome },
            ) => match outcome {
                Ok(()) => Startup::CreatePicker { settings_path, settings },
                Err(error) => Startup::Failed { error },
            },
            (
                Startup::CreatePicker { settings_path, settings },
                StartupReply::Done { outcome },
            ) => match outcome {
                Ok(()) => Startup::Running {
                    app: App { settings, settings_path, has_wallpaper: false, task: Task::Wait },
                },
                Err(error) => Startup::Failed { error },
            },
            (startup, _) => startup,
        }
    }
}

/// What holds of the app at all times: its scaling mode is one of the two, a wallpaper is created
/// once and in that mode, and what is stored and shown is what the app holds.
pub open spec fn is_valid(app: AppView) -> bool {
    &&& paperwall_windows::names_scaling_mode(app.settings.scaling_mode)
    &&& match app.task {
        TaskView::SaveFolder { settings } => settings == app.settings,
        TaskView::ShowFolder { video_folder } => video_folder == app.settings.video_folder,
        TaskView::SaveScalingMode { settings } => settings == app.settings,
        TaskView::ApplyScalingMode { scaling_mode } => {
            &&& app.has_wallpaper
            &&& scaling_mode == app.settings.scaling_mode
        },
        TaskView::CreateWallpaper { path, scaling_mode } => {
            &&& !app.has_wallpaper
            &&& paths::is_video_name(path.file_name)
            &&& scaling_mode == app.settings.scaling_mode
        },
        TaskView::SetVideo { path } => {
            &&& app.has_wallpaper
            &&& paths::is_video_name(path.file_name)
        },
        _ => true,
    }
}

/// The start after some replies.
pub open spec fn startup_after(settings_path: Seq<char>, replies: Seq<StartupReply>) -> StartupView
    decreases replies.len(),
{
    if replies.len() == 0 {
        StartupView::ReadSettings { settings_path }
    } else {
        after_reply(startup_after(settings_path, replies.drop_last()), replies.last())
    }
}

/// Whatever is stored, the app starts with a scaling mode, and valid.
pub proof fn law_start_is_valid(settings_path: Seq<char>, replies: Seq<StartupReply>)
    ensures
        match startup_after(settings_path, replies) {
            StartupView::SaveSettings { settings, .. } => paperwall_windows::names_scaling_mode(
                settings.scaling_mode,
            ),
            StartupView::CreatePicker { settings, .. } => paperwall_windows::names_scaling_mode(
                settings.scaling_mode,
            ),
            StartupView::Running { app } => is_valid(app),
            _ => true,
        },
    decreases replies.len(),
{
    if replies.len() > 0 {
        law_start_is_valid(settings_path, replies.drop_last());
    }
}

/// Whatever happens, the app stays valid.
pub proof fn law_events_keep_app_valid(app: AppView, event: AppEvent)
    requires
        is_valid(app),
    ensures
        is_valid(after_event(app, event)),
{
}

/// Whether a task is over once it was done or has failed.
pub open spec fn is_plain(task: TaskView) -> bool {
    ||| task is SaveFolder
    ||| task is ShowFolder
    ||| task is SaveScalingMode
    ||| task is ApplyScalingMode
    ||| task is CreateWallpaper
    ||| task is SetVideo
}

/// A task that fails changes nothing that the app holds, and is reported.
pub proof fn law_failures_change_nothing(app: AppView, error: Error)
    requires
        is_plain(app.task),
    ensures
        ({
            let after = after_event(app, AppEvent::Done { outcome: Err(error) });
            &&& after == (AppView { task: after.task, ..app })
            &&& after.task is Report
        }),
{
}

/// A name that is no mode's changes nothing and asks nothing of the outside.
pub proof fn law_unknown_modes_are_passed_over(app: AppView, scaling_mode: Seq<char>)
    requires
        !paperwall_windows::names_scaling_mode(scaling_mode),
    ensures
        after_scaling_mode_update(app, scaling_mode) == (AppView { task: TaskView::Wait, ..app }),
{
}

/// Choosing a video file, and all going well, ends with a wallpaper, and nothing else changed.
pub proof fn law_chosen_video_is_shown(app: AppView, path: FilePath)
    requires
        is_resting(app.task),
        paths::is_video_name(path@.file_name),
    ensures
        ({
            let begun = after_event(
                app,
                AppEvent::User { event: BrowserEvent::SelectVideo { path, is_file: true } },
            );
            let done = after_event(begun, AppEvent::Done { outcome: Ok(()) });
            &&& begun.task == (if app.has_wallpaper {
                TaskView::SetVideo { path: path@ }
            } else {
                TaskView::CreateWallpaper {
                    path: path@,
                    scaling_mode: app.settings.scaling_mode,
                }
            })
            &&& done == (AppView { has_wallpaper: true, task: TaskView::Wait, ..app })
        }),
{
}

/// Turning to another folder, and all going well, stores it, shows it, and changes nothing else.
pub proof fn law_picked_folder_is_shown(app: AppView, video_folder: String)
    requires
        is_resting(app.task),
    ensures
        ({
            let settings = SettingsView { video_folder: video_folder@, ..app.settings };
            let picking = after_event(
                app,
                AppEvent::User { event: BrowserEvent::PickVideoFolder },
            );
            let saving = after_event(
                picking,
                AppEvent::FolderPicked { video_folder: Some(video_folder) },
            );
            let showing = after_event(saving, AppEvent::Done { outcome: Ok(()) });
            let done = after_event(showing, AppEvent::Done { outcome: Ok(()) });
            &&& saving.task == (TaskView::SaveFolder { settings })
            &&& showing.task == (TaskView::ShowFolder { video_folder: video_folder@ })
            &&& done == (AppView { settings, task: TaskView::Wait, ..app })
        }),
{
}

/// Turning to a scaling mode, and all going well, stores it, turns the wallpaper to it if there is
/// one, and changes nothing else.
pub proof fn law_chosen_mode_is_set(app: AppView, scaling_mode: String)
    requires
        is_resting(app.task),
        paperwall_windows::names_scaling_mode(scaling_mode@),
    ensures
        ({
            let settings = SettingsView { scaling_mode: scaling_mode@, ..app.settings };
            let saving = after_event(
                app,
                AppEvent::User { event: BrowserEvent::UpdateScalingMode { scaling_mode } },
            );
            let saved = after_event(saving, AppEvent::Done { outcome: Ok(()) });
            let done = after_event(saved, AppEvent::Done { outcome: Ok(()) });
            &&& saving.task == (TaskView::SaveScalingMode { settings })
            &&& app.has_wallpaper ==> saved.task == (TaskView::ApplyScalingMode {
                scaling_mode: scaling_mode@,
            })
            &&& done == (AppView { settings, task: TaskView::Wait, ..app })
        }),
{
}

/// The app ends only when a window is closed, and then it does.
pub proof fn law_app_ends_with_window(app: AppView, event: AppEvent)
    ensures
        after_event(app, event).task is Exit ==> app.task is Exit || event is WindowClosed,
        is_resting(app.task) && event is WindowClosed ==> after_event(app, event).task is Exit,
{
}

/// Whether an event is one that the app waits for: what the user does while it rests, and what came
/// of its task.
pub open spec fn is_awaited(task: TaskView, event: AppEvent) -> bool {
    match event {
        AppEvent::WindowClosed => task is Wait || task is Report,
        AppEvent::User { .. } => task is Wait || task is Report,
        AppEvent::FolderPicked { .. } => task is PickFolder,
        AppEvent::Done { .. } => task is SaveFolder || task is ShowFolder || task is SaveScalingMode
            || task is ApplyScalingMode || task is CreateWallpaper || task is SetVideo,
    }
}

/// An event that the app does not wait for changes nothing.
pub proof fn law_other_events_are_passed_over(app: AppView, event: AppEvent)
    requires
        !is_awaited(app.task, event),
    ensures
        after_event(app, event) == app,
{
}

/// What the user asks for is begun at once: a folder is picked from the current one on, a file that
/// is named as a video is set or made a wallpaper of, and a mode is taken over and stored, with the
/// folder as it is. What is no video file, or no mode, changes nothing.
pub proof fn law_user_events_begin_tasks(app: AppView, event: BrowserEvent)
    requires
        is_resting(app.task),
    ensures
        ({
            let begun = after_event(app, AppEvent::User { event });
            &&& begun.settings_path == app.settings_path
            &&& begun.has_wallpaper == app.has_wallpaper
            &&& match event {
                BrowserEvent::PickVideoFolder => begun.settings == app.settings && begun.task == (
                TaskView::PickFolder { directory: app.settings.video_folder }),
                BrowserEvent::SelectVideo { path, is_file } => {
                    &&& begun.settings == app.settings
                    &&& if is_file && paths::is_video_name(path@.file_name) {
                        if app.has_wallpaper {
                            begun.task == (TaskView::SetVideo { path: path@ })
                        } else {
                            begun.task == (TaskView::CreateWallpaper {
                                path: path@,
                                scaling_mode: app.settings.scaling_mode,
                            })
                        }
                    } else {
                        begun.task is Wait
                    }
                },
                BrowserEvent::UpdateScalingMode { scaling_mode } => if scaling_mode@
                    == "Fill Screen"@ || scaling_mode@ == "Fit to Screen"@ {
                    let settings = SettingsView {
                        video_folder: app.settings.video_folder,
                        scaling_mode: scaling_mode@,
                    };
                    begun.settings == settings && begun.task == (TaskView::SaveScalingMode {
                        settings,
                    })
                } else {
                    begun.settings == app.settings && begun.task is Wait
                },
            }
        }),
{
}

/// A folder that is picked is taken over and stored, with the mode as it is. Where none is picked,
/// the app rests and nothing changes.
pub proof fn law_picked_folder_is_stored(app: AppView, video_folder: String)
    requires
        app.task is PickFolder,
    ensures
        ({
            let settings = SettingsView {
                video_folder: video_folder@,
                scaling_mode: app.settings.scaling_mode,
            };
            after_event(app, AppEvent::FolderPicked { video_folder: Some(video_folder) }) == (
            AppView { settings, task: TaskView::SaveFolder { settings }, ..app })
        }),
        after_event(app, AppEvent::FolderPicked { video_folder: None }) == (AppView {
            task: TaskView::Wait,
            ..app
        }),
{
}

/// What the app does once a task is done, for every task: a folder that was stored is shown, a mode
/// that was stored is applied to the wallpaper if there is one, and all else ends in rest.
pub proof fn law_done_tasks(app: AppView)
    requires
        is_plain(app.task),
    ensures
        ({
            let done = after_event(app, AppEvent::Done { outcome: Ok(()) });
            &&& done.settings == app.settings && done.settings_path == app.settings_path
            &&& done.has_wallpaper == (app.has_wallpaper || app.task is CreateWallpaper)
            &&& if app.task is SaveFolder {
                done.task == (TaskView::ShowFolder { video_folder: app.settings.video_folder })
            } else if app.task is SaveScalingMode && app.has_wallpaper {
                done.task == (TaskView::ApplyScalingMode {
                    scaling_mode: app.settings.scaling_mode,
                })
            } else {
                done.task is Wait
            }
        }),
{
}

/// A failure is reported under what was asked for, with its own message behind.
pub proof fn law_failures_are_told(app: AppView, error: Error)
    requires
        is_plain(app.task),
    ensures
        after_event(app, AppEvent::Done { outcome: Err(error) }).task == (TaskView::Report {
            message: (if app.task is SaveFolder || app.task is ShowFolder {
                "Updating video folder"@
            } else if app.task is SaveScalingMode || app.task is ApplyScalingMode {
                "Updating scaling mode"@
            } else {
                "Updating wallpaper"@
            }) + " failed | "@ + error@,
        }),
{
}

/// Whether a reply is the one that the start waits for.
pub open spec fn is_startup_awaited(startup: StartupView, reply: StartupReply) -> bool {
    ||| startup is ReadSettings && reply is SettingsRead
    ||| startup is SaveSettings && reply is Done
    ||| startup is CreatePicker && reply is Done
}

/// The start goes on with the reply that it waits for, and with no other. It fails exactly with a
/// failure, and says the same, or where neither settings nor a folder for them can be had.
pub proof fn law_start_goes_on_with_its_reply(startup: StartupView, reply: StartupReply)
    ensures
        is_startup_awaited(startup, reply) <==> after_reply(startup, reply) != startup,
        is_startup_awaited(startup, reply) ==> match reply {
            StartupReply::SettingsRead { stored: Err(error), .. } => after_reply(startup, reply)
                == (StartupView::Failed { message: error@ }),
            StartupReply::SettingsRead { stored: Ok(None), user_profile: None } => after_reply(
                startup,
                reply,
            ) == (StartupView::Failed { message: "USERPROFILE is not set"@ }),
            StartupReply::Done { outcome: Err(error) } => after_reply(startup, reply) == (
            StartupView::Failed { message: error@ }),
            _ => !(after_reply(startup, reply) is Failed),
        },
{
}

/// The app runs with the settings that are stored, corrected where their mode is none, or else with
/// those of a first run: it fills the screen with the videos of the user's own folder. It stores
/// them in any case, and starts without a wallpaper.
pub proof fn law_start_leads_to_settings(
    settings_path: Seq<char>,
    stored: Option<Settings>,
    user_profile: Option<String>,
)
    requires
        stored is Some || user_profile is Some,
    ensures
        ({
            let reading = StartupView::ReadSettings { settings_path };
            let reply = StartupReply::SettingsRead { stored: Ok(stored), user_profile };
            let saving = after_reply(reading, reply);
            let opening = after_reply(saving, StartupReply::Done { outcome: Ok(()) });
            let done = after_reply(opening, StartupReply::Done { outcome: Ok(()) });
            let settings = match stored {
                Some(settings) => SettingsView {
                    video_folder: settings@.video_folder,
                    scaling_mode: if settings@.scaling_mode == "Fit to Screen"@ {
                        "Fit to Screen"@
                    } else {
                        "Fill Screen"@
                    },
                },
                None => SettingsView {
                    video_folder: paths::joined('\\', user_profile->0@, "Videos"@),
                    scaling_mode: "Fill Screen"@,
                },
            };
            &&& saving == (StartupView::SaveSettings { settings_path, settings })
            &&& opening == (StartupView::CreatePicker { settings_path, settings })
            &&& done == (StartupView::Running {
                app: AppView {
                    settings,
                    settings_path,
                    has_wallpaper: false,
                    task: TaskView::Wait,
                },
            })
        }),
{
}

} // verus!
