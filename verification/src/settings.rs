//! Settings: what is kept between two runs.
use crate::error::Error;
use crate::scaling::ScalingMode;
use vstd::prelude::*;

verus! {

/// What is kept between two runs.
#[derive(Debug)]
pub struct Settings {
    pub video_folder: String,
    pub scaling_mode: ScalingMode,
}

/// The model of the `Settings`.
#[verifier::ext_equal]
pub struct SettingsView {
    pub video_folder: Seq<char>,
    pub scaling_mode: ScalingMode,
}

impl View for Settings {
    type V = SettingsView;

    open spec fn view(&self) -> SettingsView {
        SettingsView { video_folder: self.video_folder@, scaling_mode: self.scaling_mode }
    }
}

/// What came of reading the settings file.
#[derive(Debug)]
pub enum SettingsFile {
    /// The file holds these settings.
    Stored { settings: Settings },
    /// The file holds something else.
    Malformed { error: Error },
    /// There is no file.
    NotFound,
    /// The file could not be read.
    Unreadable { error: Error },
}

/// The stored settings, if there are any. A missing file is no failure, any other trouble is.
pub fn read_settings(file: SettingsFile) -> (result: Result<Option<Settings>, Error>)
    ensures
        match file {
            SettingsFile::Stored { settings } => result == Ok::<Option<Settings>, Error>(
                Some(settings),
            ),
            SettingsFile::Malformed { error } => result == Err::<Option<Settings>, Error>(error),
            SettingsFile::NotFound => result == Ok::<Option<Settings>, Error>(None),
            SettingsFile::Unreadable { error } => result == Err::<Option<Settings>, Error>(error),
        },
{
    match file {
        SettingsFile::Stored { settings } => Ok(Some(settings)),
        SettingsFile::Malformed { error } => Err(error),
        SettingsFile::NotFound => Ok(None),
        SettingsFile::Unreadable { error } => Err(error),
    }
}

/// The settings of a first run.
pub open spec fn first_settings(video_folder: Seq<char>) -> SettingsView {
    SettingsView { video_folder, scaling_mode: ScalingMode::FillScreen }
}

/// The settings of a first run, with videos from `video_folder`.
pub fn default_settings(video_folder: String) -> (result: Settings)
    ensures
        result@ == first_settings(video_folder@),
        result.video_folder@ == video_folder@,
        result.scaling_mode == ScalingMode::FillScreen,
{
    Settings { video_folder, scaling_mode: ScalingMode::FillScreen }
}

/// The content of the settings file: the settings in JSON, on lines of their own.
pub fn settings_file_content(json: &str) -> (result: String)
    ensures
        result@ == json@ + "\n"@,
{
    let mut result = json.to_owned();
    result.append("\n");
    result
}

/// A first run fills the screen, with videos from the folder it is given, whichever that is.
pub proof fn law_first_settings_fill_the_screen(video_folder: Seq<char>)
    ensures
        first_settings(video_folder).scaling_mode == ScalingMode::FillScreen,
        first_settings(video_folder).video_folder == video_folder,
{
}

} // verus!
