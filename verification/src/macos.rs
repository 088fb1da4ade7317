//! macOS: the picker is a web view that the app answers itself, and the wallpaper a media layer.
use crate::error::Error;
use crate::paths::FilePath;
use crate::response::{create_response, Response, ResponseView};
use crate::scaling::{ScalingMode, VideoGravity};
use crate::videos::{Video, VideoView};
use crate::{json, paths, picker, response, text, videos};
use std::collections::HashMap;
use vstd::prelude::*;

verus! {

broadcast use vstd::std_specs::hash::group_hash_axioms;

/// The thumbnail of the video at `index`: an image that the picker answers itself.
pub open spec fn thumbnail(index: nat) -> Seq<char> {
    "<img alt=\"\" src=\"preview/"@ + text::decimal(index) + ".jpg\">"@
}

/// The thumbnail of the video at `index`.
pub fn create_thumbnail(_video: &Video, index: usize) -> (result: Result<String, Error>)
    ensures
        result matches Ok(image) && image@ == thumbnail(index as nat),
        result matches Ok(image) && image@ == "<img alt=\"\" src=\"preview/"@ + text::decimal(
            index as nat,
        ) + ".jpg\">"@,
{
    let mut result = "<img alt=\"\" src=\"preview/".to_owned();
    result.append(&text::decimal_text(index as u64));
    result.append(".jpg\">");
    Ok(result)
}

/// The home folder, by the value of `HOME`.
pub fn read_home_dir(home: Option<&str>) -> (result: Result<String, Error>)
    ensures
        match home {
            Some(folder) => result matches Ok(path) && path@ == folder@,
            None => result matches Err(error) && error@ == "HOME is unavailable"@,
        },
{
    match home {
        Some(folder) => Ok(folder.to_owned()),
        None => Err(Error::new("HOME is unavailable")),
    }
}

/// The folder that videos are taken from at first: the system's folder for movies, or else the
/// one of that name in the home folder.
pub fn read_default_video_folder(movies_directory: Option<&str>, home: Option<&str>) -> (result:
    Result<String, Error>)
    ensures
        match (movies_directory, home) {
            (Some(folder), _) => result matches Ok(path) && path@ == folder@,
            (None, Some(folder)) => result matches Ok(path) && path@ == paths::joined(
                '/',
                folder@,
                "Movies"@,
            ),
            (None, None) => result matches Err(error) && error@ == "HOME is unavailable"@,
        },
{
    if let Some(folder) = movies_directory {
        return Ok(folder.to_owned());
    }
    match read_home_dir(home) {
        Ok(folder) => Ok(paths::join('/', &folder, "Movies")),
        Err(error) => Err(error),
    }
}

/// Where the settings are kept, below the home folder.
pub open spec fn settings_path(home: Seq<char>) -> Seq<char> {
    let library = paths::joined('/', home, "Library"@);
    let support = paths::joined('/', library, "Application Support"@);
    let paperwall = paths::joined('/', support, "paperwall"@);
    paths::joined('/', paperwall, "settings.json"@)
}

/// Where the settings are kept, by the value of `HOME`.
pub fn read_settings_path(home: Option<&str>) -> (result: Result<String, Error>)
    ensures
        match home {
            Some(folder) => result matches Ok(path) && path@ == settings_path(folder@) && path@
                == paths::joined(
                '/',
                paths::joined(
                    '/',
                    paths::joined(
                        '/',
                        paths::joined('/', folder@, "Library"@),
                        "Application Support"@,
                    ),
                    "paperwall"@,
                ),
                "settings.json"@,
            ),
            None => result matches Err(error) && error@ == "HOME is unavailable"@,
        },
{
    match read_home_dir(home) {
        Ok(folder) => {
            let library = paths::join('/', &folder, "Library");
            let support = paths::join('/', &library, "Application Support");
            let paperwall = paths::join('/', &support, "paperwall");
            Ok(paths::join('/', &paperwall, "settings.json"))
        },
        Err(error) => Err(error),
    }
}

/// The settings are kept at `~/Library/Application Support/paperwall/settings.json`.
pub proof fn law_settings_path(home: Seq<char>)
    requires
        home.len() > 0,
        home.last() != '/',
    ensures
        settings_path(home) == home + "/Library/Application Support/paperwall/settings.json"@,
{
    reveal_strlit("Library");
    reveal_strlit("Application Support");
    reveal_strlit("paperwall");
    reveal_strlit("settings.json");
    reveal_strlit("/Library/Application Support/paperwall/settings.json");
    let library = home.push('/') + "Library"@;
    assert(library.last() == 'y');
    let support = library.push('/') + "Application Support"@;
    assert(support.last() == 't');
    let paperwall = support.push('/') + "paperwall"@;
    assert(paperwall.last() == 'l');
    assert(settings_path(home) =~= home
        + "/Library/Application Support/paperwall/settings.json"@);
}

/// The files that the picker's page refers to.
#[derive(Debug)]
pub struct PickerAssets {
    pub app_js: String,
    pub main_css: String,
    pub main_js: String,
}

/// The picker: its current page, and the previews that were made of the current videos.
#[derive(Debug)]
pub struct Picker {
    pub html: String,
    pub preview_cache: HashMap<usize, Vec<u8>>,
}

/// The model of a `Picker`.
#[verifier::ext_equal]
pub struct PickerView {
    pub html: Seq<char>,
    pub previews: Map<usize, Seq<u8>>,
}

impl View for Picker {
    type V = PickerView;

    open spec fn view(&self) -> PickerView {
        PickerView {
            html: self.html@,
            previews: self.preview_cache@.map_values(|preview: Vec<u8>| preview@),
        }
    }
}

/// What a request of the picker's page leads to.
#[derive(Debug)]
pub enum AssetAnswer {
    /// This answer.
    Respond { response: Response },
    /// A preview must first be made of the video at `index`, which is at `path`.
    MakePreview { index: usize, path: String },
}

/// The model of an `AssetAnswer`.
#[verifier::ext_equal]
pub enum AssetAnswerView {
    Respond { response: ResponseView },
    MakePreview { index: usize, path: Seq<char> },
}

impl View for AssetAnswer {
    type V = AssetAnswerView;

    open spec fn view(&self) -> AssetAnswerView {
        match self {
            AssetAnswer::Respond { response } => AssetAnswerView::Respond { response: response@ },
            AssetAnswer::MakePreview { index, path } => AssetAnswerView::MakePreview {
                index: *index,
                path: path@,
            },
        }
    }
}

/// The video whose preview a path asks for: `/preview/{index}.jpg`.
pub open spec fn preview_index(path: Seq<char>) -> Option<usize> {
    if text::begins_with(path, "/preview/"@) {
        let name = path.skip("/preview/"@.len() as int);
        if text::ends_with(name, ".jpg"@) {
            text::parsed_word(name.take(name.len() - ".jpg"@.len()))
        } else {
            None
        }
    } else {
        None
    }
}

/// Reads which video's preview a path asks for.
pub fn parse_preview_index(path: &str) -> (result: Option<usize>)
    ensures
        result == preview_index(path@),
{
    let source = text::characters(path);
    let prefix = text::characters("/preview/");
    let suffix = text::characters(".jpg");
    if !text::found_at(&source, 0, &prefix) {
        return None;
    }
    let ghost name = path@.skip(prefix@.len() as int);
    if source.len() - prefix.len() < suffix.len() {
        return None;
    }
    let end: usize = source.len() - suffix.len();
    assert(path@.subrange(end as int, end + suffix@.len()) =~= name.subrange(
        name.len() - suffix@.len(),
        name.len() as int,
    ));
    if !text::found_at(&source, end, &suffix) {
        return None;
    }
    let number = path.substring_char(prefix.len(), end);
    assert(number@ =~= name.take(name.len() - suffix@.len()));
    text::parse_word(number)
}

/// The page finds each preview where its thumbnail points, whatever the video's number.
pub proof fn law_thumbnail_leads_to_preview(index: usize)
    ensures
        thumbnail(index as nat) == "<img alt=\"\" src=\""@ + ("preview/"@ + text::decimal(
            index as nat,
        ) + ".jpg"@) + "\">"@,
        preview_index("/"@ + ("preview/"@ + text::decimal(index as nat) + ".jpg"@)) == Some(index),
{
    reveal_strlit("<img alt=\"\" src=\"preview/");
    reveal_strlit("<img alt=\"\" src=\"");
    reveal_strlit("preview/");
    reveal_strlit("/preview/");
    reveal_strlit("/");
    reveal_strlit(".jpg\">");
    reveal_strlit(".jpg");
    reveal_strlit("\">");
    let digits = text::decimal(index as nat);
    assert(thumbnail(index as nat) =~= "<img alt=\"\" src=\""@ + ("preview/"@ + digits + ".jpg"@)
        + "\">"@);
    let path = "/"@ + ("preview/"@ + digits + ".jpg"@);
    assert(path.subrange(0, "/preview/"@.len() as int) =~= "/preview/"@);
    let name = path.skip("/preview/"@.len() as int);
    assert(name =~= digits + ".jpg"@);
    assert(name.subrange(name.len() - 4, name.len() as int) =~= ".jpg"@);
    assert(name.take(name.len() - 4) =~= digits);
    text::lemma_parsed_decimal(index);
}

/// The answer to a request for something that is not there.
pub open spec fn not_found() -> ResponseView {
    ResponseView {
        status: 404,
        headers: seq![("content-type"@, "text/plain"@)],
        body: response::bytes_of("Not found"@),
    }
}

/// Answers a request for something that is not there.
fn create_not_found_response() -> (result: Response)
    ensures
        result@ == not_found(),
{
    let result = Response::new(404, "Not found".as_bytes_vec()).with_header(
        "content-type",
        "text/plain",
    );
    assert(result@.headers =~= seq![("content-type"@, "text/plain"@)]);
    result
}

/// The answer that shows a preview.
pub open spec fn preview_response(preview: Seq<u8>) -> ResponseView {
    response::typed_response("image/jpeg"@, preview)
}

/// The answer to a request for the page or one of its files.
pub open spec fn file_response(
    html: Seq<char>,
    assets: PickerAssets,
    path: Seq<char>,
) -> ResponseView {
    if path == "/"@ || path == "/main.html"@ {
        response::typed_response("text/html"@, response::bytes_of(html))
    } else if path == "/app.js"@ {
        response::typed_response("text/javascript"@, response::bytes_of(assets.app_js@))
    } else if path == "/main.css"@ {
        response::typed_response("text/css"@, response::bytes_of(assets.main_css@))
    } else if path == "/main.js"@ {
        response::typed_response("text/javascript"@, response::bytes_of(assets.main_js@))
    } else {
        not_found()
    }
}

/// What a request of the picker's page leads to. A preview that was made before is shown again,
/// and one of a video that is not there, or whose path is not Unicode, is not found.
pub open spec fn asset_answer(
    picker: PickerView,
    assets: PickerAssets,
    videos: Seq<VideoView>,
    path: Seq<char>,
) -> AssetAnswerView {
    match preview_index(path) {
        Some(index) => if picker.previews.dom().contains(index) {
            AssetAnswerView::Respond { response: preview_response(picker.previews[index]) }
        } else if index < videos.len() && videos[index as int].path.utf8 {
            AssetAnswerView::MakePreview { index, path: videos[index as int].path.text }
        } else {
            AssetAnswerView::Respond { response: not_found() }
        },
        None => AssetAnswerView::Respond { response: file_response(picker.html, assets, path) },
    }
}

impl Picker {
    /// Opens the picker on a page.
    pub fn create(html: String) -> (result: Picker)
        ensures
            result@ == (PickerView { html: html@, previews: Map::empty() }),
    {
        let result = Picker { html, preview_cache: HashMap::new() };
        assert(result@.previews =~= Map::empty());
        result
    }

    /// Turns to another page, forgets the previews, and gives the script that shows the other
    /// videos in the open picker.
    pub fn set_videos(&mut self, html: String, video_folder: &str, tiles: &str) -> (result: String)
        ensures
            final(self)@ == (PickerView { html: html@, previews: Map::empty() }),
            result@ == picker::set_videos_script(video_folder@, tiles@),
            result@ == "window.paperwall.setVideos("@ + json::quoted(video_folder@) + ", "@
                + json::quoted(tiles@) + ")"@,
    {
        self.html = html;
        self.preview_cache.clear();
        assert(self@.previews =~= Map::empty());
        picker::create_set_videos_script(video_folder, tiles)
    }

    /// Answers a request for the page or one of its files.
    fn create_file_response(&self, assets: &PickerAssets, path: &str) -> (result: Response)
        ensures
            result@ == file_response(self@.html, *assets, path@),
    {
        if text::same_text(path, "/") || text::same_text(path, "/main.html") {
            create_response("text/html", self.html.as_bytes_vec())
        } else if text::same_text(path, "/app.js") {
            create_response("text/javascript", assets.app_js.as_bytes_vec())
        } else if text::same_text(path, "/main.css") {
            create_response("text/css", assets.main_css.as_bytes_vec())
        } else if text::same_text(path, "/main.js") {
            create_response("text/javascript", assets.main_js.as_bytes_vec())
        } else {
            create_not_found_response()
        }
    }

    /// Answers a request of the picker's page, or asks for the preview that it needs.
    pub fn create_asset_response(
        &self,
        assets: &PickerAssets,
        videos: &Vec<Video>,
        path: &str,
    ) -> (result: AssetAnswer)
        ensures
            result@ == asset_answer(self@, *assets, videos::video_views(videos@), path@),
            result matches AssetAnswer::MakePreview { index, path: made } ==> {
                &&& preview_index(path@) == Some(index)
                &&& !self@.previews.dom().contains(index)
                &&& index < videos@.len()
                &&& videos@[index as int]@.path.utf8
                &&& made@ == videos@[index as int]@.path.text
            },
            preview_index(path@) matches Some(index) ==> {
                if self@.previews.dom().contains(index) {
                    result matches AssetAnswer::Respond { response } && response@.status == 200
                        && response@.body == self@.previews[index]
                } else if index < videos@.len() && videos@[index as int]@.path.utf8 {
                    result is MakePreview
                } else {
                    result matches AssetAnswer::Respond { response } && response@.status == 404
                }
            },
            preview_index(path@) is None ==> result is Respond,
    {
        match parse_preview_index(path) {
            None => AssetAnswer::Respond { response: self.create_file_response(assets, path) },
            Some(index) => {
                match self.preview_cache.get(&index) {
                    Some(preview) => {
                        let body = preview.clone();
                        assert(body@ =~= preview@);
                        AssetAnswer::Respond { response: create_response("image/jpeg", body) }
                    },
                    None => if index < videos.len() && videos[index].path.utf8 {
                        AssetAnswer::MakePreview { index, path: videos[index].path.text.clone() }
                    } else {
                        AssetAnswer::Respond { response: create_not_found_response() }
                    },
                }
            },
        }
    }

    /// Answers the request that a preview was made for. A preview that could not be made is not
    /// found; one that was is kept.
    pub fn create_preview_response(&mut self, index: usize, preview: Result<Vec<u8>, Error>) -> (
    result: Response)
        ensures
            match preview {
                Ok(bytes) => {
                    &&& result@ == preview_response(bytes@)
                    &&& result@.status == 200
                    &&& result@.headers == seq![("content-type"@, "image/jpeg"@)]
                    &&& result@.body == bytes@
                    &&& final(self)@ == (PickerView {
                        previews: old(self)@.previews.insert(index, bytes@),
                        ..old(self)@
                    })
                },
                Err(_) => result@ == not_found() && result@.status == 404 && final(self)@ == old(
                    self,
                )@,
            },
    {
        match preview {
            Ok(bytes) => {
                let body = bytes.clone();
                assert(body@ =~= bytes@);
                self.preview_cache.insert(index, bytes);
                assert(self@.previews =~= old(self)@.previews.insert(index, bytes@));
                create_response("image/jpeg", body)
            },
            Err(_) => create_not_found_response(),
        }
    }
}

/// A preview is made once: after it is kept, the same request is answered with it.
pub proof fn law_preview_is_made_once(
    picker: PickerView,
    assets: PickerAssets,
    videos: Seq<VideoView>,
    path: Seq<char>,
    preview: Seq<u8>,
)
    requires
        preview_index(path) is Some,
    ensures
        asset_answer(
            PickerView {
                previews: picker.previews.insert(preview_index(path)->0, preview),
                ..picker
            },
            assets,
            videos,
            path,
        ) == (AssetAnswerView::Respond { response: preview_response(preview) }),
{
}

/// No preview of an earlier folder is shown: after other videos are set, a preview is either
/// made anew or not found.
pub proof fn law_other_videos_have_other_previews(
    html: Seq<char>,
    assets: PickerAssets,
    videos: Seq<VideoView>,
    path: Seq<char>,
)
    requires
        preview_index(path) is Some,
    ensures
        asset_answer(PickerView { html, previews: Map::empty() }, assets, videos, path) matches
            AssetAnswerView::Respond { response } ==> response == not_found(),
{
}

/// A point or a span of media time: `value` units, of which `timescale` are a second.
#[derive(Clone, Copy, Debug, PartialEq, Eq, Structural)]
pub struct MediaTime {
    pub value: i64,
    pub timescale: i32,
}

/// The frame in the middle of a video, counted down where there are two.
pub fn middle_frame(frame_count: u64) -> (result: u64)
    ensures
        result == frame_count as int / 2,
{
    frame_count / 2
}

/// When a video of some duration is at its middle: at the middle frame, if its time is known,
/// and else at half the duration, counted down. A video without a duration is taken at its
/// start.
pub open spec fn preview_time(duration: MediaTime, middle_frame: Option<i64>) -> MediaTime {
    if duration.value <= 0 || duration.timescale <= 0 {
        MediaTime { value: 0, timescale: 1 }
    } else {
        match middle_frame {
            Some(value) => MediaTime { value, timescale: duration.timescale },
            None => MediaTime {
                value: (duration.value / 2) as i64,
                timescale: duration.timescale,
            },
        }
    }
}

/// Chooses when in a video its preview is taken. `middle_frame` is the time of the middle frame
/// in the duration's units, if the frame rate is known.
pub fn create_preview_time(duration: MediaTime, middle_frame: Option<i64>) -> (result: MediaTime)
    ensures
        result == preview_time(duration, middle_frame),
        if duration.value <= 0 || duration.timescale <= 0 {
            result.value == 0 && result.timescale == 1
        } else {
            &&& result.timescale == duration.timescale
            &&& middle_frame matches Some(value) ==> result.value == value
            &&& middle_frame is None ==> result.value == duration.value as int / 2
        },
{
    if duration.value <= 0 || duration.timescale <= 0 {
        return MediaTime { value: 0, timescale: 1 };
    }
    match middle_frame {
        Some(value) => MediaTime { value, timescale: duration.timescale },
        None => MediaTime { value: duration.value / 2, timescale: duration.timescale },
    }
}

/// What a media layer plays, muted and over and over.
#[derive(Debug)]
pub struct Playback {
    pub path: String,
    pub gravity: VideoGravity,
}

/// The wallpaper: what its media layer plays.
#[derive(Debug)]
pub struct Wallpaper {
    pub playback: Playback,
}

/// The message for a path that the media layer cannot be given.
pub open spec fn not_utf8() -> Seq<char> {
    "Video path is not UTF-8"@
}

/// Plans to play the video at `path`. A path that is not Unicode cannot be played.
fn plan_playback(path: &FilePath, scaling_mode: ScalingMode) -> (result: Result<Playback, Error>)
    ensures
        match result {
            Ok(playback) => path@.utf8 && playback.path@ == path@.text && playback.gravity
                == scaling_mode.gravity(),
            Err(error) => !path@.utf8 && error@ == not_utf8(),
        },
{
    if !path.utf8 {
        return Err(Error::new("Video path is not UTF-8"));
    }
    Ok(Playback { path: path.text.clone(), gravity: scaling_mode.video_gravity() })
}

impl Wallpaper {
    /// A wallpaper that plays the video at `path`.
    pub fn create(path: &FilePath, scaling_mode: ScalingMode) -> (result: Result<Wallpaper, Error>)
        ensures
            match result {
                Ok(wallpaper) => {
                    &&& path@.utf8
                    &&& wallpaper.playback.path@ == path@.text
                    &&& wallpaper.playback.gravity == scaling_mode.gravity()
                },
                Err(error) => !path@.utf8 && error@ == not_utf8(),
            },
    {
        match plan_playback(path, scaling_mode) {
            Ok(playback) => Ok(Wallpaper { playback }),
            Err(error) => Err(error),
        }
    }

    /// Lays the video out in another mode.
    pub fn set_scaling_mode(&mut self, scaling_mode: ScalingMode)
        ensures
            final(self).playback.path == old(self).playback.path,
            final(self).playback.gravity == scaling_mode.gravity(),
    {
        self.playback.gravity = scaling_mode.video_gravity();
    }

    /// Turns to the video at `path`. A path that is not Unicode changes nothing.
    pub fn set_video(&mut self, path: &FilePath, scaling_mode: ScalingMode) -> (result: Result<
        (),
        Error,
    >)
        ensures
            match result {
                Ok(()) => {
                    &&& path@.utf8
                    &&& final(self).playback.path@ == path@.text
                    &&& final(self).playback.gravity == scaling_mode.gravity()
                },
                Err(error) => !path@.utf8 && error@ == not_utf8() && *final(self) == *old(self),
            },
    {
        match plan_playback(path, scaling_mode) {
            Ok(playback) => {
                self.playback = playback;
                Ok(())
            },
            Err(error) => Err(error),
        }
    }
}

/// A preview is asked for under `/preview/`, a machine word and `.jpg`, and under nothing else.
pub proof fn law_preview_paths(path: Seq<char>, word: Seq<char>)
    ensures
        preview_index("/preview/"@ + word + ".jpg"@) == text::parsed_word(word),
        preview_index(path) is Some ==> text::begins_with(path, "/preview/"@) && text::ends_with(
            path,
            ".jpg"@,
        ),
{
    reveal_strlit("/preview/");
    reveal_strlit(".jpg");
    let whole = "/preview/"@ + word + ".jpg"@;
    assert(whole.subrange(0, 9) =~= "/preview/"@);
    let name = whole.skip(9);
    assert(name =~= word + ".jpg"@);
    assert(name.subrange(name.len() - 4, name.len() as int) =~= ".jpg"@);
    assert(name.take(name.len() - 4) =~= word);
    if preview_index(path) is Some {
        let rest = path.skip(9);
        assert(rest.subrange(rest.len() - 4, rest.len() as int) =~= path.subrange(
            path.len() - 4,
            path.len() as int,
        ));
    }
}

/// The preview of a video is made of that video: a request for the video at `index`, of which none
/// is kept, asks for a preview of the file at its path, and of no other.
pub proof fn law_preview_is_made_of_its_video(
    picker: PickerView,
    assets: PickerAssets,
    videos: Seq<VideoView>,
    path: Seq<char>,
    index: usize,
)
    requires
        preview_index(path) == Some(index),
        !picker.previews.dom().contains(index),
    ensures
        index < videos.len() && videos[index as int].path.utf8 ==> asset_answer(
            picker,
            assets,
            videos,
            path,
        ) == (AssetAnswerView::MakePreview { index, path: videos[index as int].path.text }),
        index >= videos.len() || !videos[index as int].path.utf8 ==> (asset_answer(
            picker,
            assets,
            videos,
            path,
        ) matches AssetAnswerView::Respond { response } && response.status == 404),
{
}

/// Videos at different paths have previews made of different files.
pub proof fn law_previews_are_told_apart(
    picker: PickerView,
    assets: PickerAssets,
    videos: Seq<VideoView>,
    left: Seq<char>,
    right: Seq<char>,
)
    requires
        asset_answer(picker, assets, videos, left) is MakePreview,
        asset_answer(picker, assets, videos, right) is MakePreview,
        videos[preview_index(left)->0 as int].path.text
            != videos[preview_index(right)->0 as int].path.text,
    ensures
        asset_answer(picker, assets, videos, left)->path != asset_answer(
            picker,
            assets,
            videos,
            right,
        )->path,
{
}

/// What the picker answers with other than previews: its page under two paths, its three files
/// under theirs, and nothing else.
pub proof fn law_picker_answers_its_files(
    picker: PickerView,
    assets: PickerAssets,
    videos: Seq<VideoView>,
    path: Seq<char>,
)
    requires
        preview_index(path) is None,
    ensures
        asset_answer(picker, assets, videos, path) == (AssetAnswerView::Respond {
            response: if path == "/"@ || path == "/main.html"@ {
                response::typed_response(
                    "text/html"@,
                    vstd::utf8::encode_utf8(picker.html),
                )
            } else if path == "/app.js"@ {
                response::typed_response(
                    "text/javascript"@,
                    vstd::utf8::encode_utf8(assets.app_js@),
                )
            } else if path == "/main.css"@ {
                response::typed_response("text/css"@, vstd::utf8::encode_utf8(assets.main_css@))
            } else if path == "/main.js"@ {
                response::typed_response(
                    "text/javascript"@,
                    vstd::utf8::encode_utf8(assets.main_js@),
                )
            } else {
                ResponseView {
                    status: 404,
                    headers: seq![("content-type"@, "text/plain"@)],
                    body: vstd::utf8::encode_utf8("Not found"@),
                }
            },
        }),
{
}

/// A preview that is kept is shown as it was made, as a picture.
pub proof fn law_kept_preview_is_shown(
    picker: PickerView,
    assets: PickerAssets,
    videos: Seq<VideoView>,
    path: Seq<char>,
    index: usize,
)
    requires
        preview_index(path) == Some(index),
        picker.previews.dom().contains(index),
    ensures
        asset_answer(picker, assets, videos, path) == (AssetAnswerView::Respond {
            response: ResponseView {
                status: 200,
                headers: seq![("content-type"@, "image/jpeg"@)],
                body: picker.previews[index],
            },
        }),
{
}

/// Different videos have different thumbnails.
pub proof fn law_thumbnails_differ(left: nat, right: nat)
    requires
        left != right,
    ensures
        thumbnail(left) != thumbnail(right),
{
    if thumbnail(left) == thumbnail(right) {
        text::lemma_enclosed_injective(
            "<img alt=\"\" src=\"preview/"@,
            text::decimal(left),
            text::decimal(right),
            ".jpg\">"@,
        );
        text::lemma_decimal_injective(left, right);
    }
}

/// A preview is taken at the middle frame where its time is known, and else at the middle of the
/// duration, to half a unit; where there is no duration, at the start.
pub proof fn law_preview_is_taken_in_the_middle(duration: MediaTime, middle_frame: Option<i64>)
    ensures
        ({
            let time = preview_time(duration, middle_frame);
            if duration.value > 0 && duration.timescale > 0 {
                &&& time.timescale == duration.timescale
                &&& middle_frame matches Some(value) ==> time.value == value
                &&& middle_frame is None ==> 2 * time.value <= duration.value <= 2 * time.value + 1
            } else {
                time.value == 0 && time.timescale == 1
            }
        }),
{
}

} // verus!
