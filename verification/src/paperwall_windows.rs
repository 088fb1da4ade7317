//! The app in one piece for Windows, whose pages know videos by their paths and scaling modes by
//! their names.
use crate::error::Error;
use crate::paperwall_windows::listing::{collect_videos, sort_by_points, ListedPath};
use crate::paths::{is_video_path, FilePath};
use crate::response::{create_html_response, create_text_response, Response, ResponseView};
use crate::scaling::ScalingMode;
use crate::urls::{create_file_url, create_video_url};
use crate::videos::{Video, VideoView};
use crate::windows::{enclosed, Wallpaper};
use crate::{html, json, paths, response, text, urls, windows};
use vstd::prelude::*;

pub mod app;
pub mod listing;

verus! {

/// The name of the mode in which a video covers the screen.
pub const FILL_SCREEN: &'static str = "Fill Screen";

/// The name of the mode in which a video is shown whole.
pub const FIT_TO_SCREEN: &'static str = "Fit to Screen";

/// Whether `text` names a scaling mode.
pub open spec fn names_scaling_mode(text: Seq<char>) -> bool {
    text == FILL_SCREEN@ || text == FIT_TO_SCREEN@
}

/// Tells whether a text names a scaling mode.
pub fn is_scaling_mode(scaling_mode: &str) -> (result: bool)
    ensures
        result == names_scaling_mode(scaling_mode@),
        result == (scaling_mode@ == "Fill Screen"@ || scaling_mode@ == "Fit to Screen"@),
{
    text::same_text(scaling_mode, FILL_SCREEN) || text::same_text(scaling_mode, FIT_TO_SCREEN)
}

/// The style sheet's `object-fit` value for a named mode.
pub open spec fn object_fit_text(scaling_mode: Seq<char>) -> Seq<char> {
    if scaling_mode == FILL_SCREEN@ {
        "cover"@
    } else {
        "contain"@
    }
}

/// The style sheet's `object-fit` value for a named mode.
pub fn object_fit(scaling_mode: &str) -> (result: &'static str)
    ensures
        result@ == object_fit_text(scaling_mode@),
        scaling_mode@ == "Fill Screen"@ ==> result@ == "cover"@,
        scaling_mode@ != "Fill Screen"@ ==> result@ == "contain"@,
{
    if text::same_text(scaling_mode, FILL_SCREEN) {
        return "cover";
    }
    "contain"
}

/// Every scaling mode has a name here, and the name means what the mode does.
pub proof fn law_modes_have_names(scaling_mode: ScalingMode)
    ensures
        names_scaling_mode(scaling_mode.label_text()),
        object_fit_text(scaling_mode.label_text()) == scaling_mode.object_fit_text(),
{
    reveal_strlit("Fill Screen");
    reveal_strlit("Fit to Screen");
    assert("Fill Screen"@.len() != "Fit to Screen"@.len());
}

/// Escapes the characters that HTML reserves, by replacing one after the other.
pub fn escape_html(text: &str) -> (result: String)
    ensures
        result@ == html::escaped(text@),
{
    proof {
        reveal_strlit("&");
        reveal_strlit("\"");
        reveal_strlit("<");
        reveal_strlit(">");
        html::law_replaced_in_turn_is_escaped(text@);
    }
    let ampersands = text::replace(text, "&", "&amp;");
    let quotes = text::replace(&ampersands, "\"", "&quot;");
    let openings = text::replace(&quotes, "<", "&lt;");
    text::replace(&openings, ">", "&gt;")
}

/// Tells whether a path leads to a video, by the extension of its file name.
pub fn is_mp4(path: &FilePath) -> (result: bool)
    ensures
        result == paths::is_video_name(path@.file_name),
{
    is_video_path(path)
}

/// What is kept between two runs.
#[derive(Debug)]
pub struct Settings {
    pub video_folder: String,
    pub scaling_mode: String,
}

/// The model of the `Settings`.
#[verifier::ext_equal]
pub struct SettingsView {
    pub video_folder: Seq<char>,
    pub scaling_mode: Seq<char>,
}

impl View for Settings {
    type V = SettingsView;

    open spec fn view(&self) -> SettingsView {
        SettingsView { video_folder: self.video_folder@, scaling_mode: self.scaling_mode@ }
    }
}

impl Settings {
    /// Another copy of the settings.
    pub fn copy(&self) -> (result: Settings)
        ensures
            result@ == self@,
    {
        Settings {
            video_folder: self.video_folder.clone(),
            scaling_mode: self.scaling_mode.clone(),
        }
    }
}

/// The folder that videos are taken from at first, by the value of `USERPROFILE`.
pub fn default_video_folder(user_profile: Option<&str>) -> (result: Result<String, Error>)
    ensures
        match user_profile {
            Some(folder) => result matches Ok(path) && path@ == paths::joined(
                '\\',
                folder@,
                "Videos"@,
            ),
            None => result matches Err(error) && error@ == "USERPROFILE is not set"@,
        },
{
    match user_profile {
        Some(folder) => Ok(paths::join('\\', folder, "Videos")),
        None => Err(Error::new("USERPROFILE is not set")),
    }
}

/// Where the settings are kept, by the value of `LOCALAPPDATA`.
pub fn create_settings_path(local_app_data: Option<&str>) -> (result: Result<String, Error>)
    ensures
        match local_app_data {
            Some(folder) => result matches Ok(path) && path@ == windows::settings_path(folder@)
                && path@ == paths::joined(
                '\\',
                paths::joined('\\', folder@, "paperwall"@),
                "settings.json"@,
            ),
            None => result matches Err(error) && error@ == "LOCALAPPDATA is not set"@,
        },
{
    windows::read_settings_path(local_app_data)
}

/// Stored settings as they are taken over: a name that is no mode's is exchanged for the first
/// mode's.
pub open spec fn corrected(settings: SettingsView) -> SettingsView {
    if names_scaling_mode(settings.scaling_mode) {
        settings
    } else {
        SettingsView { scaling_mode: FILL_SCREEN@, ..settings }
    }
}

/// The settings to start with: those that are stored, or else those of a first run.
pub fn create_settings(stored: Option<Settings>, user_profile: Option<&str>) -> (result: Result<
    Settings,
    Error,
>)
    ensures
        match (stored, user_profile) {
            (Some(settings), _) => result matches Ok(taken) && taken@ == corrected(settings@)
                && taken@.video_folder == settings@.video_folder && taken@.scaling_mode == (if (
            settings@.scaling_mode == "Fit to Screen"@) {
                "Fit to Screen"@
            } else {
                "Fill Screen"@
            }),
            (None, Some(folder)) => result matches Ok(taken) && taken@ == (SettingsView {
                video_folder: paths::joined('\\', folder@, "Videos"@),
                scaling_mode: FILL_SCREEN@,
            }),
            (None, None) => result matches Err(error) && error@ == "USERPROFILE is not set"@,
        },
{
    if let Some(settings) = stored {
        if !is_scaling_mode(&settings.scaling_mode) {
            return Ok(
                Settings {
                    video_folder: settings.video_folder,
                    scaling_mode: FILL_SCREEN.to_owned(),
                },
            );
        }
        return Ok(settings);
    }
    match default_video_folder(user_profile) {
        Ok(video_folder) => Ok(Settings { video_folder, scaling_mode: FILL_SCREEN.to_owned() }),
        Err(error) => Err(error),
    }
}

/// The entry of one mode in the list of modes, where one of them is chosen.
pub open spec fn mode_option(option: Seq<char>, chosen: Seq<char>) -> Seq<char> {
    let selected = if option == chosen {
        " selected"@
    } else {
        ""@
    };
    "<option"@ + selected + ">"@ + html::escaped(option) + "</option>"@
}

/// The entry of one mode in the list of modes.
fn create_mode_option(option: &str, chosen: &str) -> (result: String)
    ensures
        result@ == mode_option(option@, chosen@),
{
    let selected = if text::same_text(option, chosen) {
        " selected"
    } else {
        ""
    };
    let mut result = "<option".to_owned();
    result.append(selected);
    result.append(">");
    result.append(&escape_html(option));
    result.append("</option>");
    result
}

/// The list of modes, where one of them may be chosen.
pub open spec fn mode_options(chosen: Seq<char>) -> Seq<char> {
    mode_option(FILL_SCREEN@, chosen) + mode_option(FIT_TO_SCREEN@, chosen)
}

/// Lists the scaling modes, with the one of this name selected.
pub fn create_scaling_mode_options(scaling_mode: &str) -> (result: String)
    ensures
        result@ == mode_options(scaling_mode@),
        scaling_mode@ == "Fill Screen"@ ==> result@ == "<option"@ + " selected"@ + ">"@
            + html::escaped("Fill Screen"@) + "</option>"@ + ("<option"@ + ""@ + ">"@
            + html::escaped("Fit to Screen"@) + "</option>"@),
        scaling_mode@ == "Fit to Screen"@ ==> result@ == "<option"@ + ""@ + ">"@ + html::escaped(
            "Fill Screen"@,
        ) + "</option>"@ + ("<option"@ + " selected"@ + ">"@ + html::escaped("Fit to Screen"@)
            + "</option>"@),
        scaling_mode@ != "Fill Screen"@ && scaling_mode@ != "Fit to Screen"@ ==> result@
            == "<option"@ + ""@ + ">"@ + html::escaped("Fill Screen"@) + "</option>"@ + (
        "<option"@ + ""@ + ">"@ + html::escaped("Fit to Screen"@) + "</option>"@),
{
    proof {
        lemma_modes_differ();
    }
    let mut result = create_mode_option(FILL_SCREEN, scaling_mode);
    result.append(&create_mode_option(FIT_TO_SCREEN, scaling_mode));
    result
}

/// The picker's page, with its style sheet, its script and its videos in place.
pub open spec fn picker_html(
    template: Seq<char>,
    main_css: Seq<char>,
    main_js: Seq<char>,
    settings: SettingsView,
    tiles: Seq<char>,
) -> Seq<char> {
    let styled = text::replaced(
        template,
        "<link rel=\"stylesheet\" href=\"main.css\">"@,
        "<style>"@ + main_css + "</style>"@,
    );
    let scripted = text::replaced(
        styled,
        "<script src=\"main.js\"></script>"@,
        "<script>"@ + main_js + "</script>"@,
    );
    let named = text::replaced(
        scripted,
        "{{video_folder}}"@,
        html::escaped(settings.video_folder),
    );
    let listed = text::replaced(
        named,
        "{{scaling_mode_options}}"@,
        mode_options(settings.scaling_mode),
    );
    text::replaced(listed, "{{tiles}}"@, tiles)
}

/// The picker's page, made of its template.
pub fn create_picker_html(
    template: &str,
    main_css: &str,
    main_js: &str,
    settings: &Settings,
    tiles: &str,
) -> (result: String)
    ensures
        result@ == picker_html(template@, main_css@, main_js@, settings@, tiles@),
        result@ == text::replaced(
            text::replaced(
                text::replaced(
                    text::replaced(
                        text::replaced(
                            template@,
                            "<link rel=\"stylesheet\" href=\"main.css\">"@,
                            "<style>"@ + main_css@ + "</style>"@,
                        ),
                        "<script src=\"main.js\"></script>"@,
                        "<script>"@ + main_js@ + "</script>"@,
                    ),
                    "{{video_folder}}"@,
                    html::escaped(settings@.video_folder),
                ),
                "{{scaling_mode_options}}"@,
                mode_options(settings@.scaling_mode),
            ),
            "{{tiles}}"@,
            tiles@,
        ),
{
    proof {
        reveal_strlit("<link rel=\"stylesheet\" href=\"main.css\">");
        reveal_strlit("<script src=\"main.js\"></script>");
        reveal_strlit("{{video_folder}}");
        reveal_strlit("{{scaling_mode_options}}");
        reveal_strlit("{{tiles}}");
    }
    let styled = text::replace(
        template,
        "<link rel=\"stylesheet\" href=\"main.css\">",
        &enclosed("<style>", main_css, "</style>"),
    );
    let scripted = text::replace(
        &styled,
        "<script src=\"main.js\"></script>",
        &enclosed("<script>", main_js, "</script>"),
    );
    let named = text::replace(
        &scripted,
        "{{video_folder}}",
        &escape_html(&settings.video_folder),
    );
    let listed = text::replace(
        &named,
        "{{scaling_mode_options}}",
        &create_scaling_mode_options(&settings.scaling_mode),
    );
    text::replace(&listed, "{{tiles}}", tiles)
}

/// What the file system says of a folder of videos.
#[derive(Debug)]
pub enum VideoListing {
    /// There is no such folder.
    NotFolder,
    /// The folder could not be listed.
    Unreadable { error: Error },
    /// The paths of its entries, all in this one folder. An entry that could not be read has
    /// none.
    Entries { entries: Vec<Option<ListedPath>> },
}

/// The videos that a folder shows, in the order of their code points.
pub open spec fn shown_videos(entries: Seq<Option<ListedPath>>) -> Seq<VideoView> {
    listing::videos_alone(listing::by_points(listing::videos_of(entries)))
}

/// The button of one video.
pub open spec fn tile(video: VideoView, url: Seq<char>) -> Seq<char> {
    "<button\n\t\t\t\taria-label=\""@ + html::escaped(video.name)
        + "\"\n\t\t\t\taria-pressed=\"false\"\n\t\t\t\tclass=\"tile\"\n\t\t\t\tdata-video-path=\""@
        + html::escaped(video.path.text) + "\"\n\t\t\t\ttitle=\""@ + html::escaped(video.name)
        + "\"\n\t\t\t\ttype=\"button\"\n\t\t\t>\n\t\t\t\t<video muted preload=\"metadata\" src=\""@
        + html::escaped(url) + "\"></video>\n\t\t\t</button>"@
}

/// The button of the video at `url`.
pub fn create_tile(video: &Video, url: &str) -> (result: String)
    ensures
        result@ == tile(video@, url@),
        result@ == "<button\n\t\t\t\taria-label=\""@ + html::escaped(video@.name)
            + "\"\n\t\t\t\taria-pressed=\"false\"\n\t\t\t\tclass=\"tile\"\n\t\t\t\tdata-video-path=\""@
            + html::escaped(video@.path.text) + "\"\n\t\t\t\ttitle=\""@ + html::escaped(video@.name)
            + "\"\n\t\t\t\ttype=\"button\"\n\t\t\t>\n\t\t\t\t<video muted preload=\"metadata\" src=\""@
            + html::escaped(url@) + "\"></video>\n\t\t\t</button>"@,
{
    let name = escape_html(&video.name);
    let mut result = "<button\n\t\t\t\taria-label=\"".to_owned();
    result.append(&name);
    result.append(
        "\"\n\t\t\t\taria-pressed=\"false\"\n\t\t\t\tclass=\"tile\"\n\t\t\t\tdata-video-path=\"",
    );
    result.append(&escape_html(&video.path.text));
    result.append("\"\n\t\t\t\ttitle=\"");
    result.append(&name);
    result.append(
        "\"\n\t\t\t\ttype=\"button\"\n\t\t\t>\n\t\t\t\t<video muted preload=\"metadata\" src=\"",
    );
    result.append(&escape_html(url));
    result.append("\"></video>\n\t\t\t</button>");
    result
}

/// The buttons of the first videos, each with its URL.
pub open spec fn tiles_text(videos: Seq<VideoView>, urls: Seq<Seq<char>>) -> Seq<char>
    decreases urls.len(),
{
    if urls.len() == 0 {
        Seq::empty()
    } else {
        tiles_text(videos, urls.drop_last()) + tile(videos[urls.len() - 1], urls.last())
    }
}

/// Whether `urls` are those of the first videos.
pub open spec fn are_urls(videos: Seq<VideoView>, urls: Seq<Seq<char>>) -> bool {
    &&& urls.len() <= videos.len()
    &&& forall|i: int|
        0 <= i < urls.len() ==> urls::is_file_url((#[trigger] videos[i]).path, urls[i])
}

/// Whether `text` is the buttons of some videos.
pub open spec fn are_tiles(videos: Seq<VideoView>, text: Seq<char>) -> bool {
    exists|urls: Seq<Seq<char>>|
        {
            &&& urls.len() == videos.len()
            &&& #[trigger] are_urls(videos, urls)
            &&& text == tiles_text(videos, urls)
        }
}

/// Whether `message` is about the first of some videos that has no URL.
pub open spec fn is_tiles_failure(videos: Seq<VideoView>, message: Seq<char>) -> bool {
    exists|urls: Seq<Seq<char>>|
        {
            &&& urls.len() < videos.len()
            &&& #[trigger] are_urls(videos, urls)
            &&& urls::lacks_file_url(videos[urls.len() as int].path)
            &&& message == urls::file_url_failure(videos[urls.len() as int].path.text)
        }
}

/// The buttons of the videos of a folder, in the order of their paths. A folder that is missing has none, an
/// entry that cannot be read is passed over, and the first video without a URL is the outcome
/// of the whole.
pub fn create_tiles(listing: VideoListing) -> (result: Result<String, Error>)
    ensures
        match listing {
            VideoListing::NotFolder => result matches Ok(tiles) && tiles@ == ""@,
            VideoListing::Unreadable { error } => result == Err::<String, Error>(error),
            VideoListing::Entries { entries } => match result {
                Ok(tiles) => are_tiles(shown_videos(entries@), tiles@),
                Err(error) => is_tiles_failure(shown_videos(entries@), error@),
            },
        },
        listing matches VideoListing::Entries { entries } ==> match result {
            Ok(tiles) => are_tiles(
                listing::videos_alone(listing::by_points(listing::videos_of(entries@))),
                tiles@,
            ),
            Err(error) => is_tiles_failure(
                listing::videos_alone(listing::by_points(listing::videos_of(entries@))),
                error@,
            ),
        },
{
    let entries = match listing {
        VideoListing::NotFolder => {
            return Ok("".to_owned());
        },
        VideoListing::Unreadable { error } => {
            return Err(error);
        },
        VideoListing::Entries { entries } => entries,
    };
    let videos = sort_by_points(collect_videos(&entries));
    let ghost views = listing::videos_alone(listing::listed_views(videos@));
    let ghost mut urls: Seq<Seq<char>> = Seq::empty();
    let mut tiles = String::new();
    let mut index: usize = 0;
    while index < videos.len()
        invariant
            index <= videos@.len(),
            listing == (VideoListing::Entries { entries }),
            views == listing::videos_alone(listing::listed_views(videos@)),
            views == shown_videos(entries@),
            urls.len() == index,
            are_urls(views, urls),
            tiles@ == tiles_text(views, urls),
        decreases videos@.len() - index,
    {
        let video = &videos[index].video;
        assert(views[index as int] == video@);
        match create_file_url(&video.path) {
            Err(error) => {
                return Err(error);
            },
            Ok(url) => {
                proof {
                    let more = urls.push(url@);
                    assert(more.drop_last() =~= urls);
                    assert forall|i: int| 0 <= i < more.len() implies urls::is_file_url(
                        (#[trigger] views[i]).path,
                        more[i],
                    ) by {
                        if i < urls.len() {
                            assert(more[i] == urls[i]);
                        }
                    }
                    urls = more;
                }
                tiles.append(&create_tile(video, &url));
            },
        }
        index = index + 1;
    }
    Ok(tiles)
}

/// The buttons of some videos do not depend on those behind them.
proof fn lemma_tiles_of_first(videos: Seq<VideoView>, urls: Seq<Seq<char>>, count: int)
    requires
        urls.len() <= count <= videos.len(),
    ensures
        tiles_text(videos.take(count), urls) == tiles_text(videos, urls),
    decreases urls.len(),
{
    if urls.len() > 0 {
        lemma_tiles_of_first(videos, urls.drop_last(), count);
    }
}

/// The buttons with the first URLs begin those with all.
proof fn lemma_tiles_begin(videos: Seq<VideoView>, urls: Seq<Seq<char>>, count: int)
    requires
        0 <= count <= urls.len(),
    ensures
        text::begins_with(tiles_text(videos, urls), tiles_text(videos, urls.take(count))),
    decreases urls.len(),
{
    let all = tiles_text(videos, urls);
    let part = tiles_text(videos, urls.take(count));
    if count == urls.len() {
        assert(urls.take(count) =~= urls);
        assert(all.subrange(0, all.len() as int) =~= all);
    } else {
        let shorter = tiles_text(videos, urls.drop_last());
        assert(urls.drop_last().take(count) =~= urls.take(count));
        lemma_tiles_begin(videos, urls.drop_last(), count);
        assert(all.subrange(0, part.len() as int) =~= shorter.subrange(0, part.len() as int));
    }
}

/// With one row of URLs, the buttons of the first videos begin those of all.
pub proof fn law_tiles_with_urls_begin_all(
    videos: Seq<VideoView>,
    urls: Seq<Seq<char>>,
    count: int,
)
    requires
        0 <= count <= urls.len() <= videos.len(),
    ensures
        text::begins_with(
            tiles_text(videos, urls),
            tiles_text(videos.take(count), urls.take(count)),
        ),
{
    lemma_tiles_of_first(videos, urls.take(count), count);
    lemma_tiles_begin(videos, urls, count);
}

/// The buttons of the first videos begin those of all.
pub proof fn law_first_tiles_begin_all(videos: Seq<VideoView>, all: Seq<char>, count: int)
    requires
        are_tiles(videos, all),
        0 <= count <= videos.len(),
    ensures
        exists|part: Seq<char>| #[trigger]
            are_tiles(videos.take(count), part) && text::begins_with(all, part),
{
    let found = choose|found: Seq<Seq<char>>|
        {
            &&& found.len() == videos.len()
            &&& #[trigger] are_urls(videos, found)
            &&& all == tiles_text(videos, found)
        };
    let first = found.take(count);
    let few = videos.take(count);
    assert(are_urls(few, first)) by {
        assert forall|i: int| 0 <= i < count implies urls::is_file_url(
            (#[trigger] few[i]).path,
            first[i],
        ) by {
            assert(few[i] == videos[i]);
        }
    }
    law_tiles_with_urls_begin_all(videos, found, count);
    assert(are_tiles(few, tiles_text(few, first)));
}

/// The script that shows the videos of another folder in the open picker.
pub open spec fn picker_folder_script(video_folder: Seq<char>, tiles: Seq<char>) -> Seq<char> {
    "window.paperwall.setVideoFolder("@ + json::quoted(video_folder) + ", "@ + json::quoted(tiles)
        + ");"@
}

/// The script that shows the videos of another folder in the open picker.
pub fn set_picker_folder(video_folder: &str, tiles: &str) -> (result: String)
    ensures
        result@ == picker_folder_script(video_folder@, tiles@),
        result@ == "window.paperwall.setVideoFolder("@ + json::quoted(video_folder@) + ", "@
            + json::quoted(tiles@) + ");"@,
{
    let mut script = "window.paperwall.setVideoFolder(".to_owned();
    script.append(&json::json_string(video_folder));
    script.append(", ");
    script.append(&json::json_string(tiles));
    script.append(");");
    script
}

/// The script that changes the scaling mode of the open wallpaper.
pub fn set_wallpaper_scaling_mode(scaling_mode: &str) -> (result: String)
    ensures
        result@ == "window.paperwall.setScalingMode("@ + json::quoted(scaling_mode@) + ");"@,
{
    enclosed("window.paperwall.setScalingMode(", &json::json_string(scaling_mode), ");")
}

/// Turns the wallpaper to another video, and gives the script that makes the page load it.
pub fn set_wallpaper_video(wallpaper: &mut Wallpaper, video_path: &FilePath) -> (result: String)
    requires
        old(wallpaper).version < u64::MAX,
    ensures
        final(wallpaper).video_path@ == video_path@,
        final(wallpaper).version == old(wallpaper).version + 1,
        result@ == "window.paperwall.setVideoSource("@ + json::quoted(
            urls::video_url((old(wallpaper).version + 1) as u64),
        ) + ");"@,
        result@ == "window.paperwall.setVideoSource("@ + json::quoted(
            "video.mp4?v="@ + text::decimal((old(wallpaper).version + 1) as nat),
        ) + ");"@,
{
    wallpaper.video_path = video_path.copy();
    wallpaper.version = wallpaper.version + 1;
    enclosed(
        "window.paperwall.setVideoSource(",
        &json::json_string(&create_video_url(wallpaper.version)),
        ");",
    )
}

/// The wallpaper's page.
pub open spec fn wallpaper_html(
    template: Seq<char>,
    scaling_mode: Seq<char>,
    version: u64,
) -> Seq<char> {
    let labelled = text::replaced(template, "{{fill_screen}}"@, FILL_SCREEN@);
    let styled = text::replaced(labelled, "{{object_fit}}"@, object_fit_text(scaling_mode));
    text::replaced(styled, "{{video_url}}"@, html::escaped(urls::video_url(version)))
}

/// The wallpaper's page, made of its template.
pub fn create_wallpaper_html(template: &str, scaling_mode: &str, version: u64) -> (result: String)
    ensures
        result@ == wallpaper_html(template@, scaling_mode@, version),
        result@ == text::replaced(
            text::replaced(
                text::replaced(template@, "{{fill_screen}}"@, "Fill Screen"@),
                "{{object_fit}}"@,
                if scaling_mode@ == "Fill Screen"@ {
                    "cover"@
                } else {
                    "contain"@
                },
            ),
            "{{video_url}}"@,
            html::escaped("video.mp4?v="@ + text::decimal(version as nat)),
        ),
{
    proof {
        reveal_strlit("{{fill_screen}}");
        reveal_strlit("{{object_fit}}");
        reveal_strlit("{{video_url}}");
    }
    let labelled = text::replace(template, "{{fill_screen}}", FILL_SCREEN);
    let styled = text::replace(&labelled, "{{object_fit}}", object_fit(scaling_mode));
    text::replace(&styled, "{{video_url}}", &escape_html(&create_video_url(version)))
}

/// What answers a request of the wallpaper's page, given what came of serving the video if that
/// was asked for.
pub open spec fn wallpaper_answer(
    path: Seq<char>,
    template: Seq<char>,
    scaling_mode: Seq<char>,
    video: Result<ResponseView, Seq<char>>,
) -> ResponseView {
    if path == "/"@ || path == "/index.html"@ {
        response::html_response(wallpaper_html(template, scaling_mode, 0))
    } else if path == "/video.mp4"@ {
        match video {
            Ok(answer) => answer,
            Err(message) => response::text_response(500, message),
        }
    } else {
        response::text_response(404, "Not found"@)
    }
}

/// Answers a request of the wallpaper's page. The page is that of the mode in which the
/// wallpaper was created, and of its first video. `video` is what came of serving the video,
/// and counts only where that was asked for.
pub fn answer_wallpaper_request(
    path: &str,
    template: &str,
    scaling_mode: &str,
    video: Result<Response, Error>,
) -> (result: Response)
    ensures
        result@ == wallpaper_answer(path@, template@, scaling_mode@, windows::served(video)),
        path@ == "/"@ || path@ == "/index.html"@ ==> result@ == response::html_response(
            wallpaper_html(template@, scaling_mode@, 0),
        ),
        path@ == "/video.mp4"@ ==> match video {
            Ok(answer) => result@ == answer@,
            Err(error) => result@ == response::text_response(500, error@),
        },
        path@ != "/"@ && path@ != "/index.html"@ && path@ != "/video.mp4"@ ==> result@
            == response::text_response(404, "Not found"@),
{
    proof {
        law_requests_are_answered(path@, template@, scaling_mode@, windows::served(video));
    }
    if text::same_text(path, "/") || text::same_text(path, "/index.html") {
        create_html_response(&create_wallpaper_html(template, scaling_mode, 0))
    } else if text::same_text(path, "/video.mp4") {
        match video {
            Ok(answer) => answer,
            Err(error) => create_text_response(500, &error.message),
        }
    } else {
        create_text_response(404, "Not found")
    }
}

/// The names of the two modes differ.
proof fn lemma_modes_differ()
    ensures
        "Fill Screen"@ != "Fit to Screen"@,
{
    reveal_strlit("Fill Screen");
    reveal_strlit("Fit to Screen");
    assert("Fill Screen"@.len() == 11);
    assert("Fit to Screen"@.len() == 13);
}

/// Just two names are those of modes, and only that of filling the screen covers it.
pub proof fn law_mode_names(text: Seq<char>)
    ensures
        FILL_SCREEN@ == "Fill Screen"@,
        FIT_TO_SCREEN@ == "Fit to Screen"@,
        names_scaling_mode(text) <==> text == "Fill Screen"@ || text == "Fit to Screen"@,
        object_fit_text(text) == (if text == "Fill Screen"@ {
            "cover"@
        } else {
            "contain"@
        }),
{
}

/// Stored settings keep their folder, and their mode if it is one; any other becomes that of
/// filling the screen.
pub proof fn law_stored_settings_are_corrected(settings: SettingsView)
    ensures
        corrected(settings).video_folder == settings.video_folder,
        settings.scaling_mode == "Fill Screen"@ || settings.scaling_mode == "Fit to Screen"@
            ==> corrected(settings).scaling_mode == settings.scaling_mode,
        settings.scaling_mode != "Fit to Screen"@ ==> corrected(settings).scaling_mode
            == "Fill Screen"@,
{
}

/// In the list of modes the one of the chosen name is selected, and no other.
pub proof fn law_chosen_mode_is_selected(chosen: Seq<char>, option: Seq<char>)
    ensures
        mode_options(chosen) == mode_option("Fill Screen"@, chosen) + mode_option(
            "Fit to Screen"@,
            chosen,
        ),
        mode_option(option, option) == "<option"@ + " selected"@ + ">"@ + html::escaped(option)
            + "</option>"@,
        option != chosen ==> mode_option(option, chosen) == "<option"@ + ""@ + ">"@
            + html::escaped(option) + "</option>"@,
{
}

/// The buttons of some videos are those of all but the last, and then the last one's: it carries
/// the video's escaped name twice, its escaped path, and its own escaped URL.
pub proof fn law_last_button_is_the_last_video(videos: Seq<VideoView>, all: Seq<char>)
    requires
        are_tiles(videos, all),
        videos.len() > 0,
    ensures
        exists|before: Seq<char>, url: Seq<char>|
            {
                let video = videos.last();
                &&& #[trigger] are_tiles(videos.drop_last(), before)
                &&& #[trigger] urls::is_file_url(videos.last().path, url)
                &&& all == before + ("<button\n\t\t\t\taria-label=\""@ + html::escaped(video.name)
                    + "\"\n\t\t\t\taria-pressed=\"false\"\n\t\t\t\tclass=\"tile\"\n\t\t\t\tdata-video-path=\""@
                    + html::escaped(video.path.text) + "\"\n\t\t\t\ttitle=\""@ + html::escaped(
                    video.name,
                )
                    + "\"\n\t\t\t\ttype=\"button\"\n\t\t\t>\n\t\t\t\t<video muted preload=\"metadata\" src=\""@
                    + html::escaped(url) + "\"></video>\n\t\t\t</button>"@)
            },
{
    let found = choose|found: Seq<Seq<char>>|
        {
            &&& found.len() == videos.len()
            &&& #[trigger] are_urls(videos, found)
            &&& all == tiles_text(videos, found)
        };
    let few = videos.drop_last();
    let first = found.drop_last();
    let count = videos.len() - 1;
    assert(are_urls(few, first)) by {
        assert forall|i: int| 0 <= i < count implies urls::is_file_url(
            (#[trigger] few[i]).path,
            first[i],
        ) by {
            assert(few[i] == videos[i]);
        }
    }
    assert(videos.take(count) =~= few);
    lemma_tiles_of_first(videos, first, count);
    assert(are_tiles(few, tiles_text(few, first)));
    assert(videos[count] == videos.last());
    assert(urls::is_file_url(videos.last().path, found.last()));
}

/// Where there are no videos there are no buttons, and nothing fails.
pub proof fn law_no_videos_have_no_tiles(text: Seq<char>)
    ensures
        are_tiles(Seq::empty(), text) ==> text == Seq::<char>::empty(),
        !is_tiles_failure(Seq::empty(), text),
{
}

/// Whether a video has a URL.
pub open spec fn has_url(video: VideoView) -> bool {
    exists|url: Seq<char>| #[trigger] urls::is_file_url(video.path, url)
}

/// Whether the video at `index` has no URL, and all before it have one.
pub open spec fn fails_first_at(videos: Seq<VideoView>, index: int) -> bool {
    &&& 0 <= index < videos.len()
    &&& urls::lacks_file_url(videos[index].path)
    &&& forall|i: int| 0 <= i < index ==> has_url(#[trigger] videos[i])
}

/// Buttons fail with the first video that has no URL: by its path.
pub proof fn law_first_failure_is_told(videos: Seq<VideoView>, message: Seq<char>)
    requires
        is_tiles_failure(videos, message),
    ensures
        exists|index: int| #[trigger]
            fails_first_at(videos, index) && message == "Could not create file URL for "@
                + videos[index].path.text,
{
    let found = choose|found: Seq<Seq<char>>|
        {
            &&& found.len() < videos.len()
            &&& #[trigger] are_urls(videos, found)
            &&& urls::lacks_file_url(videos[found.len() as int].path)
            &&& message == urls::file_url_failure(videos[found.len() as int].path.text)
        };
    let index = found.len() as int;
    assert forall|i: int| 0 <= i < index implies has_url(#[trigger] videos[i]) by {
        assert(urls::is_file_url(videos[i].path, found[i]));
    }
    assert(fails_first_at(videos, index));
}

/// The picker is told the folder and the buttons that it is to show, and other buttons of a folder
/// differently.
pub proof fn law_folder_scripts(video_folder: Seq<char>, left: Seq<char>, right: Seq<char>)
    ensures
        picker_folder_script(video_folder, left) == "window.paperwall.setVideoFolder("@
            + json::quoted(video_folder) + ", "@ + json::quoted(left) + ");"@,
        left != right ==> picker_folder_script(video_folder, left) != picker_folder_script(
            video_folder,
            right,
        ),
{
    if picker_folder_script(video_folder, left) == picker_folder_script(video_folder, right) {
        let opening = "window.paperwall.setVideoFolder("@ + json::quoted(video_folder) + ", "@;
        text::lemma_enclosed_injective(
            opening,
            json::quoted(left),
            json::quoted(right),
            ");"@,
        );
        json::law_quoted_is_injective(left, right);
    }
}

/// Whatever the request, the page is answered under its two paths and the video under its own, and
/// nothing else is there. A video that could not be served is told in words.
pub proof fn law_requests_are_answered(
    path: Seq<char>,
    template: Seq<char>,
    scaling_mode: Seq<char>,
    video: Result<ResponseView, Seq<char>>,
)
    ensures
        ({
            let answer = wallpaper_answer(path, template, scaling_mode, video);
            &&& path == "/"@ || path == "/index.html"@ ==> answer == response::html_response(
                wallpaper_html(template, scaling_mode, 0),
            )
            &&& path == "/video.mp4"@ ==> match video {
                Ok(served) => answer == served,
                Err(message) => answer == response::text_response(500, message),
            }
            &&& path != "/"@ && path != "/index.html"@ && path != "/video.mp4"@ ==> answer
                == response::text_response(404, "Not found"@)
        }),
{
    reveal_strlit("/");
    reveal_strlit("/index.html");
    reveal_strlit("/video.mp4");
    assert("/"@.len() == 1);
    assert("/index.html"@.len() == 11);
    assert("/video.mp4"@.len() == 10);
}

} // verus!
