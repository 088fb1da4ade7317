//! Windows: the picker and the wallpaper are pages of a web view.
use crate::error::Error;
use crate::html::escape_html;
use crate::paths::FilePath;
use crate::response::{
    create_html_response, create_response, create_text_response, Response, ResponseView,
};
use crate::scaling::{object_fit, ScalingMode};
use crate::urls::{create_file_url, create_video_url};
use crate::videos::{Video, VideoView};
use crate::{html, json, paths, picker, response, text, urls};
use vstd::prelude::*;

verus! {

/// The thumbnail of a video: the video itself, muted, as far as its first frame.
pub open spec fn thumbnail(url: Seq<char>) -> Seq<char> {
    "<video muted preload=\"metadata\" src=\""@ + html::escaped(url) + "\"></video>"@
}

/// The thumbnail of the video at `url`.
pub fn thumbnail_of_url(url: &str) -> (result: String)
    ensures
        result@ == thumbnail(url@),
        result@ == "<video muted preload=\"metadata\" src=\""@ + html::escaped(url@)
            + "\"></video>"@,
{
    let mut result = "<video muted preload=\"metadata\" src=\"".to_owned();
    result.append(&escape_html(url));
    result.append("\"></video>");
    result
}

/// Whether `image` is the thumbnail of a video.
pub open spec fn is_thumbnail(video: VideoView, image: Seq<char>) -> bool {
    exists|url: Seq<char>|
        #[trigger] urls::is_file_url(video.path, url) && image == thumbnail(url)
}

/// The thumbnail of a video. There is none of a video whose path has no `file` URL.
pub fn create_thumbnail(video: &Video, _index: usize) -> (result: Result<String, Error>)
    ensures
        match result {
            Ok(image) => is_thumbnail(video@, image@),
            Err(error) => urls::lacks_file_url(video@.path) && error@ == urls::file_url_failure(
                video@.path.text,
            ),
        },
        !video@.path.utf8 ==> result is Err,
        match result {
            Ok(image) => exists|url: Seq<char>| #[trigger]
                urls::is_file_url(video@.path, url) && image@
                    == "<video muted preload=\"metadata\" src=\""@ + html::escaped(url)
                    + "\"></video>"@,
            Err(error) => error@ == "Could not create file URL for "@ + video@.path.text,
        },
{
    match create_file_url(&video.path) {
        Ok(url) => {
            assert(urls::is_file_url(video@.path, url@));
            Ok(thumbnail_of_url(&url))
        },
        Err(error) => Err(error),
    }
}

/// Where the settings are kept, below the folder for local application data.
pub open spec fn settings_path(local_app_data: Seq<char>) -> Seq<char> {
    paths::joined('\\', paths::joined('\\', local_app_data, "paperwall"@), "settings.json"@)
}

/// Where the settings are kept, by the value of `LOCALAPPDATA`.
pub fn read_settings_path(local_app_data: Option<&str>) -> (result: Result<String, Error>)
    ensures
        match local_app_data {
            Some(folder) => result matches Ok(path) && path@ == settings_path(folder@) && path@
                == paths::joined(
                '\\',
                paths::joined('\\', folder@, "paperwall"@),
                "settings.json"@,
            ),
            None => result matches Err(error) && error@ == "LOCALAPPDATA is not set"@,
        },
{
    match local_app_data {
        Some(folder) => {
            let paperwall = paths::join('\\', folder, "paperwall");
            Ok(paths::join('\\', &paperwall, "settings.json"))
        },
        None => Err(Error::new("LOCALAPPDATA is not set")),
    }
}

/// The settings are kept at `%LOCALAPPDATA%\paperwall\settings.json`. A folder that ends in a
/// separator, or is a bare drive, has none put behind it, and a verbatim one with needless
/// backslashes loses these.
pub proof fn law_settings_path(local_app_data: Seq<char>)
    requires
        if paths::is_verbatim(local_app_data) {
            paths::is_tidy(local_app_data)
        } else {
            &&& local_app_data.len() > 0
            &&& !paths::is_drive(local_app_data)
            &&& !paths::is_separator('\\', local_app_data.last())
        },
    ensures
        settings_path(local_app_data) == local_app_data + "\\paperwall\\settings.json"@,
{
    reveal_strlit("paperwall");
    reveal_strlit("settings.json");
    reveal_strlit("\\paperwall\\settings.json");
    let folder = local_app_data.push('\\') + "paperwall"@;
    assert(folder.last() == 'l');
    if paths::is_verbatim(local_app_data) {
        assert(!"paperwall"@.contains('\\'));
        paths::law_joined_below_tidy(local_app_data, "paperwall"@);
        paths::lemma_tidy_with_name(local_app_data, "paperwall"@);
        paths::law_joined_below_tidy(folder, "settings.json"@);
    } else {
        assert(paths::joined('\\', local_app_data, "paperwall"@) == folder);
        assert forall|i: int| 0 <= i < local_app_data.len() implies folder[i]
            == local_app_data[i] by {}
        if paths::is_verbatim(folder) {
            assert(local_app_data.len() == 3);
            assert(folder.skip(4) =~= "paperwall"@);
            assert(folder[4] == 'p');
            assert(folder.subrange(4, 6)[1] == 'a');
            paths::lemma_is_first_backslash(folder.skip(4), 9);
            paths::law_joined_below_tidy(folder, "settings.json"@);
        }
    }
    assert(settings_path(local_app_data) =~= local_app_data + "\\paperwall\\settings.json"@);
}

/// The picker's page with its style sheet and its scripts put in place of the references to
/// them.
pub open spec fn page_with_assets(
    page: Seq<char>,
    main_css: Seq<char>,
    app_js: Seq<char>,
    main_js: Seq<char>,
) -> Seq<char> {
    let styled = text::replaced(
        page,
        "<link rel=\"stylesheet\" href=\"main.css\">"@,
        "<style>"@ + main_css + "</style>"@,
    );
    let scripted = text::replaced(
        styled,
        "<script src=\"app.js\"></script>"@,
        "<script>"@ + app_js + "</script>"@,
    );
    text::replaced(
        scripted,
        "<script src=\"main.js\"></script>"@,
        "<script>"@ + main_js + "</script>"@,
    )
}

/// The picker: the page that it was opened with.
#[derive(Debug)]
pub struct Picker {
    pub html: String,
}

/// `content` between two tags.
pub fn enclosed(opening: &str, content: &str, closing: &str) -> (result: String)
    ensures
        result@ == opening@ + content@ + closing@,
{
    let mut result = opening.to_owned();
    result.append(content);
    result.append(closing);
    result
}

impl Picker {
    /// Opens the picker on a page.
    pub fn create(html: &str, main_css: &str, app_js: &str, main_js: &str) -> (result: Picker)
        ensures
            result.html@ == page_with_assets(html@, main_css@, app_js@, main_js@),
            result.html@ == text::replaced(
                text::replaced(
                    text::replaced(
                        html@,
                        "<link rel=\"stylesheet\" href=\"main.css\">"@,
                        "<style>"@ + main_css@ + "</style>"@,
                    ),
                    "<script src=\"app.js\"></script>"@,
                    "<script>"@ + app_js@ + "</script>"@,
                ),
                "<script src=\"main.js\"></script>"@,
                "<script>"@ + main_js@ + "</script>"@,
            ),
    {
        proof {
            reveal_strlit("<link rel=\"stylesheet\" href=\"main.css\">");
            reveal_strlit("<script src=\"app.js\"></script>");
            reveal_strlit("<script src=\"main.js\"></script>");
        }
        let styled = text::replace(
            html,
            "<link rel=\"stylesheet\" href=\"main.css\">",
            &enclosed("<style>", main_css, "</style>"),
        );
        let scripted = text::replace(
            &styled,
            "<script src=\"app.js\"></script>",
            &enclosed("<script>", app_js, "</script>"),
        );
        let html = text::replace(
            &scripted,
            "<script src=\"main.js\"></script>",
            &enclosed("<script>", main_js, "</script>"),
        );
        Picker { html }
    }

    /// The script that shows other videos in the open picker.
    pub fn set_videos(&self, _html: String, video_folder: &str, tiles: &str) -> (result: String)
        ensures
            result@ == picker::set_videos_script(video_folder@, tiles@),
            result@ == "window.paperwall.setVideos("@ + json::quoted(video_folder@) + ", "@
                + json::quoted(tiles@) + ")"@,
    {
        picker::create_set_videos_script(video_folder, tiles)
    }
}

/// The wallpaper's page.
pub open spec fn wallpaper_html(
    template: Seq<char>,
    scaling_mode: ScalingMode,
    version: u64,
) -> Seq<char> {
    let labelled = text::replaced(
        template,
        "{{fill_screen}}"@,
        ScalingMode::FillScreen.label_text(),
    );
    let styled = text::replaced(labelled, "{{object_fit}}"@, scaling_mode.object_fit_text());
    text::replaced(styled, "{{video_url}}"@, html::escaped(urls::video_url(version)))
}

/// The wallpaper's page, made of its template.
pub fn create_wallpaper_html(template: &str, scaling_mode: ScalingMode, version: u64) -> (result:
    String)
    ensures
        result@ == wallpaper_html(template@, scaling_mode, version),
        result@ == text::replaced(
            text::replaced(
                text::replaced(template@, "{{fill_screen}}"@, "Fill Screen"@),
                "{{object_fit}}"@,
                scaling_mode.object_fit_text(),
            ),
            "{{video_url}}"@,
            html::escaped("video.mp4?v="@ + text::decimal(version as nat)),
        ),
{
    proof {
        reveal_strlit("{{fill_screen}}");
        reveal_strlit("{{object_fit}}");
        reveal_strlit("{{video_url}}");
    }
    let labelled = text::replace(template, "{{fill_screen}}", ScalingMode::FillScreen.label());
    let styled = text::replace(&labelled, "{{object_fit}}", object_fit(scaling_mode));
    text::replace(&styled, "{{video_url}}", &escape_html(&create_video_url(version)))
}

/// The script that changes the scaling mode of the open wallpaper.
pub open spec fn scaling_mode_script(scaling_mode: ScalingMode) -> Seq<char> {
    "window.paperwall.setScalingMode("@ + json::quoted(scaling_mode.label_text()) + ")"@
}

/// The script that shows the current video in the open wallpaper.
pub open spec fn video_source_script(version: u64) -> Seq<char> {
    "window.paperwall.setVideoSource("@ + json::quoted(urls::video_url(version)) + ")"@
}

/// The wallpaper: the video that it shows, and how many videos it has shown before it.
#[derive(Debug)]
pub struct Wallpaper {
    pub video_path: FilePath,
    pub version: u64,
}

impl Wallpaper {
    /// A wallpaper that shows its first video.
    pub fn create(video_path: &FilePath) -> (result: Wallpaper)
        ensures
            result.video_path@ == video_path@,
            result.version == 0,
    {
        Wallpaper { video_path: video_path.copy(), version: 0 }
    }

    /// The script that changes the scaling mode.
    pub fn set_scaling_mode(&self, scaling_mode: ScalingMode) -> (result: String)
        ensures
            result@ == scaling_mode_script(scaling_mode),
            result@ == "window.paperwall.setScalingMode("@ + json::quoted(
                scaling_mode.label_text(),
            ) + ")"@,
    {
        enclosed(
            "window.paperwall.setScalingMode(",
            &json::json_string(scaling_mode.label()),
            ")",
        )
    }

    /// Turns to another video, and gives the script that makes the page load it.
    pub fn set_video(&mut self, video_path: &FilePath, _scaling_mode: ScalingMode) -> (result:
        String)
        requires
            old(self).version < u64::MAX,
        ensures
            final(self).video_path@ == video_path@,
            final(self).version == old(self).version + 1,
            result@ == video_source_script((old(self).version + 1) as u64),
            result@ == "window.paperwall.setVideoSource("@ + json::quoted(
                "video.mp4?v="@ + text::decimal((old(self).version + 1) as nat),
            ) + ")"@,
    {
        self.video_path = video_path.copy();
        self.version = self.version + 1;
        enclosed(
            "window.paperwall.setVideoSource(",
            &json::json_string(&create_video_url(self.version)),
            ")",
        )
    }
}

/// What a request of the wallpaper's page asks for.
#[derive(Clone, Copy, Debug, PartialEq, Eq, Structural)]
pub enum WallpaperResource {
    Page,
    Video,
    StyleSheet,
    Nothing,
}

/// What stands under a path.
pub open spec fn resource_at(path: Seq<char>) -> WallpaperResource {
    if path == "/"@ || path == "/index.html"@ {
        WallpaperResource::Page
    } else if path == "/video.mp4"@ {
        WallpaperResource::Video
    } else if path == "/wallpaper.css"@ {
        WallpaperResource::StyleSheet
    } else {
        WallpaperResource::Nothing
    }
}

/// Tells what a request asks for by its path.
pub fn wallpaper_resource(path: &str) -> (result: WallpaperResource)
    ensures
        result == resource_at(path@),
        result == WallpaperResource::Page <==> path@ == "/"@ || path@ == "/index.html"@,
        result == WallpaperResource::Video <==> path@ == "/video.mp4"@,
        result == WallpaperResource::StyleSheet <==> path@ == "/wallpaper.css"@,
{
    proof {
        lemma_resources_are_told_apart();
    }
    if text::same_text(path, "/") || text::same_text(path, "/index.html") {
        WallpaperResource::Page
    } else if text::same_text(path, "/video.mp4") {
        WallpaperResource::Video
    } else if text::same_text(path, "/wallpaper.css") {
        WallpaperResource::StyleSheet
    } else {
        WallpaperResource::Nothing
    }
}

/// What answers a request, given what came of serving the video if that was asked for.
pub open spec fn wallpaper_answer(
    path: Seq<char>,
    template: Seq<char>,
    wallpaper_css: Seq<char>,
    scaling_mode: ScalingMode,
    video: Result<ResponseView, Seq<char>>,
) -> ResponseView {
    match resource_at(path) {
        WallpaperResource::Page => response::html_response(
            wallpaper_html(template, scaling_mode, 0),
        ),
        WallpaperResource::Video => match video {
            Ok(answer) => answer,
            Err(message) => response::text_response(500, message),
        },
        WallpaperResource::StyleSheet => response::typed_response(
            "text/css"@,
            response::bytes_of(wallpaper_css),
        ),
        WallpaperResource::Nothing => response::text_response(404, "Not found"@),
    }
}

/// The model of what came of serving a video.
pub open spec fn served(video: Result<Response, Error>) -> Result<ResponseView, Seq<char>> {
    match video {
        Ok(answer) => Ok(answer@),
        Err(error) => Err(error@),
    }
}

/// Answers a request of the wallpaper's page. The page is that of the mode in which the
/// wallpaper was created, and of its first video. `video` is what came of serving the video,
/// and counts only where that was asked for.
pub fn answer_wallpaper_request(
    path: &str,
    template: &str,
    wallpaper_css: &str,
    scaling_mode: ScalingMode,
    video: Result<Response, Error>,
) -> (result: Response)
    ensures
        result@ == wallpaper_answer(
            path@,
            template@,
            wallpaper_css@,
            scaling_mode,
            served(video),
        ),
        path@ == "/"@ || path@ == "/index.html"@ ==> result@ == response::html_response(
            wallpaper_html(template@, scaling_mode, 0),
        ),
        path@ == "/video.mp4"@ ==> match video {
            Ok(answer) => result@ == answer@,
            Err(error) => result@ == response::text_response(500, error@),
        },
        path@ == "/wallpaper.css"@ ==> result@ == response::typed_response(
            "text/css"@,
            vstd::utf8::encode_utf8(wallpaper_css@),
        ),
        path@ != "/"@ && path@ != "/index.html"@ && path@ != "/video.mp4"@ && path@
            != "/wallpaper.css"@ ==> result@ == response::text_response(404, "Not found"@),
{
    proof {
        lemma_resources_are_told_apart();
    }
    match wallpaper_resource(path) {
        WallpaperResource::Page => create_html_response(
            &create_wallpaper_html(template, scaling_mode, 0),
        ),
        WallpaperResource::Video => match video {
            Ok(answer) => answer,
            Err(error) => create_text_response(500, &error.message),
        },
        WallpaperResource::StyleSheet => create_response("text/css", wallpaper_css.as_bytes_vec()),
        WallpaperResource::Nothing => create_text_response(404, "Not found"),
    }
}

/// The paths of the resources differ.
proof fn lemma_resources_are_told_apart()
    ensures
        "/"@ != "/video.mp4"@,
        "/"@ != "/wallpaper.css"@,
        "/index.html"@ != "/video.mp4"@,
        "/index.html"@ != "/wallpaper.css"@,
        "/video.mp4"@ != "/wallpaper.css"@,
{
    reveal_strlit("/");
    reveal_strlit("/index.html");
    reveal_strlit("/video.mp4");
    reveal_strlit("/wallpaper.css");
    assert("/"@.len() == 1);
    assert("/video.mp4"@.len() == 10);
    assert("/wallpaper.css"@.len() == 14);
    assert("/index.html"@[1] == 'i');
    assert("/video.mp4"@[1] == 'v');
    assert("/wallpaper.css"@[1] == 'w');
}

/// What came of serving a video is its answer, or the message of its failure.
pub proof fn law_served_videos(answer: Response, error: Error)
    ensures
        served(Ok(answer)) == Ok::<ResponseView, Seq<char>>(answer@),
        served(Err(error)) == Err::<ResponseView, Seq<char>>(error@),
{
}

/// Whatever the request, the page is answered under its two paths, the video and the style sheet
/// under theirs, and nothing else is there. A video that could not be served is told in words.
pub proof fn law_requests_are_answered(
    path: Seq<char>,
    template: Seq<char>,
    wallpaper_css: Seq<char>,
    scaling_mode: ScalingMode,
    video: Result<ResponseView, Seq<char>>,
)
    ensures
        ({
            let answer = wallpaper_answer(path, template, wallpaper_css, scaling_mode, video);
            if path == "/"@ || path == "/index.html"@ {
                answer == response::html_response(wallpaper_html(template, scaling_mode, 0))
            } else if path == "/video.mp4"@ {
                match video {
                    Ok(served) => answer == served,
                    Err(message) => answer == response::text_response(500, message),
                }
            } else if path == "/wallpaper.css"@ {
                answer == response::typed_response(
                    "text/css"@,
                    vstd::utf8::encode_utf8(wallpaper_css),
                )
            } else {
                answer == response::text_response(404, "Not found"@)
            }
        }),
{
    lemma_resources_are_told_apart();
}

/// The page is told the mode that was chosen, by its label, and different modes differently.
pub proof fn law_mode_scripts(left: ScalingMode, right: ScalingMode)
    ensures
        scaling_mode_script(left) == "window.paperwall.setScalingMode("@ + json::quoted(
            left.label_text(),
        ) + ")"@,
        left != right ==> scaling_mode_script(left) != scaling_mode_script(right),
{
    if scaling_mode_script(left) == scaling_mode_script(right) && left != right {
        text::lemma_enclosed_injective(
            "window.paperwall.setScalingMode("@,
            json::quoted(left.label_text()),
            json::quoted(right.label_text()),
            ")"@,
        );
        json::law_quoted_is_injective(left.label_text(), right.label_text());
        crate::scaling::law_modes_are_told_apart(left, right);
    }
}

/// The page is told the address of the version that is shown, and different versions differently,
/// so that it never takes one video for another.
pub proof fn law_video_scripts(left: u64, right: u64)
    ensures
        video_source_script(left) == "window.paperwall.setVideoSource("@ + json::quoted(
            "video.mp4?v="@ + text::decimal(left as nat),
        ) + ")"@,
        left != right ==> video_source_script(left) != video_source_script(right),
{
    if video_source_script(left) == video_source_script(right) && left != right {
        text::lemma_enclosed_injective(
            "window.paperwall.setVideoSource("@,
            json::quoted(urls::video_url(left)),
            json::quoted(urls::video_url(right)),
            ")"@,
        );
        json::law_quoted_is_injective(urls::video_url(left), urls::video_url(right));
        urls::law_video_urls_differ(left, right);
    }
}

/// Videos at different URLs have different thumbnails, each with its own URL in it.
pub proof fn law_thumbnails_differ(left: Seq<char>, right: Seq<char>)
    ensures
        thumbnail(left) == "<video muted preload=\"metadata\" src=\""@ + html::escaped(left)
            + "\"></video>"@,
        left != right ==> thumbnail(left) != thumbnail(right),
{
    if thumbnail(left) == thumbnail(right) {
        text::lemma_enclosed_injective(
            "<video muted preload=\"metadata\" src=\""@,
            html::escaped(left),
            html::escaped(right),
            "\"></video>"@,
        );
        html::law_escape_is_injective(left, right);
    }
}

/// A page shows the mode and the version it is made with: one whose template is a placeholder alone
/// is what stands for it, and what stands for different modes or versions differs.
pub proof fn law_wallpaper_page_is_filled(scaling_mode: ScalingMode, version: u64)
    ensures
        wallpaper_html("{{object_fit}}"@, scaling_mode, version) == scaling_mode.object_fit_text(),
        wallpaper_html("{{video_url}}"@, scaling_mode, version) == html::escaped(
            "video.mp4?v="@ + text::decimal(version as nat),
        ),
        wallpaper_html("{{fill_screen}}"@, scaling_mode, version) == "Fill Screen"@,
{
    let fill = "{{fill_screen}}"@;
    let fit = "{{object_fit}}"@;
    let url = "{{video_url}}"@;
    reveal_strlit("{{fill_screen}}");
    reveal_strlit("{{object_fit}}");
    reveal_strlit("{{video_url}}");
    reveal_strlit("Fill Screen");
    reveal_strlit("cover");
    reveal_strlit("contain");
    assert(fill.len() == 15 && fit.len() == 14 && url.len() == 13);
    assert(fit[2] == 'o' && url[2] == 'v' && fill[2] == 'f');
    let shown = scaling_mode.object_fit_text();
    let address = html::escaped(urls::video_url(version));
    // The template that is the first placeholder.
    lemma_placeholder_alone(fill, "Fill Screen"@);
    lemma_nothing_to_replace("Fill Screen"@, fit, shown);
    lemma_nothing_to_replace("Fill Screen"@, url, address);
    // The template that is the second.
    lemma_nothing_to_replace(fit, fill, "Fill Screen"@);
    lemma_placeholder_alone(fit, shown);
    lemma_nothing_to_replace(shown, url, address);
    // The template that is the third.
    lemma_nothing_to_replace(url, fill, "Fill Screen"@);
    assert forall|i: int| !text::occurs_at(url, i, fit) by {}
    text::law_absent_pattern_replaces_nothing(url, fit, shown);
    lemma_placeholder_alone(url, address);
}

/// A text shorter than a pattern has none of it.
proof fn lemma_nothing_to_replace(text: Seq<char>, pattern: Seq<char>, into: Seq<char>)
    requires
        text.len() < pattern.len(),
    ensures
        text::replaced(text, pattern, into) == text,
{
    assert forall|i: int| !text::occurs_at(text, i, pattern) by {}
    text::law_absent_pattern_replaces_nothing(text, pattern, into);
}

/// A text that is the pattern alone becomes what the pattern is exchanged for.
proof fn lemma_placeholder_alone(pattern: Seq<char>, into: Seq<char>)
    requires
        pattern.len() > 0,
    ensures
        text::replaced(pattern, pattern, into) == into,
{
    assert(pattern.subrange(0, pattern.len() as int) =~= pattern);
    assert forall|i: int| i < 0 implies !text::occurs_at(pattern, i, pattern) by {}
    text::law_first_occurrence_is_replaced(pattern, pattern, into, 0);
    assert(pattern.skip(pattern.len() as int) =~= Seq::<char>::empty());
    assert(text::replaced(Seq::<char>::empty(), pattern, into) =~= Seq::<char>::empty());
    assert(pattern.take(0) + into + Seq::<char>::empty() =~= into);
}

} // verus!
