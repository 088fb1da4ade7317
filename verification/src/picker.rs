//! The picker: the page on which a folder, a scaling mode and a video are chosen.
use crate::error::Error;
use crate::html::escape_html;
use crate::scaling::ScalingMode;
use crate::videos::{Video, VideoView};
use crate::{html, json, macos, text, urls, videos, windows};
use vstd::prelude::*;

verus! {

/// The width of the picker's window, and the least it can have.
pub const PICKER_WIDTH: u32 = 800;

/// The height of the picker's window, and the least it can have.
pub const PICKER_HEIGHT: u32 = 600;

/// The platform that the app runs on.
#[derive(Clone, Copy, Debug, PartialEq, Eq, Structural)]
pub enum Platform {
    MacOs,
    Windows,
}

/// The entry of one mode in the list of modes, where one of them is chosen.
pub open spec fn mode_option(option: ScalingMode, chosen: ScalingMode) -> Seq<char> {
    if option == chosen {
        "<option selected>"@ + option.label_text() + "</option>"@
    } else {
        "<option>"@ + option.label_text() + "</option>"@
    }
}

/// The list of modes, where one of them is chosen.
pub open spec fn mode_options(chosen: ScalingMode) -> Seq<char> {
    mode_option(ScalingMode::FillScreen, chosen) + mode_option(ScalingMode::FitToScreen, chosen)
}

/// Lists the scaling modes, with `scaling_mode` selected.
pub fn create_scaling_mode_options(scaling_mode: ScalingMode) -> (result: String)
    ensures
        result@ == mode_options(scaling_mode),
{
    let mut options = String::new();
    let modes = [ScalingMode::FillScreen, ScalingMode::FitToScreen];
    let mut position: usize = 0;
    while position < 2
        invariant
            position <= 2,
            modes@ == seq![ScalingMode::FillScreen, ScalingMode::FitToScreen],
            options@ == (if position == 0 {
                Seq::empty()
            } else if position == 1 {
                mode_option(ScalingMode::FillScreen, scaling_mode)
            } else {
                mode_options(scaling_mode)
            }),
        decreases 2 - position,
    {
        let option = modes[position];
        let ghost before = options@;
        if option == scaling_mode {
            options.append("<option selected>");
        } else {
            options.append("<option>");
        }
        options.append(option.label());
        options.append("</option>");
        assert(options@ =~= before + mode_option(option, scaling_mode));
        position = position + 1;
    }
    options
}

/// The picker's page.
pub open spec fn picker_html(
    template: Seq<char>,
    video_folder: Seq<char>,
    scaling_mode: ScalingMode,
    tiles: Seq<char>,
) -> Seq<char> {
    let named = text::replaced(template, "{{video_folder}}"@, html::escaped(video_folder));
    let listed = text::replaced(named, "{{scaling_mode_options}}"@, mode_options(scaling_mode));
    text::replaced(listed, "{{tiles}}"@, tiles)
}

/// The picker's page, made of its template.
pub fn create_picker_html(
    template: &str,
    video_folder: &str,
    scaling_mode: ScalingMode,
    tiles: &str,
) -> (result: String)
    ensures
        result@ == picker_html(template@, video_folder@, scaling_mode, tiles@),
        result@ == text::replaced(
            text::replaced(
                text::replaced(template@, "{{video_folder}}"@, html::escaped(video_folder@)),
                "{{scaling_mode_options}}"@,
                mode_options(scaling_mode),
            ),
            "{{tiles}}"@,
            tiles@,
        ),
{
    proof {
        reveal_strlit("{{video_folder}}");
        reveal_strlit("{{scaling_mode_options}}");
        reveal_strlit("{{tiles}}");
    }
    let named = text::replace(template, "{{video_folder}}", &escape_html(video_folder));
    let listed = text::replace(
        &named,
        "{{scaling_mode_options}}",
        &create_scaling_mode_options(scaling_mode),
    );
    text::replace(&listed, "{{tiles}}", tiles)
}

/// The button of one video.
pub open spec fn tile(name: Seq<char>, index: nat, thumbnail: Seq<char>) -> Seq<char> {
    "<button aria-label=\""@ + html::escaped(name)
        + "\" aria-pressed=\"false\" class=\"tile\" data-video-index=\""@ + text::decimal(index)
        + "\" title=\""@ + html::escaped(name) + "\" type=\"button\">"@ + thumbnail + "</button>"@
}

/// The button of the video at `index`.
pub fn create_tile(name: &str, index: usize, thumbnail: &str) -> (result: String)
    ensures
        result@ == tile(name@, index as nat, thumbnail@),
        result@ == "<button aria-label=\""@ + html::escaped(name@)
            + "\" aria-pressed=\"false\" class=\"tile\" data-video-index=\""@ + text::decimal(
            index as nat,
        ) + "\" title=\""@ + html::escaped(name@) + "\" type=\"button\">"@ + thumbnail@
            + "</button>"@,
{
    let name = escape_html(name);
    let mut result = "<button aria-label=\"".to_owned();
    result.append(&name);
    result.append("\" aria-pressed=\"false\" class=\"tile\" data-video-index=\"");
    result.append(&text::decimal_text(index as u64));
    result.append("\" title=\"");
    result.append(&name);
    result.append("\" type=\"button\">");
    result.append(thumbnail);
    result.append("</button>");
    result
}

/// The buttons of some videos, each with its thumbnail.
pub open spec fn tiles_text(videos: Seq<VideoView>, thumbnails: Seq<Seq<char>>) -> Seq<char>
    decreases thumbnails.len(),
{
    if thumbnails.len() == 0 {
        Seq::empty()
    } else {
        let last = (thumbnails.len() - 1) as nat;
        tiles_text(videos, thumbnails.drop_last()) + tile(
            videos[last as int].name,
            last,
            thumbnails.last(),
        )
    }
}

/// Whether `image` is the thumbnail of the video at `index`.
pub open spec fn is_thumbnail(
    platform: Platform,
    video: VideoView,
    index: nat,
    image: Seq<char>,
) -> bool {
    match platform {
        Platform::MacOs => image == macos::thumbnail(index),
        Platform::Windows => windows::is_thumbnail(video, image),
    }
}

/// Whether `thumbnails` are those of the first videos.
pub open spec fn are_thumbnails(
    platform: Platform,
    videos: Seq<VideoView>,
    thumbnails: Seq<Seq<char>>,
) -> bool {
    &&& thumbnails.len() <= videos.len()
    &&& forall|i: int|
        0 <= i < thumbnails.len() ==> is_thumbnail(
            platform,
            #[trigger] videos[i],
            i as nat,
            thumbnails[i],
        )
}

/// Whether `text` is the buttons of some videos.
pub open spec fn are_tiles(platform: Platform, videos: Seq<VideoView>, text: Seq<char>) -> bool {
    exists|thumbnails: Seq<Seq<char>>|
        {
            &&& thumbnails.len() == videos.len()
            &&& #[trigger] are_thumbnails(platform, videos, thumbnails)
            &&& text == tiles_text(videos, thumbnails)
        }
}

/// Whether `message` is about the first of some videos that has no thumbnail.
pub open spec fn is_tiles_failure(
    platform: Platform,
    videos: Seq<VideoView>,
    message: Seq<char>,
) -> bool {
    platform == Platform::Windows && exists|thumbnails: Seq<Seq<char>>|
        {
            &&& thumbnails.len() < videos.len()
            &&& #[trigger] are_thumbnails(platform, videos, thumbnails)
            &&& urls::lacks_file_url(videos[thumbnails.len() as int].path)
            &&& message == urls::file_url_failure(videos[thumbnails.len() as int].path.text)
        }
}

/// The buttons of some videos. The first thumbnail that cannot be had is the outcome of the
/// whole, which cannot happen on macOS.
pub fn create_tiles(platform: Platform, videos: &Vec<Video>) -> (result: Result<String, Error>)
    ensures
        match result {
            Ok(tiles) => are_tiles(platform, videos::video_views(videos@), tiles@),
            Err(error) => is_tiles_failure(platform, videos::video_views(videos@), error@),
        },
{
    let mut tiles = String::new();
    let mut index: usize = 0;
    let ghost views = videos::video_views(videos@);
    let ghost mut thumbnails: Seq<Seq<char>> = Seq::empty();
    while index < videos.len()
        invariant
            index <= videos@.len(),
            views == videos::video_views(videos@),
            thumbnails.len() == index,
            are_thumbnails(platform, views, thumbnails),
            tiles@ == tiles_text(views, thumbnails),
        decreases videos@.len() - index,
    {
        let video = &videos[index];
        assert(views[index as int] == video@);
        let made = match platform {
            Platform::MacOs => macos::create_thumbnail(video, index),
            Platform::Windows => windows::create_thumbnail(video, index),
        };
        match made {
            Err(error) => {
                return Err(error);
            },
            Ok(thumbnail) => {
                proof {
                    let more = thumbnails.push(thumbnail@);
                    assert(more.drop_last() =~= thumbnails);
                    assert(are_thumbnails(platform, views, more)) by {
                        assert forall|i: int| 0 <= i < more.len() implies is_thumbnail(
                            platform,
                            #[trigger] views[i],
                            i as nat,
                            more[i],
                        ) by {
                            if i < thumbnails.len() {
                                assert(more[i] == thumbnails[i]);
                            }
                        }
                    }
                    thumbnails = more;
                }
                tiles.append(&create_tile(&video.name, index, &thumbnail));
            },
        }
        index = index + 1;
    }
    Ok(tiles)
}

/// The buttons of some videos do not depend on those behind them.
proof fn lemma_tiles_of_first(videos: Seq<VideoView>, thumbnails: Seq<Seq<char>>, count: int)
    requires
        thumbnails.len() <= count <= videos.len(),
    ensures
        tiles_text(videos.take(count), thumbnails) == tiles_text(videos, thumbnails),
    decreases thumbnails.len(),
{
    if thumbnails.len() > 0 {
        lemma_tiles_of_first(videos, thumbnails.drop_last(), count);
    }
}

/// The buttons with the first thumbnails begin those with all.
proof fn lemma_tiles_begin(videos: Seq<VideoView>, thumbnails: Seq<Seq<char>>, count: int)
    requires
        0 <= count <= thumbnails.len(),
    ensures
        text::begins_with(
            tiles_text(videos, thumbnails),
            tiles_text(videos, thumbnails.take(count)),
        ),
    decreases thumbnails.len(),
{
    let all = tiles_text(videos, thumbnails);
    let part = tiles_text(videos, thumbnails.take(count));
    if count == thumbnails.len() {
        assert(thumbnails.take(count) =~= thumbnails);
        assert(all.subrange(0, all.len() as int) =~= all);
    } else {
        let shorter = tiles_text(videos, thumbnails.drop_last());
        assert(thumbnails.drop_last().take(count) =~= thumbnails.take(count));
        lemma_tiles_begin(videos, thumbnails.drop_last(), count);
        assert(all.subrange(0, part.len() as int) =~= shorter.subrange(0, part.len() as int));
    }
}

/// With one row of thumbnails, the buttons of the first videos begin those of all.
pub proof fn law_tiles_with_thumbnails_begin_all(
    videos: Seq<VideoView>,
    thumbnails: Seq<Seq<char>>,
    count: int,
)
    requires
        0 <= count <= thumbnails.len() <= videos.len(),
    ensures
        text::begins_with(
            tiles_text(videos, thumbnails),
            tiles_text(videos.take(count), thumbnails.take(count)),
        ),
{
    lemma_tiles_of_first(videos, thumbnails.take(count), count);
    lemma_tiles_begin(videos, thumbnails, count);
}

/// The first of some thumbnails are those of the first videos.
proof fn lemma_first_thumbnails(
    platform: Platform,
    videos: Seq<VideoView>,
    thumbnails: Seq<Seq<char>>,
    count: int,
)
    requires
        are_thumbnails(platform, videos, thumbnails),
        0 <= count <= thumbnails.len(),
    ensures
        are_thumbnails(platform, videos.take(count), thumbnails.take(count)),
{
    let first = videos.take(count);
    assert forall|i: int| 0 <= i < count implies is_thumbnail(
        platform,
        #[trigger] first[i],
        i as nat,
        thumbnails.take(count)[i],
    ) by {
        assert(first[i] == videos[i]);
    }
}

/// On macOS some videos have one row of thumbnails.
proof fn lemma_macos_thumbnails(
    videos: Seq<VideoView>,
    left: Seq<Seq<char>>,
    right: Seq<Seq<char>>,
)
    requires
        are_thumbnails(Platform::MacOs, videos, left),
        are_thumbnails(Platform::MacOs, videos, right),
        left.len() == right.len(),
    ensures
        left == right,
{
    assert forall|i: int| 0 <= i < left.len() implies left[i] == right[i] by {
        assert(is_thumbnail(Platform::MacOs, videos[i], i as nat, left[i]));
        assert(is_thumbnail(Platform::MacOs, videos[i], i as nat, right[i]));
    }
    assert(left =~= right);
}

/// The buttons of the first videos begin those of all. On macOS, where a thumbnail is one text,
/// that is so of whatever buttons the first videos are given.
pub proof fn law_first_tiles_begin_all(
    platform: Platform,
    videos: Seq<VideoView>,
    all: Seq<char>,
    count: int,
)
    requires
        are_tiles(platform, videos, all),
        0 <= count <= videos.len(),
    ensures
        exists|part: Seq<char>| #[trigger]
            are_tiles(platform, videos.take(count), part) && text::begins_with(all, part),
        platform == Platform::MacOs ==> forall|part: Seq<char>| #[trigger]
            are_tiles(platform, videos.take(count), part) ==> text::begins_with(all, part),
{
    let thumbnails = choose|thumbnails: Seq<Seq<char>>|
        {
            &&& thumbnails.len() == videos.len()
            &&& #[trigger] are_thumbnails(platform, videos, thumbnails)
            &&& all == tiles_text(videos, thumbnails)
        };
    let first = thumbnails.take(count);
    let part = tiles_text(videos.take(count), first);
    lemma_first_thumbnails(platform, videos, thumbnails, count);
    law_tiles_with_thumbnails_begin_all(videos, thumbnails, count);
    assert(are_tiles(platform, videos.take(count), part));
    if platform == Platform::MacOs {
        assert forall|other: Seq<char>| #[trigger]
            are_tiles(platform, videos.take(count), other) implies text::begins_with(
            all,
            other,
        ) by {
            let images = choose|images: Seq<Seq<char>>|
                {
                    &&& images.len() == videos.take(count).len()
                    &&& #[trigger] are_thumbnails(platform, videos.take(count), images)
                    &&& other == tiles_text(videos.take(count), images)
                };
            lemma_macos_thumbnails(videos.take(count), images, first);
        }
    }
}

/// Every video has its button behind those of the videos before it, with its number, its name
/// and its thumbnail.
pub proof fn law_each_video_has_its_button(
    platform: Platform,
    videos: Seq<VideoView>,
    all: Seq<char>,
    index: int,
)
    requires
        are_tiles(platform, videos, all),
        0 <= index < videos.len(),
    ensures
        exists|before: Seq<char>, image: Seq<char>|
            {
                &&& #[trigger] are_tiles(platform, videos.take(index), before)
                &&& #[trigger] is_thumbnail(platform, videos[index], index as nat, image)
                &&& text::begins_with(all, before + tile(videos[index].name, index as nat, image))
            },
{
    let thumbnails = choose|thumbnails: Seq<Seq<char>>|
        {
            &&& thumbnails.len() == videos.len()
            &&& #[trigger] are_thumbnails(platform, videos, thumbnails)
            &&& all == tiles_text(videos, thumbnails)
        };
    let first = thumbnails.take(index);
    let before = tiles_text(videos.take(index), first);
    lemma_first_thumbnails(platform, videos, thumbnails, index);
    lemma_tiles_of_first(videos, first, index);
    lemma_tiles_begin(videos, thumbnails, index + 1);
    assert(thumbnails.take(index + 1).drop_last() =~= first);
    assert(are_tiles(platform, videos.take(index), before));
    assert(is_thumbnail(platform, videos[index], index as nat, thumbnails[index]));
}

/// Where there are no videos there are no buttons, and nothing fails.
pub proof fn law_no_videos_have_no_tiles(platform: Platform, text: Seq<char>)
    ensures
        are_tiles(platform, Seq::empty(), text) ==> text == Seq::<char>::empty(),
        !is_tiles_failure(platform, Seq::empty(), text),
{
}

/// The script that shows other videos in the open picker.
pub open spec fn set_videos_script(video_folder: Seq<char>, tiles: Seq<char>) -> Seq<char> {
    "window.paperwall.setVideos("@ + json::quoted(video_folder) + ", "@ + json::quoted(tiles)
        + ")"@
}

/// The script that shows other videos in the open picker.
pub fn create_set_videos_script(video_folder: &str, tiles: &str) -> (result: String)
    ensures
        result@ == set_videos_script(video_folder@, tiles@),
        result@ == "window.paperwall.setVideos("@ + json::quoted(video_folder@) + ", "@
            + json::quoted(tiles@) + ")"@,
{
    let mut script = "window.paperwall.setVideos(".to_owned();
    script.append(&json::json_string(video_folder));
    script.append(", ");
    script.append(&json::json_string(tiles));
    script.append(")");
    script
}

/// In the list of modes the chosen one is selected and the other is not, both under their labels.
pub proof fn law_chosen_mode_is_selected()
    ensures
        mode_options(ScalingMode::FillScreen) == "<option selected>"@ + "Fill Screen"@
            + "</option>"@ + ("<option>"@ + "Fit to Screen"@ + "</option>"@),
        mode_options(ScalingMode::FitToScreen) == "<option>"@ + "Fill Screen"@ + "</option>"@ + (
        "<option selected>"@ + "Fit to Screen"@ + "</option>"@),
{
}

/// The buttons of some videos are those of all but the last, and then the last one's: it carries
/// the video's number, its escaped name twice, and its thumbnail.
pub proof fn law_last_button_is_the_last_video(
    platform: Platform,
    videos: Seq<VideoView>,
    all: Seq<char>,
)
    requires
        are_tiles(platform, videos, all),
        videos.len() > 0,
    ensures
        exists|before: Seq<char>, image: Seq<char>|
            {
                let name = html::escaped(videos.last().name);
                let number = text::decimal((videos.len() - 1) as nat);
                &&& #[trigger] are_tiles(platform, videos.drop_last(), before)
                &&& #[trigger] is_thumbnail(
                    platform,
                    videos.last(),
                    (videos.len() - 1) as nat,
                    image,
                )
                &&& all == before + ("<button aria-label=\""@ + name
                    + "\" aria-pressed=\"false\" class=\"tile\" data-video-index=\""@ + number
                    + "\" title=\""@ + name + "\" type=\"button\">"@ + image + "</button>"@)
            },
{
    let thumbnails = choose|thumbnails: Seq<Seq<char>>|
        {
            &&& thumbnails.len() == videos.len()
            &&& #[trigger] are_thumbnails(platform, videos, thumbnails)
            &&& all == tiles_text(videos, thumbnails)
        };
    let count = videos.len() - 1;
    let first = thumbnails.drop_last();
    assert(thumbnails.take(count) =~= first);
    assert(videos.take(count) =~= videos.drop_last());
    lemma_first_thumbnails(platform, videos, thumbnails, count);
    lemma_tiles_of_first(videos, first, count);
    let before = tiles_text(videos.drop_last(), first);
    assert(are_tiles(platform, videos.drop_last(), before));
    assert(videos[count] == videos.last());
    assert(is_thumbnail(platform, videos.last(), count as nat, thumbnails.last()));
}

/// A thumbnail is the picture under the video's number on macOS, and the video at its own URL on
/// Windows.
pub proof fn law_thumbnails_are_of_their_videos(video: VideoView, index: nat, image: Seq<char>)
    ensures
        is_thumbnail(Platform::MacOs, video, index, image) <==> image
            == "<img alt=\"\" src=\"preview/"@ + text::decimal(index) + ".jpg\">"@,
        is_thumbnail(Platform::Windows, video, index, image) <==> exists|url: Seq<char>| #[trigger]
            urls::is_file_url(video.path, url) && image
                == "<video muted preload=\"metadata\" src=\""@ + html::escaped(url)
                + "\"></video>"@,
{
}

/// Whether a video has a thumbnail on Windows.
pub open spec fn has_thumbnail(video: VideoView) -> bool {
    exists|url: Seq<char>| #[trigger] urls::is_file_url(video.path, url)
}

/// Whether the video at `index` has no URL, and all before it have thumbnails.
pub open spec fn fails_first_at(videos: Seq<VideoView>, index: int) -> bool {
    &&& 0 <= index < videos.len()
    &&& urls::lacks_file_url(videos[index].path)
    &&& forall|i: int|
        0 <= i < index ==> has_thumbnail(#[trigger] videos[i])
}

/// Buttons fail on Windows alone, and with the first video that has no URL: by its path.
pub proof fn law_first_failure_is_told(
    platform: Platform,
    videos: Seq<VideoView>,
    message: Seq<char>,
)
    requires
        is_tiles_failure(platform, videos, message),
    ensures
        platform == Platform::Windows,
        exists|index: int| #[trigger]
            fails_first_at(videos, index) && message == "Could not create file URL for "@
                + videos[index].path.text,
{
    let thumbnails = choose|thumbnails: Seq<Seq<char>>|
        {
            &&& thumbnails.len() < videos.len()
            &&& #[trigger] are_thumbnails(platform, videos, thumbnails)
            &&& urls::lacks_file_url(videos[thumbnails.len() as int].path)
            &&& message == urls::file_url_failure(videos[thumbnails.len() as int].path.text)
        };
    let index = thumbnails.len() as int;
    assert forall|i: int| 0 <= i < index implies has_thumbnail(#[trigger] videos[i]) by {
        assert(is_thumbnail(Platform::Windows, videos[i], i as nat, thumbnails[i]));
    }
    assert(fails_first_at(videos, index));
}

/// The picker is told the folder and the buttons that it is to show, and other buttons of a folder
/// differently.
pub proof fn law_folder_scripts(video_folder: Seq<char>, left: Seq<char>, right: Seq<char>)
    ensures
        set_videos_script(video_folder, left) == "window.paperwall.setVideos("@ + json::quoted(
            video_folder,
        ) + ", "@ + json::quoted(left) + ")"@,
        left != right ==> set_videos_script(video_folder, left) != set_videos_script(
            video_folder,
            right,
        ),
{
    if set_videos_script(video_folder, left) == set_videos_script(video_folder, right) {
        let opening = "window.paperwall.setVideos("@ + json::quoted(video_folder) + ", "@;
        text::lemma_enclosed_injective(
            opening,
            json::quoted(left),
            json::quoted(right),
            ")"@,
        );
        json::law_quoted_is_injective(left, right);
    }
}

} // verus!
