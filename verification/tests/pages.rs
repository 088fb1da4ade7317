//! Pages: text, escaping, scripts and the picker.

use paperwall::error::Error;
use paperwall::html::escape_html;
use paperwall::paths::FilePath;
use paperwall::picker::{
    create_picker_html, create_scaling_mode_options, create_set_videos_script, create_tile,
    create_tiles, Platform, PICKER_HEIGHT, PICKER_WIDTH,
};
use paperwall::scaling::{object_fit, ScalingMode, VideoGravity};
use paperwall::text::{
    characters, comes_before, decimal_text, found_at, parse_word, replace, same_text,
};
use paperwall::videos::Video;

fn video(folder: &str, name: &str) -> Video {
    Video { name: name.to_string(), path: FilePath::new(&format!("{folder}/{name}"), true) }
}

#[test]
fn characters_are_unicode_scalar_values() {
    assert_eq!(characters("aé😀"), vec!['a', 'é', '😀']);
    assert_eq!(characters(""), Vec::<char>::new());
}

#[test]
fn decimal_has_no_leading_zeros() {
    assert_eq!(decimal_text(0), "0");
    assert_eq!(decimal_text(9), "9");
    assert_eq!(decimal_text(10), "10");
    assert_eq!(decimal_text(1_048_576), "1048576");
    assert_eq!(decimal_text(u64::MAX), "18446744073709551615");
}

#[test]
fn words_are_parsed_as_the_standard_library_does() {
    for text in [
        "", "+", "-", "0", "7", "+7", "++7", "-7", "007", "7 ", " 7", "7a", "a7", "1_000", "٣",
        "18446744073709551615", "18446744073709551616", "99999999999999999999999",
    ] {
        assert_eq!(parse_word(text), text.parse::<usize>().ok(), "{text:?}");
    }
}

#[test]
fn every_word_reads_back() {
    for value in [0, 1, 42, 999, usize::MAX] {
        assert_eq!(parse_word(&decimal_text(value as u64)), Some(value));
    }
}

#[test]
fn replacement_is_from_the_front_and_never_overlaps() {
    for (text, pattern, into) in [
        ("aaaa", "aa", "b"),
        ("aaa", "aa", "b"),
        ("a{{x}}b{{x}}", "{{x}}", "{{x}}"),
        ("", "a", "b"),
        ("abc", "d", "e"),
        ("é&é", "&", "&amp;"),
        ("abab", "ab", ""),
    ] {
        assert_eq!(replace(text, pattern, into), text.replace(pattern, into));
    }
}

#[test]
fn patterns_are_found_where_they_stand() {
    let text = characters("preview");
    assert!(found_at(&text, 3, &characters("view")));
    assert!(!found_at(&text, 3, &characters("viewer")));
    assert!(!found_at(&text, 2, &characters("view")));
    assert!(found_at(&text, 7, &characters("")));
}

#[test]
fn text_order_is_that_of_strings() {
    let texts = ["", "a", "aa", "ab", "b", "B", "é", "😀", "\u{ffff}", "10", "9"];
    for left in texts {
        for right in texts {
            assert_eq!(comes_before(left, right), left < right, "{left:?} {right:?}");
            assert_eq!(same_text(left, right), left == right);
        }
    }
}

#[test]
fn reserved_characters_are_escaped() {
    assert_eq!(
        escape_html("<a href=\"x?a=1&b=2\">it's</a>"),
        "&lt;a href=&quot;x?a=1&amp;b=2&quot;&gt;it's&lt;/a&gt;"
    );
    assert_eq!(escape_html("&amp;"), "&amp;amp;");
    assert_eq!(escape_html("plain é"), "plain é");
    assert_eq!(escape_html(""), "");
}

#[test]
fn escaping_loses_nothing() {
    let texts = ["", "&", "&amp;", "<", "&lt;", "a", "\"", "&quot;", "amp;"];
    for left in texts {
        for right in texts {
            assert_eq!(escape_html(left) == escape_html(right), left == right);
        }
    }
}

#[test]
fn escaped_text_is_inert() {
    let escaped = escape_html("\"><script>&</script>");
    assert!(!escaped.contains('<') && !escaped.contains('>') && !escaped.contains('"'));
}

#[test]
fn modes_have_labels_layouts_and_styles() {
    assert_eq!(ScalingMode::FillScreen.label(), "Fill Screen");
    assert_eq!(ScalingMode::FitToScreen.label(), "Fit to Screen");
    assert_eq!(ScalingMode::FillScreen.video_gravity(), VideoGravity::ResizeAspectFill);
    assert_eq!(ScalingMode::FitToScreen.video_gravity(), VideoGravity::ResizeAspect);
    assert_eq!(object_fit(ScalingMode::FillScreen), "cover");
    assert_eq!(object_fit(ScalingMode::FitToScreen), "contain");
}

#[test]
fn options_select_the_chosen_mode() {
    assert_eq!(
        create_scaling_mode_options(ScalingMode::FillScreen),
        "<option selected>Fill Screen</option><option>Fit to Screen</option>"
    );
    assert_eq!(
        create_scaling_mode_options(ScalingMode::FitToScreen),
        "<option>Fill Screen</option><option selected>Fit to Screen</option>"
    );
}

#[test]
fn picker_page_is_filled_in_order() {
    let template = "{{video_folder}}|{{scaling_mode_options}}|{{tiles}}|{{video_folder}}";
    assert_eq!(
        create_picker_html(template, "a<b", ScalingMode::FillScreen, "T"),
        "a&lt;b|<option selected>Fill Screen</option><option>Fit to Screen</option>|T|a&lt;b"
    );
    assert_eq!(
        create_picker_html("{{video_folder}}", "{{tiles}}", ScalingMode::FillScreen, "T"),
        "T"
    );
    assert_eq!(
        create_picker_html("{{tiles}}", "f", ScalingMode::FillScreen, "{{video_folder}}"),
        "{{video_folder}}"
    );
}

#[test]
fn picker_window_is_at_least_800_by_600() {
    assert_eq!((PICKER_WIDTH, PICKER_HEIGHT), (800, 600));
}

#[test]
fn tile_names_its_video() {
    assert_eq!(
        create_tile("a&b.mp4", 12, "<img>"),
        concat_tile("a&amp;b.mp4", "12", "<img>")
    );
}

fn concat_tile(name: &str, index: &str, thumbnail: &str) -> String {
    format!(
        "<button aria-label=\"{name}\" aria-pressed=\"false\" class=\"tile\" \
         data-video-index=\"{index}\" title=\"{name}\" type=\"button\">{thumbnail}</button>"
    )
}

#[test]
fn macos_tiles_point_to_previews() {
    let videos = vec![video("/movies", "a.mp4"), video("relative", "b.mp4")];
    assert_eq!(
        create_tiles(Platform::MacOs, &videos).unwrap(),
        concat_tile("a.mp4", "0", "<img alt=\"\" src=\"preview/0.jpg\">")
            + &concat_tile("b.mp4", "1", "<img alt=\"\" src=\"preview/1.jpg\">")
    );
    assert_eq!(create_tiles(Platform::MacOs, &Vec::new()).unwrap(), "");
}

#[test]
fn first_tiles_begin_all() {
    for platform in [Platform::MacOs, Platform::Windows] {
        let names = ["a.mp4", "b.mp4", "c.mp4"];
        let some = |count: usize| {
            let videos: Vec<Video> =
                names.iter().take(count).map(|name| video("/v", name)).collect();
            create_tiles(platform, &videos).unwrap()
        };
        for count in 0..=3 {
            assert!(some(3).starts_with(&some(count)));
            assert_eq!(some(count).matches("<button").count(), count);
        }
    }
}

#[test]
fn windows_tiles_point_to_files() {
    let videos = vec![video("/my videos", "a&b.mp4")];
    assert_eq!(
        create_tiles(Platform::Windows, &videos).unwrap(),
        concat_tile(
            "a&amp;b.mp4",
            "0",
            "<video muted preload=\"metadata\" src=\"file:///my%20videos/a&amp;b.mp4\"></video>"
        )
    );
}

#[test]
fn windows_tiles_fail_with_the_first_path_without_url() {
    let videos = vec![video("/ok", "a.mp4"), video("relative", "b.mp4"), video("other", "c.mp4")];
    assert_eq!(
        create_tiles(Platform::Windows, &videos).unwrap_err().message,
        "Could not create file URL for relative/b.mp4"
    );
}

#[test]
fn script_holds_folder_and_tiles_as_json() {
    assert_eq!(
        create_set_videos_script("C:\\Videos", "<a title=\"x\">\n\t\u{1}\u{8}\u{c}\r\u{1f}é/\u{7f}"),
        "window.paperwall.setVideos(\"C:\\\\Videos\", \
         \"<a title=\\\"x\\\">\\n\\t\\u0001\\b\\f\\r\\u001fé/\u{7f}\")"
    );
}

#[test]
fn errors_keep_their_message() {
    assert_eq!(Error::new("HOME is unavailable").message, "HOME is unavailable");
}

#[test]
fn scripts_tell_texts_apart() {
    let texts = ["", "n", "\\n", "\n", "\"", "\\\"", "\u{1}", "\\u0001", "u0001", "\u{10}"];
    for left in texts {
        for right in texts {
            let same = create_set_videos_script(left, "") == create_set_videos_script(right, "");
            assert_eq!(same, left == right, "{left:?} {right:?}");
        }
    }
}
