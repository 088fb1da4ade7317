//! URLs: the addresses under which pages and videos are asked for.
use crate::error::Error;
use crate::paths::{FilePath, FilePathView};
use crate::{paths, text};
use vstd::prelude::*;

verus! {

/// The `file` URL that `url::Url::from_file_path` gives of a path, on a platform whose own
/// separator is `separator`.
pub uninterp spec fn file_url_of(separator: char, path: Seq<char>) -> Option<Seq<char>>;

/// Whether `path` starts at a root: at `/`, or at the root of a drive where the separator is a
/// backslash.
pub open spec fn is_rooted(separator: char, path: Seq<char>) -> bool {
    if separator == '\\' {
        path.len() >= 3 && paths::is_drive(path.take(2)) && paths::is_separator(separator, path[2])
    } else {
        path.len() >= 1 && path[0] == '/'
    }
}

/// Calls `url::Url::from_file_path`, takes the URL as text, and pairs it with the platform's
/// separator `std::path::MAIN_SEPARATOR`, which is `/` or a backslash and decides how a path is
/// read. A path that starts at a root has a URL, and every URL given is one of the `file`
/// scheme.
#[verifier::external_body]
fn url_from_file_path(path: &str) -> (result: (char, Option<String>))
    ensures
        result.0 == '/' || result.0 == '\\',
        paths::optional_text(result.1) == file_url_of(result.0, path@),
        is_rooted(result.0, path@) ==> result.1 is Some,
        result.1 matches Some(url) ==> text::begins_with(url@, "file://"@),
{
    let url = url::Url::from_file_path(path).ok();
    (std::path::MAIN_SEPARATOR, url.map(|url| url.to_string()))
}

/// Whether `url` is the `file` URL of a path, read by the rules of one platform or the other.
pub open spec fn is_file_url(path: FilePathView, url: Seq<char>) -> bool {
    &&& path.utf8
    &&& text::begins_with(url, "file://"@)
    &&& exists|separator: char|
        (separator == '/' || separator == '\\') && #[trigger] file_url_of(separator, path.text)
            == Some(url)
}

/// Whether a path has no `file` URL, read by the rules of one platform or the other. That is so
/// of every path that is not Unicode, and never of one that starts at a root.
pub open spec fn lacks_file_url(path: FilePathView) -> bool {
    path.utf8 ==> exists|separator: char|
        {
            &&& separator == '/' || separator == '\\'
            &&& #[trigger] file_url_of(separator, path.text) is None
            &&& !is_rooted(separator, path.text)
        }
}

/// The message for a path without a `file` URL.
pub open spec fn file_url_failure(path: Seq<char>) -> Seq<char> {
    "Could not create file URL for "@ + path
}

/// The `file` URL of a path.
pub fn create_file_url(path: &FilePath) -> (result: Result<String, Error>)
    ensures
        match result {
            Ok(url) => is_file_url(path@, url@),
            Err(error) => lacks_file_url(path@) && error@ == file_url_failure(path@.text),
        },
        !path@.utf8 ==> result is Err,
        match result {
            Ok(url) => exists|separator: char|
                (separator == '/' || separator == '\\') && #[trigger] file_url_of(
                    separator,
                    path@.text,
                ) == Some(url@),
            Err(error) => {
                &&& error@ == "Could not create file URL for "@ + path@.text
                &&& path@.utf8 ==> exists|separator: char|
                    (separator == '/' || separator == '\\') && #[trigger] file_url_of(
                        separator,
                        path@.text,
                    ) is None && !is_rooted(separator, path@.text)
            },
        },
{
    if path.utf8 {
        let (separator, url) = url_from_file_path(&path.text);
        assert(file_url_of(separator, path@.text) == paths::optional_text(url));
        if let Some(url) = url {
            return Ok(url);
        }
    }
    let mut message = "Could not create file URL for ".to_owned();
    message.append(&path.text);
    Err(Error { message })
}

/// The address of the current video, made new by its version.
pub open spec fn video_url(version: u64) -> Seq<char> {
    "video.mp4?v="@ + text::decimal(version as nat)
}

/// The address of the current video.
pub fn create_video_url(version: u64) -> (result: String)
    ensures
        result@ == video_url(version),
        result@ == "video.mp4?v="@ + text::decimal(version as nat),
{
    let mut result = "video.mp4?v=".to_owned();
    result.append(&text::decimal_text(version));
    result
}

/// Different versions have different addresses, so that no page takes one video for another.
pub proof fn law_video_urls_differ(left: u64, right: u64)
    requires
        left != right,
    ensures
        video_url(left) != video_url(right),
{
    if video_url(left) == video_url(right) {
        let start = "video.mp4?v="@.len() as int;
        assert(video_url(left).skip(start) =~= text::decimal(left as nat));
        assert(video_url(right).skip(start) =~= text::decimal(right as nat));
        text::lemma_decimal_injective(left as nat, right as nat);
    }
}

/// The scheme under which the app answers its own pages.
pub const PROTOCOL: &'static str = "paperwall";

/// The address of the page that shows the wallpaper.
pub fn create_wallpaper_page_url() -> (result: String)
    ensures
        result@ == PROTOCOL@ + "://localhost/index.html"@,
{
    let mut result = PROTOCOL.to_owned();
    result.append("://localhost/index.html");
    result
}

/// A path is refused with its own text, and only where it has no URL by the rules of some
/// platform; one that is not Unicode always is. A URL that is given is the path's own.
pub proof fn law_file_urls(path: FilePathView, url: Seq<char>)
    ensures
        is_file_url(path, url) ==> path.utf8 && (file_url_of('/', path.text) == Some(url)
            || file_url_of('\\', path.text) == Some(url)),
        path.utf8 && lacks_file_url(path) ==> (file_url_of('/', path.text) is None && !is_rooted(
            '/',
            path.text,
        )) || (file_url_of('\\', path.text) is None && !is_rooted('\\', path.text)),
        !path.utf8 ==> lacks_file_url(path) && !is_file_url(path, url),
        file_url_failure(path.text) == "Could not create file URL for "@ + path.text,
{
}

/// What starts at a root is told by its first characters: a slash, or a drive letter, a colon and a
/// separator where the separator is a backslash.
pub proof fn law_rooted_paths(letter: char, mark: char, rest: Seq<char>)
    requires
        'a' <= letter <= 'z' || 'A' <= letter <= 'Z',
        mark == '/' || mark == '\\',
    ensures
        is_rooted('/', seq!['/'] + rest),
        is_rooted('\\', seq![letter, ':', mark] + rest),
        !is_rooted('/', Seq::empty()),
{
    let path = seq![letter, ':', mark] + rest;
    assert(path.take(2) =~= seq![letter, ':']);
}

} // verus!
