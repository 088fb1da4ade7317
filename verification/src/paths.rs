//! Paths: their text, their file names and extensions, and how they are joined.
use crate::text;
use vstd::prelude::*;

verus! {

/// What the app reads of a path: its text, the name of the file it leads to, and whether the
/// text is the path itself or only its rendering in Unicode.
#[derive(Debug)]
pub struct FilePath {
    pub text: String,
    pub file_name: Option<String>,
    pub utf8: bool,
}

/// The model of a `FilePath`.
#[verifier::ext_equal]
pub struct FilePathView {
    pub text: Seq<char>,
    pub file_name: Option<Seq<char>>,
    pub utf8: bool,
}

/// The characters of a text that may be missing.
pub open spec fn optional_text(value: Option<String>) -> Option<Seq<char>> {
    match value {
        Some(present) => Some(present@),
        None => None,
    }
}

impl View for FilePath {
    type V = FilePathView;

    open spec fn view(&self) -> FilePathView {
        FilePathView {
            text: self.text@,
            file_name: optional_text(self.file_name),
            utf8: self.utf8,
        }
    }
}

/// Whether `character` parts the components of a path, on a platform whose own separator is
/// `separator`.
pub open spec fn is_separator(separator: char, character: char) -> bool {
    character == '/' || character == separator
}

/// Where the last separator of `path` stands, or -1 where it has none.
pub open spec fn last_separator(separator: char, path: Seq<char>) -> int
    decreases path.len(),
{
    if path.len() == 0 {
        -1
    } else if is_separator(separator, path.last()) {
        path.len() - 1
    } else {
        last_separator(separator, path.drop_last())
    }
}

/// What follows the last separator of `path`.
pub open spec fn last_component(separator: char, path: Seq<char>) -> Seq<char> {
    path.skip(last_separator(separator, path) + 1)
}

/// Whether `path` ends in an ordinary name: not empty, neither `.` nor `..`, and, where the
/// separator is a backslash, clear of drives, shares and device names.
pub open spec fn ends_in_name(separator: char, path: Seq<char>) -> bool {
    let name = last_component(separator, path);
    &&& name.len() > 0
    &&& name != seq!['.']
    &&& name != seq!['.', '.']
    &&& separator == '\\' ==> {
        &&& !name.contains(':')
        &&& !(path.len() >= 2 && is_separator(separator, path[0]) && is_separator(
            separator,
            path[1],
        ))
    }
}

/// The file name that `std::path::Path::file_name` gives of a path, on a platform whose own
/// separator is `separator`.
pub uninterp spec fn file_name_of(separator: char, path: Seq<char>) -> Option<Seq<char>>;

/// Calls `std::path::Path::file_name` and pairs the result with the platform's separator
/// `std::path::MAIN_SEPARATOR`, which is `/` or a backslash and decides how a path is read. Of
/// a path that ends in an ordinary name, the result is that name.
#[verifier::external_body]
fn path_file_name(path: &str) -> (result: (char, Option<String>))
    ensures
        result.0 == '/' || result.0 == '\\',
        optional_text(result.1) == file_name_of(result.0, path@),
        ends_in_name(result.0, path@) ==> optional_text(result.1) == Some(
            last_component(result.0, path@),
        ),
{
    let name = std::path::Path::new(path).file_name();
    (std::path::MAIN_SEPARATOR, name.map(|name| name.to_string_lossy().into_owned()))
}

/// Whether `file_name` is what `path` names, read by the rules of one platform or the other.
pub open spec fn is_file_name(path: Seq<char>, file_name: Option<Seq<char>>) -> bool {
    exists|separator: char|
        {
            &&& separator == '/' || separator == '\\'
            &&& #[trigger] file_name_of(separator, path) == file_name
            &&& ends_in_name(separator, path) ==> file_name == Some(
                last_component(separator, path),
            )
        }
}

impl FilePath {
    /// The path that `text` renders.
    pub fn new(text: &str, utf8: bool) -> (result: FilePath)
        ensures
            result@.text == text@,
            result@.utf8 == utf8,
            is_file_name(text@, result@.file_name),
            exists|separator: char|
                {
                    &&& separator == '/' || separator == '\\'
                    &&& #[trigger] file_name_of(separator, text@) == result@.file_name
                    &&& ends_in_name(separator, text@) ==> result@.file_name == Some(
                        last_component(separator, text@),
                    )
                },
    {
        let (separator, file_name) = path_file_name(text);
        let result = FilePath { text: text.to_owned(), file_name, utf8 };
        assert(file_name_of(separator, text@) == result@.file_name);
        result
    }

    /// Another copy of the path.
    pub fn copy(&self) -> (result: FilePath)
        ensures
            result@ == self@,
    {
        let file_name = match &self.file_name {
            Some(name) => Some(name.clone()),
            None => None,
        };
        FilePath { text: self.text.clone(), file_name, utf8: self.utf8 }
    }
}

/// An ordinary path names the same file on every platform: its last component.
pub proof fn law_ordinary_file_name(path: Seq<char>, file_name: Option<Seq<char>>)
    requires
        is_file_name(path, file_name),
        !path.contains('\\'),
        ends_in_name('\\', path),
    ensures
        file_name == Some(last_component('/', path)),
{
    lemma_last_separator_without_backslash(path);
}

proof fn lemma_last_separator_without_backslash(path: Seq<char>)
    requires
        !path.contains('\\'),
    ensures
        last_separator('\\', path) == last_separator('/', path),
    decreases path.len(),
{
    if path.len() > 0 {
        assert(path.contains(path.last()));
        assert forall|i: int| 0 <= i < path.drop_last().len() implies path.drop_last()[i]
            != '\\' by {
            assert(path.contains(path[i]));
        }
        lemma_last_separator_without_backslash(path.drop_last());
    }
}

/// Where the last dot of `name` stands, or -1 where it has none.
pub open spec fn last_dot(name: Seq<char>) -> int
    decreases name.len(),
{
    if name.len() == 0 {
        -1
    } else if name.last() == '.' {
        name.len() - 1
    } else {
        last_dot(name.drop_last())
    }
}

/// The extension of a file name: what follows its last dot, unless the name has no dot or only
/// one in front.
pub open spec fn extension_of(name: Seq<char>) -> Option<Seq<char>> {
    if last_dot(name) <= 0 {
        None
    } else {
        Some(name.skip(last_dot(name) + 1))
    }
}

/// Whether `extension` is `mp4`, in capitals or not.
pub open spec fn is_mp4_extension(extension: Seq<char>) -> bool {
    &&& extension.len() == 3
    &&& extension[0] == 'm' || extension[0] == 'M'
    &&& extension[1] == 'p' || extension[1] == 'P'
    &&& extension[2] == '4'
}

/// Whether a file of this name is taken for a video.
pub open spec fn is_video_name(file_name: Option<Seq<char>>) -> bool {
    file_name matches Some(name) && extension_of(name) matches Some(extension) && is_mp4_extension(
        extension,
    )
}

/// Tells whether a path leads to a video, by the extension of its file name.
pub fn is_video_path(path: &FilePath) -> (result: bool)
    ensures
        result == is_video_name(path@.file_name),
{
    match &path.file_name {
        None => false,
        Some(file_name) => {
            let name = text::characters(file_name);
            let mut end: usize = name.len();
            assert(name@.take(end as int) =~= name@);
            while end > 0 && name[end - 1] != '.'
                invariant
                    end <= name@.len(),
                    last_dot(name@) == last_dot(name@.take(end as int)),
                decreases end,
            {
                assert(name@.take(end as int).drop_last() =~= name@.take(end - 1));
                end = end - 1;
            }
            assert(last_dot(name@) == end - 1);
            if end <= 1 || name.len() - end != 3 {
                return false;
            }
            let m = name[end];
            let p = name[end + 1];
            (m == 'm' || m == 'M') && (p == 'p' || p == 'P') && name[end + 2] == '4'
        },
    }
}

/// Whether `path` is a drive letter and its colon.
pub open spec fn is_drive(path: Seq<char>) -> bool {
    &&& path.len() == 2
    &&& 'a' <= path[0] <= 'z' || 'A' <= path[0] <= 'Z'
    &&& path[1] == ':'
}

/// Whether `path` begins with `\\?\`, below which Windows takes a path as it is written and only
/// a backslash parts its components.
pub open spec fn is_verbatim(path: Seq<char>) -> bool {
    &&& path.len() >= 4
    &&& path[0] == '\\'
    &&& path[1] == '\\'
    &&& path[2] == '?'
    &&& path[3] == '\\'
}

/// Where the first backslash of `text` stands, or its length where it has none.
pub open spec fn first_backslash(text: Seq<char>) -> int
    decreases text.len(),
{
    if text.len() == 0 || text[0] == '\\' {
        0
    } else {
        1 + first_backslash(text.skip(1))
    }
}

/// Whether a verbatim path leads to a share: `\\?\UNC\{server}\{share}`.
pub open spec fn names_share(path: Seq<char>) -> bool {
    &&& path.len() >= 8
    &&& path[4] == 'U'
    &&& path[5] == 'N'
    &&& path[6] == 'C'
    &&& is_separator('\\', path[7])
}

/// Whether a verbatim path leads to a drive: `\\?\{letter}:`, with a separator behind it or
/// nothing.
pub open spec fn names_drive(path: Seq<char>) -> bool {
    &&& path.len() >= 6
    &&& is_drive(path.subrange(4, 6))
    &&& path.len() == 6 || is_separator('\\', path[6])
}

/// The length of the prefix of a verbatim path: up to its share, its drive, or else its first
/// component. A server without a share is a prefix, too.
pub open spec fn prefix_length(path: Seq<char>) -> int {
    if names_share(path) {
        let server = 8 + first_backslash(path.skip(8));
        if server < path.len() && first_backslash(path.skip(server + 1)) > 0 {
            server + 1 + first_backslash(path.skip(server + 1))
        } else {
            server
        }
    } else if names_drive(path) {
        6
    } else {
        4 + first_backslash(path.skip(4))
    }
}

/// What follows the prefix of a verbatim path and its root.
pub open spec fn below_root(path: Seq<char>) -> Seq<char> {
    let rest = path.skip(prefix_length(path));
    if rest.len() == 0 {
        rest
    } else {
        rest.skip(1)
    }
}

/// The pieces between the backslashes of `text` that are not empty.
pub open spec fn pieces(text: Seq<char>) -> Seq<Seq<char>>
    decreases text.len(),
{
    let end = first_backslash(text);
    if text.len() == 0 {
        Seq::empty()
    } else if end >= text.len() {
        seq![text]
    } else if end <= 0 {
        pieces(text.skip(1))
    } else {
        seq![text.take(end)] + pieces(text.skip(end + 1))
    }
}

/// Some pieces, each with a backslash behind it.
pub open spec fn backslashed(pieces: Seq<Seq<char>>) -> Seq<char>
    decreases pieces.len(),
{
    if pieces.len() == 0 {
        Seq::empty()
    } else {
        pieces[0].push('\\') + backslashed(pieces.skip(1))
    }
}

/// `part` behind a verbatim path: the prefix, the pieces below its root and `part`, with one
/// backslash between neighbours.
pub open spec fn joined_below(base: Seq<char>, part: Seq<char>) -> Seq<char> {
    base.take(prefix_length(base)).push('\\') + backslashed(pieces(below_root(base))) + part
}

/// `part` behind `base`, with a separator between them unless `base` is empty, ends in one or
/// is a bare drive. Below a verbatim prefix the pieces are put together anew. `part` is a name,
/// or several put together before.
pub open spec fn joined(separator: char, base: Seq<char>, part: Seq<char>) -> Seq<char> {
    if separator == '\\' && is_verbatim(base) && part.len() > 0 {
        joined_below(base, part)
    } else if base.len() == 0 || is_separator(separator, base.last()) || (separator == '\\'
        && is_drive(base)) {
        base + part
    } else {
        base.push(separator) + part
    }
}

/// The first backslash stands within a text or at its end, and none stands before it.
proof fn lemma_first_backslash(text: Seq<char>)
    ensures
        0 <= first_backslash(text) <= text.len(),
        first_backslash(text) < text.len() ==> text[first_backslash(text)] == '\\',
        forall|i: int| 0 <= i < first_backslash(text) ==> #[trigger] text[i] != '\\',
    decreases text.len(),
{
    if text.len() > 0 && text[0] != '\\' {
        lemma_first_backslash(text.skip(1));
        assert forall|i: int| 0 <= i < first_backslash(text) implies #[trigger] text[i]
            != '\\' by {
            if i > 0 {
                assert(text[i] == text.skip(1)[i - 1]);
            }
        }
    }
}

/// A backslash with none before it is the first.
pub proof fn lemma_is_first_backslash(text: Seq<char>, position: int)
    requires
        0 <= position <= text.len(),
        position < text.len() ==> text[position] == '\\',
        forall|i: int| 0 <= i < position ==> #[trigger] text[i] != '\\',
    ensures
        first_backslash(text) == position,
{
    lemma_first_backslash(text);
    if first_backslash(text) < position {
        assert(text[first_backslash(text)] != '\\');
    }
    if position < first_backslash(text) {
        assert(text[position] != '\\');
    }
}

/// Finds the first backslash at or behind `start`.
fn find_backslash(source: &Vec<char>, start: usize) -> (result: usize)
    requires
        start <= source@.len(),
    ensures
        start <= result <= source@.len(),
        result == start + first_backslash(source@.skip(start as int)),
{
    let mut position: usize = start;
    while position < source.len() && source[position] != '\\'
        invariant
            start <= position <= source@.len(),
            forall|i: int| start <= i < position ==> #[trigger] source@[i] != '\\',
        decreases source@.len() - position,
    {
        position = position + 1;
    }
    proof {
        let rest = source@.skip(start as int);
        assert forall|i: int| 0 <= i < position - start implies #[trigger] rest[i] != '\\' by {
            assert(rest[i] == source@[start + i]);
        }
        lemma_is_first_backslash(rest, position - start);
    }
    position
}

/// Finds the end of the prefix of a verbatim path.
fn find_prefix_end(source: &Vec<char>) -> (result: usize)
    requires
        is_verbatim(source@),
    ensures
        result == prefix_length(source@),
        result <= source@.len(),
{
    let length = source.len();
    if length >= 8 && source[4] == 'U' && source[5] == 'N' && source[6] == 'C' && (source[7]
        == '\\' || source[7] == '/') {
        let server = find_backslash(source, 8);
        if server < length {
            let share = find_backslash(source, server + 1);
            if share > server + 1 {
                return share;
            }
        }
        return server;
    }
    if length >= 6 && (('a' <= source[4] && source[4] <= 'z') || ('A' <= source[4] && source[4]
        <= 'Z')) && source[5] == ':' && (length == 6 || source[6] == '\\' || source[6] == '/') {
        return 6;
    }
    find_backslash(source, 4)
}

/// Joins a verbatim path and a name.
fn join_below(source: &Vec<char>, part: &str) -> (result: String)
    requires
        is_verbatim(source@),
    ensures
        result@ == joined_below(source@, part@),
{
    let end = find_prefix_end(source);
    let mut result = String::new();
    let mut position: usize = 0;
    assert(source@.take(0) =~= Seq::<char>::empty());
    while position < end
        invariant
            position <= end <= source@.len(),
            result@ == source@.take(position as int),
        decreases end - position,
    {
        result.push(source[position]);
        assert(source@.take(position as int).push(source@[position as int]) =~= source@.take(
            position + 1,
        ));
        position = position + 1;
    }
    result.push('\\');
    let ghost root = result@;
    let ghost body = below_root(source@);
    let mut start: usize = end;
    if start < source.len() {
        start = start + 1;
    }
    assert(body =~= source@.skip(start as int));
    while start < source.len()
        invariant
            start <= source@.len(),
            root + backslashed(pieces(body)) == result@ + backslashed(
                pieces(source@.skip(start as int)),
            ),
        decreases source@.len() - start,
    {
        let stop = find_backslash(source, start);
        let ghost rest = source@.skip(start as int);
        let ghost before = result@;
        let mut copied: usize = start;
        assert(rest.take(0) =~= Seq::<char>::empty());
        assert(before + rest.take(0) =~= before);
        while copied < stop
            invariant
                start <= copied <= stop <= source@.len(),
                rest == source@.skip(start as int),
                result@ == before + rest.take(copied - start),
            decreases stop - copied,
        {
            result.push(source[copied]);
            assert(rest[copied - start] == source@[copied as int]);
            assert((before + rest.take(copied - start)).push(source@[copied as int]) =~= before
                + rest.take(copied - start + 1));
            copied = copied + 1;
        }
        let ghost piece = rest.take(stop - start);
        if stop > start {
            result.push('\\');
        }
        let next = if stop < source.len() {
            stop + 1
        } else {
            stop
        };
        proof {
            let tail = source@.skip(next as int);
            if stop > start {
                if stop < source@.len() {
                    assert(rest.skip(stop - start + 1) =~= tail);
                } else {
                    assert(piece =~= rest);
                    assert(tail =~= Seq::<char>::empty());
                }
                assert(pieces(rest) =~= seq![piece] + pieces(tail));
                assert(pieces(rest).skip(1) =~= pieces(tail));
                assert(result@ =~= before + piece.push('\\'));
                assert(before + backslashed(pieces(rest)) =~= result@ + backslashed(pieces(tail)));
            } else {
                assert(rest.skip(1) =~= tail);
                assert(result@ =~= before);
            }
        }
        start = next;
    }
    assert(result@ =~= root + backslashed(pieces(body))) by {
        assert(source@.skip(start as int) =~= Seq::<char>::empty());
    }
    result.append(part);
    result
}

/// Joins a path and a name with the separator of a platform.
pub fn join(separator: char, base: &str, part: &str) -> (result: String)
    ensures
        result@ == joined(separator, base@, part@),
{
    let source = text::characters(base);
    if separator == '\\' && source.len() >= 4 && source[0] == '\\' && source[1] == '\\'
        && source[2] == '?' && source[3] == '\\' && text::characters(part).len() > 0 {
        return join_below(&source, part);
    }
    let mut result = base.to_owned();
    if source.len() > 0 {
        let last = source[source.len() - 1];
        let drive = separator == '\\' && source.len() == 2 && (('a' <= source[0] && source[0]
            <= 'z') || ('A' <= source[0] && source[0] <= 'Z')) && source[1] == ':';
        if last != '/' && last != separator && !drive {
            result.push(separator);
        }
    }
    result.append(part);
    result
}

/// Whether single backslashes part the components of `text`, with none in front or at the end.
pub open spec fn is_parted_once(text: Seq<char>) -> bool {
    &&& text.len() > 0
    &&& text[0] != '\\'
    &&& text.last() != '\\'
    &&& forall|i: int| 0 < i < text.len() && text[i] == '\\' ==> #[trigger] text[i - 1] != '\\'
}

/// Whether a verbatim path is a prefix alone, or has a backslash behind its prefix and between
/// its components, and nowhere else.
pub open spec fn is_tidy(path: Seq<char>) -> bool {
    let rest = path.skip(prefix_length(path));
    rest.len() > 0 ==> rest[0] == '\\' && is_parted_once(rest.skip(1))
}

/// Text that is parted once is its pieces, with one backslash between neighbours.
proof fn lemma_parted_once(text: Seq<char>)
    requires
        is_parted_once(text),
    ensures
        backslashed(pieces(text)) == text.push('\\'),
    decreases text.len(),
{
    lemma_first_backslash(text);
    let end = first_backslash(text);
    let found = pieces(text);
    if end == text.len() {
        assert(found.skip(1) =~= Seq::<Seq<char>>::empty());
        assert(backslashed(found.skip(1)) =~= Seq::<char>::empty());
        assert(backslashed(found) =~= text.push('\\'));
    } else {
        let tail = text.skip(end + 1);
        assert(tail.len() > 0);
        assert(tail[0] == text[end + 1]);
        assert(text[end + 1] != '\\') by {
            if text[end + 1] == '\\' {
                assert(text[end + 1 - 1] != '\\');
            }
        }
        assert forall|i: int| 0 < i < tail.len() && tail[i] == '\\' implies #[trigger] tail[i - 1]
            != '\\' by {
            assert(tail[i] == text[end + 1 + i]);
            assert(tail[i - 1] == text[end + 1 + i - 1]);
        }
        lemma_parted_once(tail);
        assert(found.skip(1) =~= pieces(tail));
        assert(backslashed(found) =~= text.push('\\'));
    }
}

/// A name behind a tidy verbatim path is put there as behind any other: after one backslash, and
/// with nothing before it changed.
pub proof fn law_joined_below_tidy(base: Seq<char>, part: Seq<char>)
    requires
        is_verbatim(base),
        is_tidy(base),
        part.len() > 0,
    ensures
        joined('\\', base, part) == base.push('\\') + part,
{
    lemma_prefix_length(base);
    let length = prefix_length(base);
    let rest = base.skip(length);
    if rest.len() == 0 {
        assert(base.take(length) =~= base);
        assert(backslashed(pieces(rest)) =~= Seq::<char>::empty());
    } else {
        lemma_parted_once(rest.skip(1));
        assert(base =~= base.take(length).push('\\') + rest.skip(1));
    }
    assert(joined_below(base, part) =~= base.push('\\') + part);
}

/// The prefix of a verbatim path lies within it.
proof fn lemma_prefix_length(path: Seq<char>)
    requires
        is_verbatim(path),
    ensures
        4 <= prefix_length(path) <= path.len(),
{
    lemma_first_backslash(path.skip(4));
    if names_share(path) {
        lemma_first_backslash(path.skip(8));
        let server = 8 + first_backslash(path.skip(8));
        if server < path.len() {
            lemma_first_backslash(path.skip(server + 1));
        }
    }
}

/// A backslash and a name behind a path leave the first backslash from `start` on where it is, or
/// are where it is.
proof fn lemma_first_backslash_stays(path: Seq<char>, name: Seq<char>, start: int)
    requires
        0 <= start <= path.len(),
    ensures
        first_backslash((path.push('\\') + name).skip(start)) == first_backslash(path.skip(start)),
{
    let longer = (path.push('\\') + name).skip(start);
    let shorter = path.skip(start);
    lemma_first_backslash(shorter);
    assert forall|i: int| 0 <= i < first_backslash(shorter) implies #[trigger] longer[i]
        != '\\' by {
        assert(longer[i] == shorter[i]);
    }
    lemma_is_first_backslash(longer, first_backslash(shorter));
}

/// A tidy verbatim path stays tidy with a backslash and a name behind it.
pub proof fn lemma_tidy_with_name(path: Seq<char>, name: Seq<char>)
    requires
        is_verbatim(path),
        is_tidy(path),
        name.len() > 0,
        !name.contains('\\'),
    ensures
        is_verbatim(path.push('\\') + name),
        is_tidy(path.push('\\') + name),
{
    let longer = path.push('\\') + name;
    assert forall|i: int| 0 <= i < path.len() implies #[trigger] longer[i] == path[i] by {}
    assert forall|i: int| 0 <= i < name.len() implies #[trigger] name[i] != '\\' by {
        assert(name.contains(name[i]));
    }
    lemma_prefix_length(path);
    lemma_prefix_length(longer);
    let length = prefix_length(path);
    if names_share(longer) {
        if path.len() == 7 {
            assert(longer.skip(8) =~= name);
            lemma_is_first_backslash(name, name.len() as int);
        } else {
            lemma_first_backslash_stays(path, name, 8);
            lemma_first_backslash(path.skip(8));
            let server = 8 + first_backslash(path.skip(8));
            if server < path.len() {
                lemma_first_backslash_stays(path, name, server + 1);
                lemma_first_backslash(path.skip(server + 1));
                if first_backslash(path.skip(server + 1)) == 0 {
                    let rest = path.skip(server);
                    assert(rest.skip(1) =~= path.skip(server + 1));
                    assert(false);
                }
                lemma_tidy_below(path, name, length);
            } else {
                assert(longer.skip(server + 1) =~= name);
                lemma_is_first_backslash(name, name.len() as int);
            }
        }
    } else if names_drive(path) {
        assert(longer.subrange(4, 6) =~= path.subrange(4, 6));
        lemma_tidy_below(path, name, length);
    } else {
        assert(!names_drive(longer)) by {
            if path.len() >= 6 {
                assert(longer.subrange(4, 6) =~= path.subrange(4, 6));
            } else {
                assert(longer.subrange(4, 6)[path.len() - 4] == '\\');
            }
        }
        lemma_first_backslash_stays(path, name, 4);
        lemma_tidy_below(path, name, length);
    }
}

/// Behind a prefix that stays the same, a tidy path stays tidy with a name behind it.
proof fn lemma_tidy_below(path: Seq<char>, name: Seq<char>, length: int)
    requires
        is_verbatim(path),
        is_tidy(path),
        length == prefix_length(path),
        length == prefix_length(path.push('\\') + name),
        name.len() > 0,
        forall|i: int| 0 <= i < name.len() ==> #[trigger] name[i] != '\\',
    ensures
        is_tidy(path.push('\\') + name),
{
    lemma_prefix_length(path);
    let longer = path.push('\\') + name;
    let rest = path.skip(length);
    let more = longer.skip(length);
    assert(more =~= rest.push('\\') + name);
    if rest.len() == 0 {
        assert(more.skip(1) =~= name);
        assert(name[0] != '\\');
        assert(name[name.len() - 1] != '\\');
    } else {
        let below = more.skip(1);
        let body = rest.skip(1);
        assert(below =~= body.push('\\') + name);
        assert(below[0] == body[0]);
        assert(below.last() == name[name.len() - 1]);
        assert forall|i: int| 0 < i < below.len() && below[i] == '\\' implies #[trigger] below[i
            - 1] != '\\' by {
            if i < body.len() {
                assert(below[i] == body[i]);
                assert(below[i - 1] == body[i - 1]);
            } else if i == body.len() {
                assert(below[i - 1] == body.last());
            } else {
                assert(below[i] == name[i - body.len() - 1]);
            }
        }
    }
}

/// A file is taken for a video exactly if its name is something, a dot, and `mp4`, in capitals or
/// not.
pub proof fn law_video_names_end_in_mp4(name: Seq<char>)
    ensures
        is_video_name(Some(name)) <==> {
            &&& name.len() >= 5
            &&& name[name.len() - 4] == '.'
            &&& name[name.len() - 3] == 'm' || name[name.len() - 3] == 'M'
            &&& name[name.len() - 2] == 'p' || name[name.len() - 2] == 'P'
            &&& name[name.len() - 1] == '4'
        },
        !is_video_name(None),
{
    lemma_last_dot(name);
    let dot = last_dot(name);
    if name.len() >= 5 && name[name.len() - 4] == '.' {
        if dot > name.len() - 4 {
            assert(name[dot] == '.');
        }
    }
    if is_video_name(Some(name)) {
        let extension = name.skip(dot + 1);
        assert(extension.len() == 3);
        assert(extension[0] == name[dot + 1]);
        assert(extension[1] == name[dot + 2]);
        assert(extension[2] == name[dot + 3]);
    } else if dot == name.len() - 4 && dot > 0 {
        let extension = name.skip(dot + 1);
        assert(extension[0] == name[dot + 1]);
        assert(extension[1] == name[dot + 2]);
        assert(extension[2] == name[dot + 3]);
    }
}

/// The last dot of a name is one, and none stands behind it.
proof fn lemma_last_dot(name: Seq<char>)
    ensures
        -1 <= last_dot(name) < name.len(),
        last_dot(name) >= 0 ==> name[last_dot(name)] == '.',
        forall|i: int| last_dot(name) < i < name.len() ==> #[trigger] name[i] != '.',
    decreases name.len(),
{
    if name.len() > 0 && name.last() != '.' {
        let shorter = name.drop_last();
        lemma_last_dot(shorter);
        assert forall|i: int| last_dot(name) < i < name.len() implies #[trigger] name[i] != '.' by {
            if i < shorter.len() {
                assert(name[i] == shorter[i]);
            }
        }
    }
}

/// The last component of a path has no separator in it, and is the whole path or has one before
/// it.
pub proof fn law_last_component(separator: char, path: Seq<char>)
    ensures
        ends_at_separator(separator, path, last_component(separator, path)),
{
    lemma_last_separator(separator, path);
    let place = last_separator(separator, path);
    let name = last_component(separator, path);
    assert(path.take(place + 1) + name =~= path);
    assert forall|i: int| 0 <= i < name.len() implies !is_separator(
        separator,
        #[trigger] name[i],
    ) by {
        assert(name[i] == path[place + 1 + i]);
    }
    if place >= 0 {
        assert(path.take(place + 1).last() == path[place]);
    }
}

/// Whether `name` is what follows the last separator of `path`, or the whole of it.
pub open spec fn ends_at_separator(separator: char, path: Seq<char>, name: Seq<char>) -> bool {
    let before = path.take(path.len() - name.len());
    &&& name.len() <= path.len()
    &&& path == before + name
    &&& before.len() > 0 ==> before.last() == '/' || before.last() == separator
    &&& forall|i: int|
        0 <= i < name.len() ==> #[trigger] name[i] != '/' && name[i] != separator
}

/// The last separator of a path is one, and none stands behind it.
proof fn lemma_last_separator(separator: char, path: Seq<char>)
    ensures
        -1 <= last_separator(separator, path) < path.len(),
        last_separator(separator, path) >= 0 ==> is_separator(
            separator,
            path[last_separator(separator, path)],
        ),
        forall|i: int|
            last_separator(separator, path) < i < path.len() ==> !is_separator(
                separator,
                #[trigger] path[i],
            ),
    decreases path.len(),
{
    if path.len() > 0 && !is_separator(separator, path.last()) {
        let shorter = path.drop_last();
        lemma_last_separator(separator, shorter);
        assert forall|i: int| last_separator(separator, path) < i < path.len() implies !is_separator(
            separator,
            #[trigger] path[i],
        ) by {
            if i < shorter.len() {
                assert(path[i] == shorter[i]);
            }
        }
    }
}

/// Joining puts the separator between a path and a name, and nothing else; where the path is
/// empty, ends in a separator or is a bare drive, nothing at all.
pub proof fn law_joined_with_one_separator(separator: char, base: Seq<char>, part: Seq<char>)
    requires
        !(separator == '\\' && is_verbatim(base)),
    ensures
        joined(separator, base, part) == (if base.len() == 0 || base.last() == '/' || base.last()
            == separator || (separator == '\\' && base.len() == 2 && base[1] == ':' && ('a'
            <= base[0] <= 'z' || 'A' <= base[0] <= 'Z')) {
            base + part
        } else {
            base + seq![separator] + part
        }),
{
    assert(base.push(separator) =~= base + seq![separator]);
}

/// What is verbatim begins with two backslashes, a question mark and a backslash.
pub proof fn law_verbatim_begins_so(path: Seq<char>)
    ensures
        is_verbatim(path) <==> text::begins_with(path, seq!['\\', '\\', '?', '\\']),
{
    let start = seq!['\\', '\\', '?', '\\'];
    if path.len() >= 4 {
        if is_verbatim(path) {
            assert(path.subrange(0, 4) =~= start);
        }
        if text::begins_with(path, start) {
            assert(path.subrange(0, 4)[0] == path[0]);
            assert(path.subrange(0, 4)[1] == path[1]);
            assert(path.subrange(0, 4)[2] == path[2]);
            assert(path.subrange(0, 4)[3] == path[3]);
        }
    }
}

/// A backslash parts the pieces before it from those behind it, a text without one is a piece,
/// and no piece is empty.
pub proof fn law_pieces_are_parted_by_backslashes(left: Seq<char>, right: Seq<char>)
    ensures
        pieces(left.push('\\') + right) == pieces(left) + pieces(right),
        pieces(Seq::empty()) == Seq::<Seq<char>>::empty(),
        left.len() > 0 && !left.contains('\\') ==> pieces(left) == seq![left],
    decreases left.len(),
{
    let whole = left.push('\\') + right;
    lemma_first_backslash(left);
    lemma_first_backslash(whole);
    let end = first_backslash(left);
    assert(whole.skip(0) =~= whole);
    assert(left.skip(0) =~= left);
    lemma_first_backslash_stays(left, right, 0);
    assert(first_backslash(whole) == end);
    if left.len() == 0 {
        assert(whole.skip(1) =~= right);
        assert(pieces(left) + pieces(right) =~= pieces(right));
    } else if end == left.len() {
        assert(whole.take(end) =~= left);
        assert(whole.skip(end + 1) =~= right);
    } else {
        let rest = left.skip(end + 1);
        assert(whole.skip(end + 1) =~= rest.push('\\') + right);
        law_pieces_are_parted_by_backslashes(rest, right);
        assert(whole.take(end) =~= left.take(end));
        assert(pieces(whole) =~= pieces(left) + pieces(right));
        assert(left.contains('\\')) by {
            assert(left[end] == '\\');
        }
    }
    if left.len() > 0 && !left.contains('\\') {
        if end < left.len() {
            assert(left.contains(left[end]));
        }
    }
}

/// A name below a verbatim drive, share or other root stands behind the pieces of the path, with
/// one backslash between neighbours.
pub proof fn law_joined_below_verbatim(root: Seq<char>, rest: Seq<char>, part: Seq<char>)
    requires
        is_verbatim(root),
        prefix_length(root) == root.len(),
        prefix_length(root.push('\\') + rest) == root.len(),
        part.len() > 0,
    ensures
        joined('\\', root.push('\\') + rest, part) == root + seq!['\\'] + backslashed(pieces(rest))
            + part,
        joined('\\', root, part) == root + seq!['\\'] + part,
{
    let base = root.push('\\') + rest;
    assert forall|i: int| 0 <= i < root.len() implies #[trigger] base[i] == root[i] by {}
    assert(base.take(root.len() as int) =~= root);
    assert(below_root(base) =~= rest);
    assert(root.take(root.len() as int) =~= root);
    assert(below_root(root) =~= Seq::empty());
    assert(backslashed(pieces(below_root(root))) =~= Seq::empty());
    assert(joined('\\', base, part) =~= root + seq!['\\'] + backslashed(pieces(rest)) + part);
    assert(joined('\\', root, part) =~= root + seq!['\\'] + part);
}

/// Some pieces with a backslash behind each: one piece more is that piece and a backslash more.
pub proof fn law_backslashed(pieces: Seq<Seq<char>>, piece: Seq<char>)
    ensures
        backslashed(Seq::empty()) == Seq::<char>::empty(),
        backslashed(seq![piece] + pieces) == piece + seq!['\\'] + backslashed(pieces),
{
    let more = seq![piece] + pieces;
    assert(more.skip(1) =~= pieces);
    assert(backslashed(more) =~= piece + seq!['\\'] + backslashed(pieces));
}

/// The prefix of a verbatim path is a drive and its colon, a server and its share, or one
/// component, whatever follows behind a backslash.
pub proof fn law_verbatim_prefixes(letter: char, name: Seq<char>, share: Seq<char>, rest: Seq<char>)
    requires
        'a' <= letter <= 'z' || 'A' <= letter <= 'Z',
        name.len() > 0,
        share.len() > 0,
        !name.contains('\\'),
        !share.contains('\\'),
    ensures
        ({
            let start = seq!['\\', '\\', '?', '\\'];
            let drive = start + seq![letter, ':'];
            let server = start + seq!['U', 'N', 'C', '\\'] + name;
            let other = start + name;
            let tail = seq!['\\'] + rest;
            &&& prefix_length(drive) == 6 && prefix_length(drive + tail) == 6
            &&& prefix_length(server) == server.len()
            &&& prefix_length(server + seq!['\\'] + share) == server.len() + 1 + share.len()
            &&& prefix_length(server + seq!['\\'] + share + tail) == server.len() + 1 + share.len()
            &&& !names_drive(other) && name != seq!['U', 'N', 'C'] && !names_share(other)
                ==> prefix_length(other) == other.len() && prefix_length(other + tail)
                == other.len()
        }),
{
    let start = seq!['\\', '\\', '?', '\\'];
    let tail = seq!['\\'] + rest;
    assert forall|i: int| 0 <= i < name.len() implies #[trigger] name[i] != '\\' by {
        assert(name.contains(name[i]));
    }
    assert forall|i: int| 0 <= i < share.len() implies #[trigger] share[i] != '\\' by {
        assert(share.contains(share[i]));
    }
    let drive = start + seq![letter, ':'];
    assert(drive.subrange(4, 6) =~= seq![letter, ':']);
    assert((drive + tail).subrange(4, 6) =~= seq![letter, ':']);
    let server = start + seq!['U', 'N', 'C', '\\'] + name;
    assert(server.skip(8) =~= name);
    lemma_is_first_backslash(name, name.len() as int);
    let shared = server + seq!['\\'] + share;
    assert(shared.skip(8) =~= name + seq!['\\'] + share);
    lemma_is_first_backslash(shared.skip(8), name.len() as int);
    assert(shared.skip(server.len() as int + 1) =~= share);
    lemma_is_first_backslash(share, share.len() as int);
    let below = shared + tail;
    assert(below.skip(8) =~= name + seq!['\\'] + share + tail);
    lemma_is_first_backslash(below.skip(8), name.len() as int);
    assert(below.skip(server.len() as int + 1) =~= share + tail);
    lemma_is_first_backslash(below.skip(server.len() as int + 1), share.len() as int);
    let other = start + name;
    if !names_drive(other) && name != seq!['U', 'N', 'C'] && !names_share(other) {
        let more = other + tail;
        assert(other.skip(4) =~= name);
        assert(more.skip(4) =~= name + tail);
        lemma_is_first_backslash(more.skip(4), name.len() as int);
        assert forall|i: int| 0 <= i < other.len() implies #[trigger] more[i] == other[i] by {}
        assert(!names_share(more)) by {
            if names_share(more) && other.len() < 8 {
                assert(more[other.len() as int] == '\\');
                assert(other.len() == 7);
                assert(name =~= seq!['U', 'N', 'C']);
            }
        }
        assert(!names_drive(more)) by {
            if names_drive(more) {
                assert(more.subrange(4, 6)[0] == more[4]);
                assert(more.subrange(4, 6)[1] == more[5]);
                if other.len() >= 6 {
                    assert(other.subrange(4, 6) =~= more.subrange(4, 6));
                } else {
                    assert(more[other.len() as int] == '\\');
                }
            }
        }
    }
}

} // verus!
