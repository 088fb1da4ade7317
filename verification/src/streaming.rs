//! Streaming: which bytes of a video a request is answered.
use crate::error::Error;
use crate::response::{create_video_range_response, Response, ResponseView};
use crate::{response, text};
use vstd::prelude::*;

verus! {

/// The most bytes of a video that one answer to a range carries: one mebibyte.
pub const READ_CHUNK_SIZE: u64 = 1_048_576;

/// The `Range` header of a request.
#[derive(Debug)]
pub enum RangeHeader {
    /// The request has none.
    Absent,
    /// The header is this text.
    Text { value: String },
    /// The header cannot be read as text.
    Unreadable { error: Error },
}

/// What is read of a video to answer a request.
#[derive(Clone, Copy, Debug, PartialEq, Eq, Structural)]
pub enum VideoPart {
    /// All of it.
    Whole,
    /// The bytes from `start` to `end`, which are `length` bytes.
    Range { start: u64, length: u64, end: u64 },
    /// Nothing: the video does not have what is asked for.
    Unsatisfiable,
}

/// The byte ranges that `http_range::HttpRange::parse` finds in a `Range` header for a file of
/// `size` bytes, as pairs of a start and a length.
pub uninterp spec fn http_ranges(header: Seq<char>, size: u64) -> Option<Seq<(u64, u64)>>;

/// The pairs of a list that may be missing.
pub open spec fn optional_ranges(ranges: Option<Vec<(u64, u64)>>) -> Option<Seq<(u64, u64)>> {
    match ranges {
        Some(present) => Some(present@),
        None => None,
    }
}

/// Whether every range lies within a file of `size` bytes.
pub open spec fn lie_within(ranges: Option<Seq<(u64, u64)>>, size: u64) -> bool {
    ranges matches Some(ranges) ==> forall|i: int|
        0 <= i < ranges.len() ==> (#[trigger] ranges[i]).0 + ranges[i].1 <= size
}

/// The header that asks for all bytes from `start` on: `bytes={start}-`.
pub open spec fn open_range(start: u64) -> Seq<char> {
    "bytes="@ + text::decimal(start as nat) + "-"@
}

/// The header that asks for the bytes from `start` to `end`: `bytes={start}-{end}`.
pub open spec fn closed_range(start: u64, end: u64) -> Seq<char> {
    open_range(start) + text::decimal(end as nat)
}

/// What a header that asks for one range finds in a file of `size` bytes: the range, cut at the
/// file's end, unless it starts behind the end or ends before its own start. Headers of other
/// forms may find anything.
pub open spec fn find_one_range(
    header: Seq<char>,
    size: u64,
    ranges: Option<Seq<(u64, u64)>>,
) -> bool {
    &&& forall|start: u64|
        header == #[trigger] open_range(start) ==> ranges == (if start < size {
            Some(seq![(start, (size - start) as u64)])
        } else {
            None
        })
    &&& forall|start: u64, end: u64|
        header == #[trigger] closed_range(start, end) ==> ranges == (if start < size && start
            <= end {
            Some(seq![(start, (smaller(end, (size - 1) as u64) - start + 1) as u64)])
        } else {
            None
        })
}

/// Calls `http_range::HttpRange::parse` and takes each range as the pair of its start and its
/// length. Either error it can give is `None`. Every range lies within the file, and a header
/// that asks for one range, with a start and with or without an end, finds that range.
#[verifier::external_body]
fn parse_ranges(header: &str, size: u64) -> (result: Option<Vec<(u64, u64)>>)
    ensures
        optional_ranges(result) == http_ranges(header@, size),
        lie_within(optional_ranges(result), size),
        find_one_range(header@, size, optional_ranges(result)),
{
    let ranges = http_range::HttpRange::parse(header, size).ok()?;
    Some(ranges.iter().map(|range| (range.start, range.length)).collect())
}

/// The smaller of two numbers.
pub open spec fn smaller(left: u64, right: u64) -> u64 {
    if left <= right {
        left
    } else {
        right
    }
}

/// What answers a request for some ranges of a video of `length` bytes: the first range, cut to
/// one chunk and to what the video has. Without a range, and where the first one is empty or
/// starts behind the end, nothing does.
pub open spec fn part_of_ranges(ranges: Option<Seq<(u64, u64)>>, length: u64) -> VideoPart {
    match ranges {
        None => VideoPart::Unsatisfiable,
        Some(ranges) => if ranges.len() == 0 || length == 0 || ranges[0].1 == 0 || ranges[0].0
            >= length {
            VideoPart::Unsatisfiable
        } else {
            let start = ranges[0].0;
            let size = smaller(smaller(ranges[0].1, READ_CHUNK_SIZE), (length - start) as u64);
            VideoPart::Range { start, length: size, end: (start + size - 1) as u64 }
        },
    }
}

/// Chooses the part of a video of `length` bytes that answers a request for some ranges.
pub fn choose_part(ranges: &Option<Vec<(u64, u64)>>, length: u64) -> (result: VideoPart)
    ensures
        result == part_of_ranges(optional_ranges(*ranges), length),
{
    let ranges = match ranges {
        None => {
            return VideoPart::Unsatisfiable;
        },
        Some(ranges) => ranges,
    };
    if ranges.len() == 0 {
        return VideoPart::Unsatisfiable;
    }
    let (start, range_length) = ranges[0];
    if length == 0 || range_length == 0 || start >= length {
        return VideoPart::Unsatisfiable;
    }
    let mut size: u64 = range_length;
    if size > READ_CHUNK_SIZE {
        size = READ_CHUNK_SIZE;
    }
    if size > length - start {
        size = length - start;
    }
    VideoPart::Range { start, length: size, end: start + size - 1 }
}

/// Whether `part` answers a header about a video of `length` bytes: it is that of the ranges
/// which the header finds, and these are as far as is known of them.
pub open spec fn is_answer(header: Seq<char>, length: u64, part: VideoPart) -> bool {
    &&& part == part_of_ranges(http_ranges(header, length), length)
    &&& lie_within(http_ranges(header, length), length)
    &&& find_one_range(header, length, http_ranges(header, length))
}

/// Decides which part of a video of `length` bytes answers a request. A header that cannot be
/// read is a failure.
pub fn plan_video_response(range_header: RangeHeader, length: u64) -> (result: Result<
    VideoPart,
    Error,
>)
    ensures
        match range_header {
            RangeHeader::Absent => result == Ok::<VideoPart, Error>(VideoPart::Whole),
            RangeHeader::Text { value } => result matches Ok(part) && is_answer(
                value@,
                length,
                part,
            ) && part == part_of_ranges(http_ranges(value@, length), length),
            RangeHeader::Unreadable { error } => result == Err::<VideoPart, Error>(error),
        },
{
    match range_header {
        RangeHeader::Absent => Ok(VideoPart::Whole),
        RangeHeader::Text { value } => Ok(choose_part(&parse_ranges(&value, length), length)),
        RangeHeader::Unreadable { error } => Err(error),
    }
}

/// The headers of every answer that carries bytes of a video, with the count of these bytes.
pub open spec fn video_headers(count: nat) -> Seq<(Seq<char>, Seq<char>)> {
    seq![
        ("accept-ranges"@, "bytes"@),
        ("content-type"@, "video/mp4"@),
        ("content-length"@, text::decimal(count)),
    ]
}

/// The place of some bytes in a video: `bytes {start}-{end}/{length}`.
pub open spec fn content_range(start: u64, end: u64, length: u64) -> Seq<char> {
    "bytes "@ + text::decimal(start as nat) + "-"@ + text::decimal(end as nat) + "/"@
        + text::decimal(length as nat)
}

/// The answer that carries the bytes read of a part of a video of `length` bytes.
pub open spec fn video_response(part: VideoPart, length: u64, bytes: Seq<u8>) -> ResponseView {
    match part {
        VideoPart::Whole => ResponseView {
            status: 200,
            headers: video_headers(bytes.len()),
            body: bytes,
        },
        VideoPart::Range { start, length: _, end } => ResponseView {
            status: 206,
            headers: video_headers(bytes.len()).push(
                ("content-range"@, content_range(start, end, length)),
            ),
            body: bytes,
        },
        VideoPart::Unsatisfiable => response::video_range_response(length),
    }
}

/// Answers a request with the bytes read of a part of a video of `length` bytes.
pub fn create_video_response(part: VideoPart, length: u64, bytes: Vec<u8>) -> (result: Response)
    ensures
        result@ == video_response(part, length, bytes@),
        match part {
            VideoPart::Whole => {
                &&& result@.status == 200
                &&& result@.headers == seq![
                    ("accept-ranges"@, "bytes"@),
                    ("content-type"@, "video/mp4"@),
                    ("content-length"@, text::decimal(bytes@.len())),
                ]
                &&& result@.body == bytes@
            },
            VideoPart::Range { start, length: _, end } => {
                &&& result@.status == 206
                &&& result@.headers == seq![
                    ("accept-ranges"@, "bytes"@),
                    ("content-type"@, "video/mp4"@),
                    ("content-length"@, text::decimal(bytes@.len())),
                    (
                        "content-range"@,
                        "bytes "@ + text::decimal(start as nat) + "-"@ + text::decimal(end as nat)
                            + "/"@ + text::decimal(length as nat),
                    ),
                ]
                &&& result@.body == bytes@
            },
            VideoPart::Unsatisfiable => {
                &&& result@.status == 416
                &&& result@.headers == seq![
                    ("content-range"@, "bytes */"@ + text::decimal(length as nat)),
                ]
                &&& result@.body.len() == 0
            },
        },
{
    if part == VideoPart::Unsatisfiable {
        return create_video_range_response(length);
    }
    let count = text::decimal_text(bytes.len() as u64);
    let status: u16 = if part == VideoPart::Whole {
        200
    } else {
        206
    };
    let result = Response::new(status, bytes).with_header("accept-ranges", "bytes").with_header(
        "content-type",
        "video/mp4",
    ).with_header("content-length", &count);
    assert(result@.headers =~= video_headers(bytes@.len()));
    match part {
        VideoPart::Range { start, length: _, end } => {
            let mut range = "bytes ".to_owned();
            range.append(&text::decimal_text(start));
            range.append("-");
            range.append(&text::decimal_text(end));
            range.append("/");
            range.append(&text::decimal_text(length));
            let partial = result.with_header("content-range", &range);
            assert(partial@.headers =~= seq![
                ("accept-ranges"@, "bytes"@),
                ("content-type"@, "video/mp4"@),
                ("content-length"@, count@),
                ("content-range"@, range@),
            ]);
            partial
        },
        _ => result,
    }
}

/// A part that is sent is not empty, lies within the video, and is no longer than one chunk.
pub proof fn law_part_lies_within_video(ranges: Option<Seq<(u64, u64)>>, length: u64)
    ensures
        part_of_ranges(ranges, length) matches VideoPart::Range { start, length: size, end } ==> {
            &&& start <= end < length
            &&& size == end - start + 1
            &&& 0 < size <= READ_CHUNK_SIZE
        },
{
}

/// A part that is sent starts where the first range starts and holds nothing behind it. Only a
/// chunk's limit or the video's end can cut it short.
pub proof fn law_part_is_what_was_asked_for(ranges: Seq<(u64, u64)>, length: u64)
    requires
        ranges.len() > 0,
        ranges[0].1 > 0,
        ranges[0].0 + ranges[0].1 <= length,
    ensures
        part_of_ranges(Some(ranges), length) matches VideoPart::Range { start, length: size, end }
            && {
            &&& start == ranges[0].0
            &&& end < ranges[0].0 + ranges[0].1
            &&& size == ranges[0].1 || size == READ_CHUNK_SIZE
        },
{
}

/// Whether `parts` are the answers to a page that asks by the header `bytes={position}-` for all
/// bytes from `position` on, and then again for all that follow the part it was sent, until it
/// has them all or is refused.
pub open spec fn is_stream(parts: Seq<VideoPart>, length: u64, position: int) -> bool
    decreases parts.len(),
{
    if position >= length {
        parts.len() == 0
    } else {
        &&& parts.len() > 0
        &&& is_answer(open_range(position as u64), length, parts[0])
        &&& match parts[0] {
            VideoPart::Range { start: _, length: _, end } => is_stream(
                parts.skip(1),
                length,
                end + 1,
            ),
            _ => parts.len() == 1,
        }
    }
}

/// The bytes of a video that some parts hold, one part after the other.
pub open spec fn sent(video: Seq<u8>, parts: Seq<VideoPart>) -> Seq<u8>
    decreases parts.len(),
{
    if parts.len() == 0 {
        Seq::empty()
    } else {
        match parts[0] {
            VideoPart::Range { start, length: _, end } => video.subrange(start as int, end + 1)
                + sent(video, parts.skip(1)),
            VideoPart::Whole => video + sent(video, parts.skip(1)),
            VideoPart::Unsatisfiable => sent(video, parts.skip(1)),
        }
    }
}

/// A page that asks for a video part by part receives all of it, from where it began, in as many
/// answers as there are chunks, the last of which may be short. From the start of a video of
/// `length` bytes these are `(length + 1048575) / 1048576`.
pub proof fn law_parts_make_up_video(
    video: Seq<u8>,
    length: u64,
    parts: Seq<VideoPart>,
    position: int,
)
    requires
        video.len() == length,
        0 <= position <= length,
        is_stream(parts, length, position),
    ensures
        sent(video, parts) == video.skip(position),
        parts.len() == (length - position + 1048575) / 1048576,
    decreases parts.len(),
{
    if position < length {
        let start = position as u64;
        assert(open_range(start) == open_range(position as u64));
        assert(http_ranges(open_range(start), length) == Some(
            seq![(start, (length - start) as u64)],
        ));
        if let VideoPart::Range { start: _, length: _, end } = parts[0] {
            law_parts_make_up_video(video, length, parts.skip(1), end + 1);
            assert(video.subrange(position, end + 1) + video.skip(end + 1) =~= video.skip(
                position,
            ));
        }
    } else {
        assert(video.skip(position) =~= Seq::empty());
    }
}

/// What an answer says it is, it is: partial content exactly where a range was read, success
/// exactly where the whole video was, and a refusal exactly where nothing was. All that carry bytes
/// carry those that were read, say how many, and take ranges.
pub proof fn law_answers_say_what_they_carry(part: VideoPart, length: u64, bytes: Seq<u8>)
    ensures
        ({
            let answer = video_response(part, length, bytes);
            &&& answer.status == 206 <==> part is Range
            &&& answer.status == 200 <==> part is Whole
            &&& answer.status == 416 <==> part is Unsatisfiable
            &&& part is Unsatisfiable <==> answer.headers.len() == 1
            &&& !(part is Unsatisfiable) ==> {
                &&& answer.body == bytes
                &&& answer.headers.contains(("accept-ranges"@, "bytes"@))
                &&& answer.headers.contains(("content-type"@, "video/mp4"@))
                &&& answer.headers.contains(("content-length"@, text::decimal(bytes.len())))
            }
            &&& part is Unsatisfiable ==> answer.body.len() == 0
        }),
{
    let answer = video_response(part, length, bytes);
    if !(part is Unsatisfiable) {
        assert(answer.headers[0] == ("accept-ranges"@, "bytes"@));
        assert(answer.headers[1] == ("content-type"@, "video/mp4"@));
        assert(answer.headers[2] == ("content-length"@, text::decimal(bytes.len())));
    }
}

/// The answer with a range, wherever it starts, tells its place: the last header reads
/// `bytes {start}-{end}/{length}`. An answer with the whole video tells none.
pub proof fn law_ranges_tell_their_place(start: u64, size: u64, end: u64, length: u64, bytes: Seq<u8>)
    ensures
        ({
            let headers = video_response(
                VideoPart::Range { start, length: size, end },
                length,
                bytes,
            ).headers;
            &&& headers.len() == 4
            &&& headers.last() == (
                "content-range"@,
                "bytes "@ + text::decimal(start as nat) + "-"@ + text::decimal(end as nat) + "/"@
                    + text::decimal(length as nat),
            )
        }),
        video_response(VideoPart::Whole, length, bytes).headers.len() == 3,
{
}

/// Ranges at different places, or of videos of different lengths, are told differently.
pub proof fn law_places_are_told_apart(
    start: u64,
    end: u64,
    length: u64,
    other_start: u64,
    other_end: u64,
    other_length: u64,
)
    requires
        content_range(start, end, length) == content_range(other_start, other_end, other_length),
    ensures
        start == other_start,
        end == other_end,
        length == other_length,
{
    reveal_strlit("-");
    reveal_strlit("/");
    let (a, b, c) = (
        text::decimal(start as nat),
        text::decimal(end as nat),
        text::decimal(length as nat),
    );
    let (d, e, f) = (
        text::decimal(other_start as nat),
        text::decimal(other_end as nat),
        text::decimal(other_length as nat),
    );
    text::lemma_number_of_decimal(start as nat);
    text::lemma_number_of_decimal(end as nat);
    text::lemma_number_of_decimal(length as nat);
    text::lemma_number_of_decimal(other_start as nat);
    text::lemma_number_of_decimal(other_end as nat);
    text::lemma_number_of_decimal(other_length as nat);
    let left = a + seq!['-'] + (b + seq!['/'] + c);
    let right = d + seq!['-'] + (e + seq!['/'] + f);
    let empty = Seq::<char>::empty();
    assert("-"@ =~= seq!['-']);
    assert("/"@ =~= seq!['/']);
    assert(content_range(start, end, length) =~= "bytes "@ + left + empty);
    assert(content_range(other_start, other_end, other_length) =~= "bytes "@ + right + empty);
    text::lemma_enclosed_injective("bytes "@, left, right, empty);
    text::lemma_digits_before_mark(a, d, '-', b + seq!['/'] + c, e + seq!['/'] + f);
    text::lemma_digits_before_mark(b, e, '/', c, f);
    text::lemma_decimal_injective(start as nat, other_start as nat);
    text::lemma_decimal_injective(end as nat, other_end as nat);
    text::lemma_decimal_injective(length as nat, other_length as nat);
}

/// The part that answers some ranges starts where the first does and is as long as can be: it ends
/// with the range, the chunk or the video, and before none of them. It is refused exactly where
/// there is no first range, or it is empty or starts behind the end.
pub proof fn law_part_is_as_long_as_can_be(ranges: Seq<(u64, u64)>, length: u64)
    ensures
        match part_of_ranges(Some(ranges), length) {
            VideoPart::Range { start, length: size, end } => {
                let (wanted, left) = (ranges[0].1, length - ranges[0].0);
                &&& ranges.len() > 0
                &&& start == ranges[0].0
                &&& size <= wanted && size <= 1_048_576 && size <= left
                &&& size == wanted || size == 1_048_576 || size == left
                &&& end == start + size - 1
                &&& size > 0
            },
            VideoPart::Whole => false,
            VideoPart::Unsatisfiable => ranges.len() == 0 || ranges[0].1 == 0 || ranges[0].0
                >= length,
        },
        part_of_ranges(None, length) is Unsatisfiable,
{
}

/// A page that asks for the bytes from `start` to `end`, or for all from `start` on, is sent those
/// bytes as far as the chunk and the video go, and is refused where the video has none of them.
pub proof fn law_one_range_is_answered(header: Seq<char>, start: u64, end: u64, length: u64, part: VideoPart)
    requires
        is_answer(header, length, part),
        header == "bytes="@ + text::decimal(start as nat) + "-"@ + text::decimal(end as nat)
            || (header == "bytes="@ + text::decimal(start as nat) + "-"@ && end == u64::MAX),
    ensures
        match part {
            VideoPart::Range { start: first, length: size, end: last } => {
                &&& first == start < length
                &&& last <= end && last < length && last < start + 1_048_576
                &&& last == end || last == length - 1 || last == start + 1_048_575
                &&& size == last - first + 1
            },
            VideoPart::Whole => false,
            VideoPart::Unsatisfiable => start >= length || end < start,
        },
{
    assert(header == closed_range(start, end) || header == open_range(start));
}

} // verus!
