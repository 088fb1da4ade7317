//! Responses: what a page of the app is answered when it asks for a resource.
use crate::text;
use vstd::prelude::*;

verus! {

/// One header of a response.
#[derive(Debug)]
pub struct Header {
    pub name: String,
    pub value: String,
}

/// An answer to a request.
#[derive(Debug)]
pub struct Response {
    pub status: u16,
    pub headers: Vec<Header>,
    pub body: Vec<u8>,
}

/// The model of a `Response`: its headers are pairs of a name and a value, in order.
#[verifier::ext_equal]
pub struct ResponseView {
    pub status: u16,
    pub headers: Seq<(Seq<char>, Seq<char>)>,
    pub body: Seq<u8>,
}

impl View for Header {
    type V = (Seq<char>, Seq<char>);

    open spec fn view(&self) -> (Seq<char>, Seq<char>) {
        (self.name@, self.value@)
    }
}

impl View for Response {
    type V = ResponseView;

    open spec fn view(&self) -> ResponseView {
        ResponseView {
            status: self.status,
            headers: self.headers@.map_values(|header: Header| header@),
            body: self.body@,
        }
    }
}

/// The bytes of a text in UTF-8.
pub open spec fn bytes_of(text: Seq<char>) -> Seq<u8> {
    vstd::utf8::encode_utf8(text)
}

impl Response {
    /// A response without headers.
    pub fn new(status: u16, body: Vec<u8>) -> (result: Response)
        ensures
            result@ == (ResponseView { status, headers: Seq::empty(), body: body@ }),
    {
        let result = Response { status, headers: Vec::new(), body };
        assert(result@.headers =~= Seq::empty());
        result
    }

    /// Adds a header behind the others.
    pub fn with_header(self, name: &str, value: &str) -> (result: Response)
        ensures
            result@ == (ResponseView { headers: self@.headers.push((name@, value@)), ..self@ }),
    {
        let mut result = self;
        result.headers.push(Header { name: name.to_owned(), value: value.to_owned() });
        assert(result@.headers =~= self@.headers.push((name@, value@)));
        result
    }
}

/// An answer with a body of some type.
pub open spec fn typed_response(content_type: Seq<char>, body: Seq<u8>) -> ResponseView {
    ResponseView { status: 200, headers: seq![("content-type"@, content_type)], body }
}

/// Answers with `body`, which is of the type `content_type`.
pub fn create_response(content_type: &str, body: Vec<u8>) -> (result: Response)
    ensures
        result@ == typed_response(content_type@, body@),
        result@.status == 200,
        result@.headers == seq![("content-type"@, content_type@)],
        result@.body == body@,
{
    let result = Response::new(200, body).with_header("content-type", content_type);
    assert(result@.headers =~= seq![("content-type"@, content_type@)]);
    result
}

/// An answer that shows a page.
pub open spec fn html_response(html: Seq<char>) -> ResponseView {
    typed_response("text/html; charset=utf-8"@, bytes_of(html))
}

/// Answers with a page.
pub fn create_html_response(html: &str) -> (result: Response)
    ensures
        result@ == html_response(html@),
        result@.status == 200,
        result@.headers == seq![("content-type"@, "text/html; charset=utf-8"@)],
        result@.body == vstd::utf8::encode_utf8(html@),
{
    create_response("text/html; charset=utf-8", html.as_bytes_vec())
}

/// An answer that tells something in plain words.
pub open spec fn text_response(status: u16, text: Seq<char>) -> ResponseView {
    ResponseView {
        status,
        headers: seq![("content-type"@, "text/plain; charset=utf-8"@)],
        body: bytes_of(text),
    }
}

/// Answers with plain text under some status.
pub fn create_text_response(status: u16, text: &str) -> (result: Response)
    ensures
        result@ == text_response(status, text@),
        result@.status == status,
        result@.headers == seq![("content-type"@, "text/plain; charset=utf-8"@)],
        result@.body == vstd::utf8::encode_utf8(text@),
{
    let result = Response::new(status, text.as_bytes_vec()).with_header(
        "content-type",
        "text/plain; charset=utf-8",
    );
    assert(result@.headers =~= seq![("content-type"@, "text/plain; charset=utf-8"@)]);
    result
}

/// An answer to a request for a part of a video that it does not have.
pub open spec fn video_range_response(length: u64) -> ResponseView {
    ResponseView {
        status: 416,
        headers: seq![("content-range"@, "bytes */"@ + text::decimal(length as nat))],
        body: Seq::empty(),
    }
}

/// Refuses a range of a video of `length` bytes.
pub fn create_video_range_response(length: u64) -> (result: Response)
    ensures
        result@ == video_range_response(length),
        result@.status == 416,
        result@.headers == seq![("content-range"@, "bytes */"@ + text::decimal(length as nat))],
        result@.body.len() == 0,
{
    let mut range = "bytes */".to_owned();
    range.append(&text::decimal_text(length));
    let result = Response::new(416, Vec::new()).with_header("content-range", &range);
    assert(result@.headers =~= seq![("content-range"@, range@)]);
    assert(result@.body =~= Seq::empty());
    result
}

/// An answer with a body of some type succeeds, has that type as its only header, and carries the
/// body as it is. A page is such an answer, in UTF-8.
pub proof fn law_typed_responses(content_type: Seq<char>, body: Seq<u8>, html: Seq<char>)
    ensures
        typed_response(content_type, body).status == 200,
        typed_response(content_type, body).headers == seq![("content-type"@, content_type)],
        typed_response(content_type, body).body == body,
        html_response(html) == typed_response(
            "text/html; charset=utf-8"@,
            vstd::utf8::encode_utf8(html),
        ),
{
}

/// An answer in plain words has the status it is given, and its body is these words in UTF-8.
pub proof fn law_text_responses(status: u16, text: Seq<char>)
    ensures
        text_response(status, text).status == status,
        text_response(status, text).headers == seq![
            ("content-type"@, "text/plain; charset=utf-8"@),
        ],
        text_response(status, text).body == vstd::utf8::encode_utf8(text),
{
}

/// A refused range tells the length of the video, and different lengths are told differently.
pub proof fn law_refusals_tell_length(left: u64, right: u64)
    ensures
        video_range_response(left).status == 416,
        video_range_response(left).headers == seq![
            ("content-range"@, "bytes */"@ + text::decimal(left as nat)),
        ],
        video_range_response(left).body.len() == 0,
        left != right ==> video_range_response(left).headers != video_range_response(
            right,
        ).headers,
{
    let (first, second) = (video_range_response(left).headers, video_range_response(right).headers);
    if first == second {
        assert(first[0].1 == second[0].1);
        let empty = Seq::<char>::empty();
        assert("bytes */"@ + text::decimal(left as nat) + empty =~= first[0].1);
        assert("bytes */"@ + text::decimal(right as nat) + empty =~= second[0].1);
        text::lemma_enclosed_injective(
            "bytes */"@,
            text::decimal(left as nat),
            text::decimal(right as nat),
            empty,
        );
        text::lemma_decimal_injective(left as nat, right as nat);
    }
}

} // verus!
