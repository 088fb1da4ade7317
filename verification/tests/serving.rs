//! Serving: responses and the bytes of videos.

use paperwall::error::Error;
use paperwall::response::{
    create_html_response, create_response, create_text_response, create_video_range_response,
    Response,
};
use paperwall::streaming::{
    choose_part, create_video_response, plan_video_response, RangeHeader, VideoPart,
    READ_CHUNK_SIZE,
};

fn headers(response: &Response) -> Vec<(&str, &str)> {
    response
        .headers
        .iter()
        .map(|header| (header.name.as_str(), header.value.as_str()))
        .collect()
}

fn plan(header: &str, length: u64) -> VideoPart {
    plan_video_response(RangeHeader::Text { value: header.to_string() }, length).unwrap()
}

#[test]
fn responses_have_a_type_and_a_body() {
    let response = create_response("text/css", b"a{}".to_vec());
    assert_eq!(response.status, 200);
    assert_eq!(headers(&response), [("content-type", "text/css")]);
    assert_eq!(response.body, b"a{}");
}

#[test]
fn pages_and_texts_are_utf8() {
    let page = create_html_response("<p>é</p>");
    assert_eq!(page.status, 200);
    assert_eq!(headers(&page), [("content-type", "text/html; charset=utf-8")]);
    assert_eq!(page.body, "<p>é</p>".as_bytes());
    let text = create_text_response(500, "no é");
    assert_eq!(text.status, 500);
    assert_eq!(headers(&text), [("content-type", "text/plain; charset=utf-8")]);
    assert_eq!(text.body, "no é".as_bytes());
}

#[test]
fn refused_range_tells_the_length() {
    let response = create_video_range_response(1234);
    assert_eq!(response.status, 416);
    assert_eq!(headers(&response), [("content-range", "bytes */1234")]);
    assert!(response.body.is_empty());
}

#[test]
fn request_without_range_gets_everything() {
    assert_eq!(plan_video_response(RangeHeader::Absent, 10).unwrap(), VideoPart::Whole);
    let response = create_video_response(VideoPart::Whole, 3, vec![1, 2, 3]);
    assert_eq!(response.status, 200);
    assert_eq!(
        headers(&response),
        [("accept-ranges", "bytes"), ("content-type", "video/mp4"), ("content-length", "3")]
    );
    assert_eq!(response.body, [1, 2, 3]);
}

#[test]
fn unreadable_range_is_a_failure() {
    let header = RangeHeader::Unreadable { error: Error::new("not text") };
    assert_eq!(plan_video_response(header, 10).unwrap_err().message, "not text");
}

#[test]
fn ranges_are_cut_to_the_video() {
    assert_eq!(plan("bytes=0-", 10), VideoPart::Range { start: 0, length: 10, end: 9 });
    assert_eq!(plan("bytes=2-4", 10), VideoPart::Range { start: 2, length: 3, end: 4 });
    assert_eq!(plan("bytes=2-400", 10), VideoPart::Range { start: 2, length: 8, end: 9 });
    assert_eq!(plan("bytes=-3", 10), VideoPart::Range { start: 7, length: 3, end: 9 });
    assert_eq!(plan("bytes=-30", 10), VideoPart::Range { start: 0, length: 10, end: 9 });
}

#[test]
fn only_the_first_range_is_answered() {
    assert_eq!(plan("bytes=1-2,5-6", 10), VideoPart::Range { start: 1, length: 2, end: 2 });
    assert_eq!(plan("bytes=50-60,5-6", 10), VideoPart::Range { start: 5, length: 2, end: 6 });
}

#[test]
fn ranges_are_cut_to_a_chunk() {
    assert_eq!(READ_CHUNK_SIZE, 1024 * 1024);
    assert_eq!(
        plan("bytes=100-", 5_000_000),
        VideoPart::Range { start: 100, length: 1_048_576, end: 1_048_675 }
    );
    assert_eq!(
        plan("bytes=100-1048675", 5_000_000),
        VideoPart::Range { start: 100, length: 1_048_576, end: 1_048_675 }
    );
}

#[test]
fn bad_ranges_cannot_be_satisfied() {
    for header in ["", "bytes=", "bytes=10-", "bytes=5-4", "bytes=x-", "items=0-1", "bytes=-0"] {
        assert_eq!(plan(header, 10), VideoPart::Unsatisfiable, "{header:?}");
    }
    assert_eq!(plan("bytes=0-", 0), VideoPart::Unsatisfiable);
    assert_eq!(plan("bytes=-5", 0), VideoPart::Unsatisfiable);
}

#[test]
fn parts_are_chosen_for_any_ranges() {
    assert_eq!(choose_part(&None, 10), VideoPart::Unsatisfiable);
    assert_eq!(choose_part(&Some(Vec::new()), 10), VideoPart::Unsatisfiable);
    assert_eq!(choose_part(&Some(vec![(10, 1)]), 10), VideoPart::Unsatisfiable);
    assert_eq!(choose_part(&Some(vec![(0, 0), (1, 2)]), 10), VideoPart::Unsatisfiable);
    assert_eq!(
        choose_part(&Some(vec![(4, u64::MAX)]), 10),
        VideoPart::Range { start: 4, length: 6, end: 9 }
    );
    assert_eq!(
        choose_part(&Some(vec![(u64::MAX - 1, u64::MAX)]), u64::MAX),
        VideoPart::Range { start: u64::MAX - 1, length: 1, end: u64::MAX - 1 }
    );
}

#[test]
fn partial_response_tells_its_place() {
    let part = plan("bytes=2-4", 10);
    let response = create_video_response(part, 10, vec![3, 4, 5]);
    assert_eq!(response.status, 206);
    assert_eq!(
        headers(&response),
        [
            ("accept-ranges", "bytes"),
            ("content-type", "video/mp4"),
            ("content-length", "3"),
            ("content-range", "bytes 2-4/10"),
        ]
    );
    assert_eq!(response.body, [3, 4, 5]);
}

#[test]
fn unsatisfiable_part_is_refused() {
    let response = create_video_response(VideoPart::Unsatisfiable, 10, vec![1]);
    assert_eq!(response.status, 416);
    assert_eq!(headers(&response), [("content-range", "bytes */10")]);
    assert!(response.body.is_empty());
}

#[test]
fn following_parts_cover_the_video() {
    let length: u64 = 2_500_000;
    let mut next: u64 = 0;
    let mut parts = 0;
    while next < length {
        match plan(&format!("bytes={next}-"), length) {
            VideoPart::Range { start, length: size, end } => {
                assert_eq!(start, next);
                assert_eq!(end - start + 1, size);
                next = end + 1;
                parts += 1;
            }
            other => panic!("{other:?}"),
        }
    }
    assert_eq!((next, parts), (length, 3));
}
