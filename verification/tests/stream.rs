use llama_mini::models::StreamEvent;
use llama_mini::stream::{
    frame_outcome, payload_of, request_failed, FrameOutcome, StreamSession,
};

fn frame_chars(s: &str) -> Vec<char> {
    s.chars().collect()
}

#[test]
fn token_then_done() {
    let mut session = StreamSession::new();
    let events =
        session.feed("data: {\"choices\":[{\"delta\":{\"content\":\"Hi\"}}]}\n\ndata: [DONE]\n\n");
    assert_eq!(events, vec![StreamEvent::Token("Hi".to_string()), StreamEvent::Done]);
    assert!(session.is_finished());
}

#[test]
fn malformed_frame_is_skipped() {
    let mut session = StreamSession::new();
    let events = session.feed("not-json\n\ndata: [DONE]\n\n");
    assert_eq!(events, vec![StreamEvent::Done]);
}

#[test]
fn frame_split_over_chunks() {
    let mut session = StreamSession::new();
    assert_eq!(session.feed("data: {\"choices\":[{\"delta\":{\"con"), vec![]);
    assert_eq!(session.feed("tent\":\"a b\"}}]}\n"), vec![]);
    assert_eq!(session.feed("\ndata: [DO"), vec![StreamEvent::Token("a b".to_string())]);
    assert!(!session.is_finished());
    assert_eq!(session.feed("NE]\n\n"), vec![StreamEvent::Done]);
    assert!(session.is_finished());
}

#[test]
fn nothing_after_done() {
    let mut session = StreamSession::new();
    let events = session.feed(
        "data: [DONE]\n\ndata: {\"choices\":[{\"delta\":{\"content\":\"late\"}}]}\n\n",
    );
    assert_eq!(events, vec![StreamEvent::Done]);
    assert_eq!(session.feed("data: {\"choices\":[{\"delta\":{\"content\":\"x\"}}]}\n\n"), vec![]);
    assert_eq!(session.end_of_stream(), vec![]);
}

#[test]
fn frame_without_content_gives_nothing() {
    let mut session = StreamSession::new();
    let events = session.feed(
        "data: {\"choices\":[{\"delta\":{\"role\":\"assistant\"}}]}\n\ndata: {\"choices\":[]}\n\ndata: 17\n\n",
    );
    assert_eq!(events, vec![]);
    assert!(!session.is_finished());
}

#[test]
fn payload_is_trimmed_and_unprefixed() {
    assert_eq!(payload_of(&frame_chars("  data:   [DONE] \t")), frame_chars("[DONE]"));
    assert_eq!(payload_of(&frame_chars("\u{3000}plain\u{2028}")), frame_chars("plain"));
    assert_eq!(payload_of(&frame_chars("data:")), frame_chars(""));
    assert_eq!(payload_of(&frame_chars("datum: x")), frame_chars("datum: x"));
}

#[test]
fn frame_outcomes() {
    assert_eq!(frame_outcome(&frame_chars("data:[DONE]")), FrameOutcome::Done);
    assert_eq!(frame_outcome(&frame_chars("[DONE]")), FrameOutcome::Done);
    assert_eq!(
        frame_outcome(&frame_chars("data: {\"choices\":[{\"delta\":{\"content\":\"\\u00e9\"}}]}")),
        FrameOutcome::Token("\u{e9}".to_string())
    );
    assert_eq!(
        frame_outcome(&frame_chars("data: {\"choices\":{\"delta\":{\"content\":\"x\"}}}")),
        FrameOutcome::Skipped
    );
    assert_eq!(
        frame_outcome(&frame_chars("data: {\"choices\":[{\"delta\":{\"content\":5}}]}")),
        FrameOutcome::Skipped
    );
    assert_eq!(frame_outcome(&frame_chars("data: {")), FrameOutcome::Skipped);
}

#[test]
fn end_of_stream_gives_done_once() {
    let mut session = StreamSession::new();
    assert_eq!(session.feed("data: {\"choices\":[{\"delta\":{\"content\":\"x\"}}]}"), vec![]);
    assert_eq!(session.end_of_stream(), vec![StreamEvent::Done]);
    assert_eq!(session.end_of_stream(), vec![]);
}

#[test]
fn read_failure_gives_error_then_done() {
    let mut session = StreamSession::new();
    assert_eq!(
        session.read_failed("timed out"),
        vec![StreamEvent::Error("read failed: timed out".to_string()), StreamEvent::Done]
    );
    assert!(session.is_finished());
    assert_eq!(session.read_failed("again"), vec![]);
}

#[test]
fn request_failure_gives_error_then_done() {
    assert_eq!(
        request_failed("refused"),
        vec![StreamEvent::Error("request failed: refused".to_string()), StreamEvent::Done]
    );
}

#[test]
fn bytes_are_read_as_text_with_replacement() {
    let mut session = StreamSession::new();
    let mut bytes = b"data: {\"choices\":[{\"delta\":{\"content\":\"a".to_vec();
    bytes.push(0xff);
    bytes.extend_from_slice(b"b\"}}]}\n\n");
    assert_eq!(session.feed_bytes(&bytes), vec![StreamEvent::Token("a\u{fffd}b".to_string())]);
}
