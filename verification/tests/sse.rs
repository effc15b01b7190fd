use writ_client::json::parse;
use writ_client::models::RunEvent;
use writ_client::sse::SseParser;
use writ_client::streams::{EventFeed, FeedAction};

fn collect(chunks: &[&str]) -> Vec<String> {
    let mut parser = SseParser::new();
    let mut out = Vec::new();
    for c in chunks {
        parser.feed(c.as_bytes(), &mut out);
    }
    out
}

#[test]
fn named_event_frame_yields_data_payload() {
    let out = collect(&[
        "event: started\ndata: {\"event\":\"started\",\"run_id\":1,\"total_steps\":2}\n\n",
    ]);
    assert_eq!(
        out,
        vec![r#"{"event":"started","run_id":1,"total_steps":2}"#]
    );
}

#[test]
fn keepalive_comments_and_id_retry_are_ignored() {
    let out = collect(&[
        ": keep-alive\n",
        "id: 42\nretry: 1000\n",
        "event: finished\ndata: {\"event\":\"finished\",\"run_id\":1,\"status\":\"success\"}\n\n",
        ": trailing comment\n\n",
    ]);
    assert_eq!(out.len(), 1);
    assert!(out[0].contains("finished"));
}

#[test]
fn multi_data_lines_accumulate_with_newline() {
    let out = collect(&[
        "data: {\"event\":\"progress\",\ndata: \"run_id\":1,\"completed\":1,\"total\":3}\n\n",
    ]);
    assert_eq!(out.len(), 1);
    assert_eq!(
        out[0],
        "{\"event\":\"progress\",\n\"run_id\":1,\"completed\":1,\"total\":3}"
    );
    let v: serde_json::Value = serde_json::from_str(&out[0]).unwrap();
    assert_eq!(v["completed"], 1);
}

#[test]
fn frames_split_across_chunks_reassemble() {
    let out = collect(&[
        "event: st",
        "ep\ndata: {\"event\":\"step\",\"run_id\":1,",
        "\"index\":0,\"step_type\":\"click\",\"status\":\"running\"}",
        "\n",
        "\n",
    ]);
    assert_eq!(out.len(), 1);
    let v: serde_json::Value = serde_json::from_str(&out[0]).unwrap();
    assert_eq!(v["step_type"], "click");
}

#[test]
fn crlf_line_endings_are_handled() {
    let out = collect(&[
        "data: {\"event\":\"progress\",\"run_id\":1,\"completed\":2,\"total\":3}\r\n\r\n",
    ]);
    assert_eq!(out.len(), 1);
    assert!(out[0].ends_with('}'));
}

#[test]
fn every_cut_of_a_stream_gives_the_same_payloads() {
    let stream = "data: é\r\n: x\ndata:b\n\nevent: e\ndata\n\ndata:  two spaces\n\n".as_bytes();
    let mut whole = Vec::new();
    SseParser::new().feed(stream, &mut whole);
    assert_eq!(whole, vec!["é\nb", "", " two spaces"]);
    for cut in 0..=stream.len() {
        let mut parser = SseParser::new();
        let mut out = Vec::new();
        parser.feed(&stream[..cut], &mut out);
        parser.feed(&stream[cut..], &mut out);
        assert_eq!(out, whole, "cut at {}", cut);
    }
}

#[test]
fn bytes_that_are_not_utf8_are_replaced() {
    let mut out = Vec::new();
    SseParser::new().feed(b"data: a\xffb\n\n", &mut out);
    assert_eq!(out, vec!["a\u{fffd}b"]);
}

#[test]
fn blank_frames_yield_nothing() {
    assert!(collect(&["\n\n\r\n\n"]).is_empty());
    assert!(collect(&["datax: 1\n\n"]).is_empty());
}

#[test]
fn payload_in_one_frame_comes_back() {
    for payload in ["", "x", "{\"a\": 1}", "ünï", "a\rb", " lead"] {
        let frame = format!("data: {payload}\n\n");
        assert_eq!(collect(&[frame.as_str()]), vec![payload]);
    }
}

fn deliver(feed: &mut EventFeed) -> RunEvent {
    match feed.step() {
        FeedAction::Deliver(e) => e,
        other => panic!("expected an event, got {other:?}"),
    }
}

#[test]
fn events_stream_ends_after_terminal_frame() {
    let mut feed = EventFeed::new();
    assert!(matches!(feed.step(), FeedAction::Read));
    feed.on_chunk(
        b"event: finished\ndata: {\"event\":\"finished\",\"run_id\":5,\"status\":\"success\"}\n\n",
    );
    assert_eq!(
        deliver(&mut feed),
        RunEvent::Finished {
            run_id: 5,
            status: "success".into()
        }
    );
    assert!(matches!(feed.step(), FeedAction::End));
    assert!(matches!(feed.step(), FeedAction::End));
}

#[test]
fn events_after_a_terminal_one_are_dropped() {
    let mut feed = EventFeed::new();
    feed.on_chunk(
        b"data: {\"event\":\"started\",\"run_id\":5,\"total_steps\":1}\n\ndata: {\"event\":\"error\",\"run_id\":5,\"message\":\"m\"}\n\ndata: 1\n\n",
    );
    assert_eq!(
        deliver(&mut feed),
        RunEvent::Started {
            run_id: 5,
            total_steps: 1
        }
    );
    assert!(deliver(&mut feed).is_terminal());
    assert!(matches!(feed.step(), FeedAction::End));
}

#[test]
fn a_broken_connection_ends_the_stream() {
    let mut feed = EventFeed::new();
    feed.on_chunk(b"data: 7\n\n");
    feed.on_error();
    assert_eq!(deliver(&mut feed), RunEvent::Unknown(parse("7").unwrap()));
    assert!(matches!(feed.step(), FeedAction::End));
}

#[test]
fn lines_are_taken_one_by_one() {
    let mut parser = SseParser::new();
    let mut out = Vec::new();
    for line in ["data:one", ": ping", "data:  two", "data", "id: 7"] {
        parser.line(line, &mut out);
    }
    assert!(out.is_empty());
    parser.line("", &mut out);
    assert_eq!(out, vec!["one\n two\n".to_string()]);
    parser.line("", &mut out);
    assert_eq!(out.len(), 1);
}
