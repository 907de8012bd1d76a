use worker_bridge::bridge::{Bridge, BridgeError, Worker};
use worker_bridge::protocol::{frame_request, response_label, worker_binary_name, RESPONSE_EVENT_PREFIX};
use worker_bridge::reader::{reader_step, route_line, route_with_id, ReadEvent, ReaderAction};

fn lines_of(bytes: &[u8]) -> Vec<String> {
    String::from_utf8(bytes.to_vec()).unwrap().lines().map(|l| l.to_string()).collect()
}

#[test]
fn frame_appends_one_terminator() {
    assert_eq!(frame_request("abc"), "abc\n");
    assert_eq!(frame_request(""), "\n");
    assert_eq!(frame_request("{\"id\":\"42\",\"op\":\"ping\"}"), "{\"id\":\"42\",\"op\":\"ping\"}\n");
}

#[test]
fn label_is_prefix_and_id() {
    assert_eq!(RESPONSE_EVENT_PREFIX, "py-response-");
    assert_eq!(response_label("42"), "py-response-42");
    assert_eq!(response_label(""), "py-response-");
    assert_eq!(response_label("x"), "py-response-x");
}

#[test]
fn worker_name_by_platform() {
    assert_eq!(worker_binary_name(true), "populator.exe");
    assert_eq!(worker_binary_name(false), "populator");
}

#[test]
fn route_with_given_id() {
    let n = route_with_id("line", Some("7".to_string())).unwrap();
    assert_eq!(n.label, "py-response-7");
    assert_eq!(n.payload, "line");
    assert!(route_with_id("line", None).is_none());
}

#[test]
fn pong_routed_under_its_id() {
    let line = "{\"id\":\"42\",\"result\":\"pong\"}";
    let n = route_line(line).unwrap();
    assert_eq!(n.label, "py-response-42");
    assert_eq!(n.payload, line);
}

#[test]
fn echoed_line_routed_once() {
    let line = "{\"id\":\"x\",\"data\":[1,2,3]}";
    let written = frame_request(line);
    let lines = lines_of(written.as_bytes());
    assert_eq!(lines.len(), 1);
    let routed: Vec<_> = lines.iter().filter_map(|l| route_line(l)).collect();
    assert_eq!(routed.len(), 1);
    assert_eq!(routed[0].label, "py-response-x");
    assert_eq!(routed[0].payload, line);
}

#[test]
fn lines_without_id_are_dropped() {
    assert!(route_line("hello from the worker").is_none());
    assert!(route_line("").is_none());
    assert!(route_line("{\"result\":\"pong\"}").is_none());
    assert!(route_line("{\"id\":42}").is_none());
    assert!(route_line("{\"id\":null}").is_none());
    assert!(route_line("[\"id\"]").is_none());
    assert!(route_line("\"id\"").is_none());
    assert!(route_line("{\"id\":\"1\"").is_none());
}

#[test]
fn nested_id_is_not_an_id() {
    assert!(route_line("{\"inner\":{\"id\":\"1\"}}").is_none());
}

#[test]
fn reader_skips_chatter_and_goes_on() {
    let events = vec![
        ReadEvent::Line("Traceback (most recent call last):".to_string()),
        ReadEvent::Line("{\"status\":\"ok\"}".to_string()),
        ReadEvent::Line("{\"id\":\"9\",\"result\":1}".to_string()),
        ReadEvent::Closed,
    ];
    let actions: Vec<ReaderAction> = events.into_iter().map(reader_step).collect();
    assert!(matches!(actions[0], ReaderAction::Skip));
    assert!(matches!(actions[1], ReaderAction::Skip));
    match &actions[2] {
        ReaderAction::Emit(n) => {
            assert_eq!(n.label, "py-response-9");
            assert_eq!(n.payload, "{\"id\":\"9\",\"result\":1}");
        }
        _ => panic!("expected a notification"),
    }
    assert!(matches!(actions[3], ReaderAction::Stop));
}

#[test]
fn reader_stops_on_failure() {
    assert!(matches!(reader_step(ReadEvent::Failed), ReaderAction::Stop));
    assert!(matches!(reader_step(ReadEvent::Closed), ReaderAction::Stop));
}

#[test]
fn send_before_start_is_unavailable() {
    let mut b: Bridge<u32, Vec<u8>> = Bridge::new();
    assert!(!b.is_running());
    assert_eq!(b.input_for_send().err(), Some(BridgeError::BridgeUnavailable));
}

#[test]
fn send_after_teardown_is_unavailable() {
    let mut b: Bridge<u32, Vec<u8>> = Bridge::new();
    assert!(b.install(Worker { process: 1, input: Some(Vec::new()) }).is_none());
    assert!(b.input_for_send().is_ok());
    let w = b.take_worker().unwrap();
    assert_eq!(w.process, 1);
    assert!(!b.is_running());
    assert_eq!(b.input_for_send().err(), Some(BridgeError::BridgeUnavailable));
}

#[test]
fn send_without_input_is_stream_unavailable() {
    let mut b: Bridge<u32, Vec<u8>> = Bridge::new();
    assert!(b.install(Worker { process: 1, input: None }).is_none());
    assert!(b.is_running());
    assert_eq!(b.input_for_send().err(), Some(BridgeError::StreamUnavailable));
}

#[test]
fn second_worker_is_refused() {
    let mut b: Bridge<u32, Vec<u8>> = Bridge::new();
    assert!(b.install(Worker { process: 1, input: None }).is_none());
    let back = b.install(Worker { process: 2, input: Some(Vec::new()) }).unwrap();
    assert_eq!(back.process, 2);
    assert_eq!(b.input_for_send().err(), Some(BridgeError::StreamUnavailable));
    assert_eq!(b.take_worker().unwrap().process, 1);
}

#[test]
fn requests_written_in_call_order() {
    let mut b: Bridge<u32, Vec<u8>> = Bridge::new();
    b.install(Worker { process: 1, input: Some(Vec::new()) });
    for p in ["{\"id\":\"1\",\"op\":\"a\"}", "{\"id\":\"2\",\"op\":\"b\"}"] {
        let input = b.input_for_send().unwrap();
        input.extend_from_slice(frame_request(p).as_bytes());
    }
    let written = b.take_worker().unwrap().input.unwrap();
    assert_eq!(
        lines_of(&written),
        vec!["{\"id\":\"1\",\"op\":\"a\"}".to_string(), "{\"id\":\"2\",\"op\":\"b\"}".to_string()]
    );
}

fn stub_worker(request: &str) -> Option<String> {
    if request == "{\"id\":\"42\",\"op\":\"ping\"}" {
        Some("{\"id\":\"42\",\"result\":\"pong\"}".to_string())
    } else {
        None
    }
}

#[test]
fn ping_pong_end_to_end() {
    let mut b: Bridge<u32, Vec<u8>> = Bridge::new();
    b.install(Worker { process: 1, input: Some(Vec::new()) });
    let input = b.input_for_send().unwrap();
    input.extend_from_slice(frame_request("{\"id\":\"42\",\"op\":\"ping\"}").as_bytes());
    let written = b.take_worker().unwrap().input.unwrap();
    let mut output = String::new();
    for request in lines_of(&written) {
        if let Some(response) = stub_worker(&request) {
            output.push_str(&frame_request(&response));
        }
    }
    let mut events: Vec<ReadEvent> = output.lines().map(|l| ReadEvent::Line(l.to_string())).collect();
    events.push(ReadEvent::Closed);
    let mut notes = Vec::new();
    for ev in events {
        match reader_step(ev) {
            ReaderAction::Emit(n) => notes.push(n),
            ReaderAction::Skip => {}
            ReaderAction::Stop => break,
        }
    }
    assert_eq!(notes.len(), 1);
    assert_eq!(notes[0].label, "py-response-42");
    assert_eq!(notes[0].payload, "{\"id\":\"42\",\"result\":\"pong\"}");
}
