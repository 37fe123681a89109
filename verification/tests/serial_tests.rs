use opal::fixed::LINE_CAPACITY;
use opal::gcode::{Code, Request, MAX_LEN};
use opal::serial::{
    accept_byte, line_complete, process_line, trim_front, try_process_line, ReadStep,
    SerialErrResult,
};

type Line = heapless::String<LINE_CAPACITY>;

fn line(s: &str) -> Line {
    let mut l = Line::new();
    l.push_str(s).unwrap();
    l
}

#[test]
fn bytes_build_a_line() {
    let mut buf = Line::new();
    assert_eq!(accept_byte(&mut buf, b'G'), ReadStep::More);
    assert_eq!(accept_byte(&mut buf, b'1'), ReadStep::More);
    assert!(!line_complete(&buf));
    assert_eq!(accept_byte(&mut buf, b'\n'), ReadStep::Line);
    assert_eq!(buf.as_str(), "G1\n");
    assert!(line_complete(&buf));
}

#[test]
fn carriage_return_ends_a_line() {
    let mut buf = line("M5");
    assert_eq!(accept_byte(&mut buf, b'\r'), ReadStep::Line);
    assert_eq!(buf.as_str(), "M5\r");
}

#[test]
fn question_mark_is_a_query_and_not_stored() {
    let mut buf = line("G1");
    assert_eq!(accept_byte(&mut buf, b'?'), ReadStep::Query);
    assert_eq!(buf.as_str(), "G1");
}

#[test]
fn full_buffer_overflows() {
    let full = "x".repeat(LINE_CAPACITY);
    let mut buf = line(&full);
    assert_eq!(accept_byte(&mut buf, b'9'), ReadStep::Overflow);
    assert_eq!(buf.as_str(), full);
}

#[test]
fn high_byte_takes_two_bytes() {
    // A byte above 0x7f is stored as the character of that code, which takes
    // two bytes in UTF-8.
    let almost = "x".repeat(LINE_CAPACITY - 1);
    let mut buf = line(&almost);
    assert_eq!(accept_byte(&mut buf, 0xE9), ReadStep::Overflow);
    let room = "x".repeat(LINE_CAPACITY - 2);
    let mut buf = line(&room);
    assert_eq!(accept_byte(&mut buf, 0xE9), ReadStep::More);
    assert_eq!(buf.as_str(), format!("{}\u{e9}", room));
}

#[test]
fn line_complete_on_query_char() {
    assert!(line_complete(&line("?")));
    assert!(!line_complete(&Line::new()));
}

#[test]
fn trim_drops_consumed_bytes() {
    let mut buf = line("G90 X1\n");
    trim_front(&mut buf, 3);
    assert_eq!(buf.as_str(), " X1\n");
    let mut buf = line("G1 X1\n");
    trim_front(&mut buf, 6);
    assert_eq!(buf.as_str(), "");
    let mut buf = line("G1\n");
    trim_front(&mut buf, 0);
    assert_eq!(buf.as_str(), "G1\n");
    let mut buf = line("G1\n");
    trim_front(&mut buf, 9);
    assert_eq!(buf.as_str(), "");
}

#[test]
fn one_command_line() {
    let out = process_line::<MAX_LEN>("G1 X10\n", &[1], 8, 8);
    assert_eq!(out.result, Ok(7));
    assert_eq!(out.gcodes.len(), 1);
    assert_eq!(out.gcodes[0].code(), Code::G(1));
    assert_eq!(out.gcodes[0].get_x().as_deref(), Some("10"));
    assert!(out.requests.is_empty());
    assert!(out.report.is_none());
}

#[test]
fn partial_command_then_the_rest() {
    let out = process_line::<MAX_LEN>("G90 G1 X5\n", &[90, 1], 8, 8);
    assert_eq!(out.result, Ok(10));
    assert_eq!(out.gcodes.len(), 2);
    assert_eq!(out.gcodes[0].code(), Code::G(90));
    assert_eq!(out.gcodes[1].code(), Code::G(1));
    assert_eq!(out.gcodes[1].get_x().as_deref(), Some("5"));
}

#[test]
fn full_queue_stops_with_consumed_length() {
    let out = process_line::<MAX_LEN>("G1 X10\n", &[1], 0, 8);
    assert_eq!(out.result, Err(SerialErrResult::Incomplead(0)));
    assert!(out.gcodes.is_empty());
    let out = process_line::<MAX_LEN>("G90 G1 X5\n", &[90, 1], 1, 8);
    assert_eq!(out.result, Err(SerialErrResult::Incomplead(3)));
    assert_eq!(out.gcodes.len(), 1);
}

#[test]
fn status_request_line() {
    let out = process_line::<MAX_LEN>("?", &[0], 8, 8);
    assert_eq!(out.result, Ok(1));
    assert_eq!(out.requests.len(), 1);
    assert!(matches!(out.requests[0], Request::Status));
    let out = process_line::<MAX_LEN>("?", &[0], 8, 0);
    assert_eq!(out.result, Err(SerialErrResult::Incomplead(0)));
}

#[test]
fn parse_error_is_reported_and_consumed() {
    let out = process_line::<MAX_LEN>("G1 XQ\n", &[1], 8, 8);
    assert_eq!(out.result, Ok(6));
    assert!(out.gcodes.is_empty());
    assert_eq!(out.report.as_deref(), Some("Failed to parse X value \"G1 XQ\n\""));
}

#[test]
fn comment_line_is_consumed() {
    let out = process_line::<MAX_LEN>("(hello)\n", &[0], 8, 8);
    assert_eq!(out.result, Ok(8));
    assert!(out.gcodes.is_empty());
    assert!(out.report.is_none());
}

#[test]
fn line_without_its_g_numbers_is_refused() {
    assert!(try_process_line::<MAX_LEN>("G90 G1 X5\n", &[90], 8, 8).is_none());
    assert!(try_process_line::<MAX_LEN>("G1 X5\n", &[], 8, 8).is_none());
    assert!(try_process_line::<MAX_LEN>("G1 X5\n", &[1], 8, 8).is_some());
}
