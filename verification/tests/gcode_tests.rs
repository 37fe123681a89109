use opal::gcode::{g_word, Code, GCode, ParceError, ParceResult, Request, MAX_LEN};

fn parse(text: &str, g: u32) -> Result<ParceResult, ParceError> {
    GCode::from_string::<MAX_LEN>(text, g)
}

fn gcode_of(r: Result<ParceResult, ParceError>) -> GCode {
    match r {
        Ok(ParceResult::GCode(g)) => g,
        _ => panic!("expected a command"),
    }
}

fn error_of(r: Result<ParceResult, ParceError>) -> String {
    match r {
        Err(ParceError::Error(e)) => e,
        _ => panic!("expected an error"),
    }
}

fn word(o: &Option<String>) -> Option<&str> {
    o.as_deref()
}

#[test]
fn g1_with_coordinates() {
    let g = gcode_of(parse("G1 X10 Y-3", 1));
    assert_eq!(g.code(), Code::G(1));
    assert_eq!(word(g.get_x()), Some("10"));
    assert_eq!(word(g.get_y()), Some("-3"));
    assert_eq!(word(g.get_a()), None);
    assert_eq!(word(g.get_s()), None);
    assert_eq!(word(g.get_f()), None);
}

#[test]
fn lower_case_line_reads_as_upper_case() {
    let g = gcode_of(parse("g1 x1.5 f300 s20 a7", 1));
    assert_eq!(g.code(), Code::G(1));
    assert_eq!(word(g.get_x()), Some("1.5"));
    assert_eq!(word(g.get_f()), Some("300"));
    assert_eq!(word(g.get_s()), Some("20"));
    assert_eq!(word(g.get_a()), Some("7"));
}

#[test]
fn g90_is_partial_after_three_bytes() {
    match parse("G90 X5", 90) {
        Ok(ParceResult::Partial(g, n)) => {
            assert_eq!(g.code(), Code::G(90));
            assert_eq!(n, 3);
            assert_eq!(word(g.get_x()), None);
        }
        _ => panic!("expected a partial command"),
    }
}

#[test]
fn g91_is_partial_too() {
    match parse("G91", 91) {
        Ok(ParceResult::Partial(g, n)) => {
            assert_eq!(g.code(), Code::G(91));
            assert_eq!(n, 3);
        }
        _ => panic!("expected a partial command"),
    }
}

#[test]
fn jog_command_is_a_g_command() {
    let g = gcode_of(parse("$J=G1X5", 0));
    assert_eq!(g.code(), Code::G(1));
    assert_eq!(word(g.get_x()), Some("5"));
}

#[test]
fn jog_without_g_is_an_error() {
    assert_eq!(error_of(parse("$J=X1", 0)), "jog error");
}

#[test]
fn dollar_request() {
    match parse("$G", 0) {
        Ok(ParceResult::Request(Request::Dollar(c))) => assert_eq!(c, 'G'),
        _ => panic!("expected a request"),
    }
}

#[test]
fn dollar_request_is_upper_cased() {
    match parse("$x", 0) {
        Ok(ParceResult::Request(Request::Dollar(c))) => assert_eq!(c, 'X'),
        _ => panic!("expected a request"),
    }
}

#[test]
fn lone_dollar_is_an_error() {
    assert_eq!(error_of(parse("$", 0)), "Failed to parse $ command");
}

#[test]
fn question_mark_is_a_status_request() {
    match parse("?", 0) {
        Ok(ParceResult::Request(Request::Status)) => {}
        _ => panic!("expected a status request"),
    }
}

#[test]
fn m3_with_power() {
    let g = gcode_of(parse("M3 S50", 0));
    assert_eq!(g.code(), Code::M(3));
    assert_eq!(word(g.get_s()), Some("50"));
    assert_eq!(word(g.get_x()), None);
}

#[test]
fn m_code_ignores_coordinates() {
    let g = gcode_of(parse("M5 X10", 0));
    assert_eq!(g.code(), Code::M(5));
    assert_eq!(word(g.get_x()), None);
}

#[test]
fn bad_m_number() {
    assert_eq!(error_of(parse("MX", 0)), "Failed to parse M command");
}

#[test]
fn bad_s_value() {
    assert_eq!(error_of(parse("M3 SX", 0)), "Invalid S value");
}

#[test]
fn bad_g_number() {
    assert_eq!(error_of(parse("G X1", 0)), "Failed to parse Gcode number");
}

#[test]
fn bad_x_value_reports_the_line() {
    assert_eq!(error_of(parse("G1 XQ", 1)), "Failed to parse X value \"G1 XQ\"");
}

#[test]
fn bad_y_value_after_good_x() {
    assert_eq!(error_of(parse("G1 X1 Y1-2", 1)), "Failed to parse Y value \"G1 X1 Y1-2\"");
}

#[test]
fn long_bad_value_message_stops_before_the_line() {
    // The 64-byte message buffer takes each piece whole or not at all; the
    // line does not fit after the prefix, so the message ends there.
    let line = "G1 X- ..........................................................";
    let e = error_of(parse(line, 1));
    assert_eq!(e, "Failed to parse X value \"");
}

#[test]
fn comment_and_skip_lines_are_empty() {
    assert!(matches!(parse("(comment)", 0), Err(ParceError::Empty)));
    assert!(matches!(parse("/G1 X1", 1), Err(ParceError::Empty)));
    assert!(matches!(parse(":label", 0), Err(ParceError::Empty)));
    assert!(matches!(parse("", 0), Err(ParceError::Empty)));
}

#[test]
fn percent_line_is_error_1() {
    assert_eq!(error_of(parse("%", 0)), "error: 1");
}

#[test]
fn coordinates_without_command() {
    let g = gcode_of(parse("X5 Y+2", 0));
    assert_eq!(g.code(), Code::Empty);
    assert_eq!(word(g.get_x()), Some("5"));
    assert_eq!(word(g.get_y()), Some("+2"));
}

#[test]
fn g_word_is_the_text_after_g() {
    assert_eq!(g_word("G1.5 X2"), "1.5");
    assert_eq!(g_word("g43.1"), "43.1");
    assert_eq!(g_word("X2"), "");
}

#[test]
fn try_from_string_refuses_a_line_longer_than_its_buffer() {
    assert!(GCode::try_from_string::<4>("G1 X10", 1).is_none());
    assert!(GCode::try_from_string::<16>("G1 X10", 1).is_some());
}

#[test]
fn default_and_set_code() {
    let mut g = GCode::default();
    assert_eq!(g.code(), Code::Empty);
    assert_eq!(word(g.get_x()), None);
    g.set_code(Code::M(4));
    assert_eq!(g.code(), Code::M(4));
}

#[test]
fn non_ascii_digits_are_numeric_for_the_word_scan() {
    // '٣' (Arabic-Indic digit three) is numeric, so it belongs to the word,
    // and the word is then no number literal.
    let e = error_of(parse("G1 X1\u{0663}", 1));
    assert!(e.starts_with("Failed to parse X value"));
}

#[test]
fn letter_case_does_not_matter() {
    for (lower, upper) in [("g1 x2 y-3.5", "G1 X2 Y-3.5"), ("m3 s40", "M3 S40"), ("$x", "$X"), ("g1 xq", "G1 XQ")] {
        match (parse(lower, 1), parse(upper, 1)) {
            (Ok(ParceResult::GCode(a)), Ok(ParceResult::GCode(b))) => {
                assert_eq!(a.code(), b.code());
                assert_eq!(a.get_x(), b.get_x());
                assert_eq!(a.get_y(), b.get_y());
                assert_eq!(a.get_s(), b.get_s());
            }
            (Ok(ParceResult::Request(Request::Dollar(a))), Ok(ParceResult::Request(Request::Dollar(b)))) => {
                assert_eq!(a, b)
            }
            (Err(ParceError::Error(a)), Err(ParceError::Error(b))) => assert_eq!(a, b),
            _ => panic!("different parses for {}", lower),
        }
    }
}
