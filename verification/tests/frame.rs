use rustshell::frame::{decode_frame, find_frame, parse_command_frame};

const MARKER: &str = "__RUSTSHELL_RESULT_test__";

#[test]
fn parses_structured_command_frame_after_echoed_marker() {
    let marker = "__RUSTSHELL_RESULT_test__";
    let frame = format!("echo printf {marker}:%s:%s\r\n{marker}:7:aGVsbG8=:YmFk:END\r\n");
    let parsed = parse_command_frame(frame.as_bytes(), marker)
        .unwrap()
        .expect("frame");

    assert_eq!(parsed.0, 7);
    assert_eq!(parsed.1, "hello");
    assert_eq!(parsed.2, "bad");
}

#[test]
fn output_without_a_frame_is_no_error() {
    for text in [
        String::new(),
        "no marker".to_owned(),
        format!("{MARKER}"),
        format!("{MARKER}:0:aGk=:"),
        format!("{MARKER}:0:aGk=:END"),
        format!("{MARKER}:x:aGk=:YmFk:END"),
        format!("{MARKER}:2147483648:aGk=:YmFk:END"),
    ] {
        assert_eq!(parse_command_frame(text.as_bytes(), MARKER), Ok(None), "{text}");
    }
}

#[test]
fn the_last_whole_frame_counts() {
    let text = format!("{MARKER}:1:::END {MARKER}:-2:b25l:dHdv:END {MARKER}:3:aGk=");
    let parsed = parse_command_frame(text.as_bytes(), MARKER).unwrap().unwrap();
    assert_eq!(parsed, (-2, "one".to_owned(), "two".to_owned()));
}

#[test]
fn output_that_is_not_base64_is_an_error() {
    let text = format!("{MARKER}:0:*:YmFk:END");
    let error = parse_command_frame(text.as_bytes(), MARKER).unwrap_err();
    assert!(error.starts_with("[exec_parse] invalid stdout encoding: "), "{error}");
    let text = format!("{MARKER}:0:aGk=:a:b:END");
    let error = parse_command_frame(text.as_bytes(), MARKER).unwrap_err();
    assert!(error.starts_with("[exec_parse] invalid stderr encoding: "), "{error}");
}

#[test]
fn output_that_is_not_utf8_is_replaced() {
    let mut data = vec![0xff, 0xfe];
    data.extend_from_slice(format!("{MARKER}:0:/w==::END").as_bytes());
    let parsed = parse_command_frame(&data, MARKER).unwrap().unwrap();
    assert_eq!(parsed, (0, "\u{fffd}".to_owned(), String::new()));
}

#[test]
fn a_field_that_begins_like_the_end_mark_ends_the_frame() {
    let text = format!("{MARKER}:0:ENDx:YmFk:END");
    assert_eq!(parse_command_frame(text.as_bytes(), MARKER), Ok(None));
}

#[test]
fn a_frame_is_found_before_it_is_decoded() {
    let found = find_frame("M:%s M:12:*:x:y:END M:", "M");
    assert_eq!(found, Some((12, "*".to_owned(), "x:y".to_owned())));
    assert_eq!(find_frame("M:12:a:b", "M"), None);
    assert_eq!(decode_frame(1, "aGVsbG8=", ""), Ok((1, "hello".to_owned(), String::new())));
    assert!(decode_frame(1, "aGVsbG8", "").is_err());
}
