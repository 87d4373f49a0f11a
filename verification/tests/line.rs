use esp32_logger::{format_announcement, format_line, Level};

#[test]
fn line_has_tag_text_and_terminator() {
    assert_eq!(format_line(Level::Trace, "t"), b"[ TRACE ] t\r\n".to_vec());
    assert_eq!(format_line(Level::Debug, "d"), b"[ DEBUG ] d\r\n".to_vec());
    assert_eq!(format_line(Level::Info, "i"), b"[ INFO ] i\r\n".to_vec());
    assert_eq!(format_line(Level::Warn, "w"), b"[ WARN ] w\r\n".to_vec());
    assert_eq!(format_line(Level::Error, "e"), b"[ ERROR ] e\r\n".to_vec());
}

#[test]
fn empty_message_still_makes_a_line() {
    assert_eq!(format_line(Level::Info, ""), b"[ INFO ] \r\n".to_vec());
}

#[test]
fn message_text_is_not_escaped() {
    assert_eq!(format_line(Level::Warn, "a\r\nb [ ] {}"), b"[ WARN ] a\r\nb [ ] {}\r\n".to_vec());
}

#[test]
fn message_goes_out_in_utf8() {
    let line = format_line(Level::Error, "\u{e9}\u{20ac}");
    assert_eq!(line, vec![0x5b, 0x20, 0x45, 0x52, 0x52, 0x4f, 0x52, 0x20, 0x5d, 0x20, 0xc3, 0xa9, 0xe2, 0x82, 0xac, 0x0d, 0x0a]);
}

#[test]
fn level_tags_are_upper_case_names() {
    assert_eq!(Level::Trace.as_str(), "TRACE");
    assert_eq!(Level::Debug.as_str(), "DEBUG");
    assert_eq!(Level::Info.as_str(), "INFO");
    assert_eq!(Level::Warn.as_str(), "WARN");
    assert_eq!(Level::Error.as_str(), "ERROR");
}

#[test]
fn ranks_run_from_trace_to_error() {
    assert_eq!(Level::Trace.rank(), 0);
    assert_eq!(Level::Debug.rank(), 1);
    assert_eq!(Level::Info.rank(), 2);
    assert_eq!(Level::Warn.rank(), 3);
    assert_eq!(Level::Error.rank(), 4);
}

#[test]
fn announcement_names_the_threshold() {
    assert_eq!(format_announcement(Level::Info), "Initialized logger. Level = INFO.");
    assert_eq!(format_announcement(Level::Trace), "Initialized logger. Level = TRACE.");
}
