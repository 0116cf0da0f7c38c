use s3_multipart::line::{is_end_marker, strip_line_terminator};

#[test]
fn strips_newline() {
    assert_eq!(strip_line_terminator("a.bin\n"), "a.bin");
}

#[test]
fn strips_carriage_return_and_newline() {
    assert_eq!(strip_line_terminator("a.bin\r\n"), "a.bin");
}

#[test]
fn keeps_line_without_terminator() {
    assert_eq!(strip_line_terminator("a.bin"), "a.bin");
    assert_eq!(strip_line_terminator(""), "");
}

#[test]
fn keeps_lone_carriage_return() {
    assert_eq!(strip_line_terminator("a.bin\r"), "a.bin\r");
}

#[test]
fn strips_only_one_newline() {
    assert_eq!(strip_line_terminator("a\n\n"), "a\n");
}

#[test]
fn strips_non_ascii_line() {
    assert_eq!(strip_line_terminator("données.bin\n"), "données.bin");
}

#[test]
fn end_marker_is_exact() {
    assert!(is_end_marker("END"));
    assert!(!is_end_marker("end"));
    assert!(!is_end_marker("END "));
    assert!(!is_end_marker("ENDS"));
    assert!(!is_end_marker(""));
}
