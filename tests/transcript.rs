use pushscribe::transcript::{is_space, transcript_line, trim_text, TranscriptSegment};

fn seg(start: i64, end: i64, text: &str) -> TranscriptSegment {
    TranscriptSegment { start, end, text: text.to_string() }
}

#[test]
fn file_line_of_hello() {
    assert_eq!(transcript_line(&seg(0, 120, "hello")), "[0 - 1.2]: hello\n");
}

#[test]
fn file_line_trims_text() {
    assert_eq!(transcript_line(&seg(150, 305, "  Hello there.\t")), "[1.5 - 3.05]: Hello there.\n");
}

#[test]
fn file_line_whole_and_large_seconds() {
    assert_eq!(transcript_line(&seg(1000, 123456, "x")), "[10 - 1234.56]: x\n");
}

#[test]
fn file_line_negative_time() {
    assert_eq!(transcript_line(&seg(-5, 7, "a")), "[-0.05 - 0.07]: a\n");
}

#[test]
fn file_line_extreme_times() {
    assert_eq!(
        transcript_line(&seg(i64::MIN, i64::MAX, "")),
        "[-92233720368547758.08 - 92233720368547758.07]: \n"
    );
}

#[test]
fn trim_removes_unicode_space() {
    assert_eq!(trim_text("\u{3000} \n word one \u{a0}\r"), "word one");
    assert_eq!(trim_text("   "), "");
    assert_eq!(trim_text(""), "");
    assert_eq!(trim_text("é"), "é");
}

#[test]
fn space_matches_std() {
    for c in ['\t', '\n', ' ', '\u{85}', '\u{a0}', '\u{2000}', '\u{200a}', '\u{3000}', 'a', '\u{200b}', '0'] {
        assert_eq!(is_space(c), c.is_whitespace());
    }
}
