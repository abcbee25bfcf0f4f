use pushscribe::audio::{plan_pass, EnginePass};
use pushscribe::dispatch::{plan_output, use_paste_mode, Destination, SinkOp};
use pushscribe::transcript::TranscriptSegment;

fn seg(start: i64, end: i64, text: &str) -> TranscriptSegment {
    TranscriptSegment { start, end, text: text.to_string() }
}

fn describe(ops: &[SinkOp]) -> Vec<String> {
    ops.iter()
        .map(|o| match o {
            SinkOp::Print(s) => format!("print {s}"),
            SinkOp::AppendLine(s) => format!("append {s}"),
            SinkOp::Copy(s) => format!("copy {s}"),
            SinkOp::PasteKeys => "paste".to_string(),
            SinkOp::Type(s) => format!("type {s}"),
        })
        .collect()
}

#[test]
fn firefox_uses_paste() {
    assert!(use_paste_mode(&Some("firefox".to_string())));
}

#[test]
fn other_apps_and_none_type() {
    assert!(!use_paste_mode(&Some("kitty".to_string())));
    assert!(!use_paste_mode(&Some("Firefox".to_string())));
    assert!(!use_paste_mode(&Some("firefox ".to_string())));
    assert!(!use_paste_mode(&Some(String::new())));
    assert!(!use_paste_mode(&None));
}

#[test]
fn file_sink_writes_one_line() {
    let ops = plan_output(&vec![seg(0, 120, "hello")], Destination::File, false);
    assert_eq!(describe(&ops), vec!["append [0 - 1.2]: hello\n".to_string()]);
}

#[test]
fn paste_sink_copies_then_pastes() {
    let ops = plan_output(&vec![seg(0, 50, " one "), seg(50, 90, "two")], Destination::Keyboard { paste: true }, false);
    assert_eq!(describe(&ops), vec!["copy one", "paste", "copy two", "paste"]);
}

#[test]
fn type_sink_types_with_echo() {
    let ops = plan_output(&vec![seg(0, 50, " one ")], Destination::Keyboard { paste: false }, true);
    assert_eq!(describe(&ops), vec!["print one", "type one"]);
}

#[test]
fn console_sink_prints() {
    let ops = plan_output(&vec![seg(0, 50, "a"), seg(0, 50, "b\n")], Destination::Console, false);
    assert_eq!(describe(&ops), vec!["print a", "print b"]);
}

#[test]
fn no_segments_no_output() {
    assert!(plan_output(&Vec::new(), Destination::File, true).is_empty());
}

#[test]
fn empty_capture_is_skipped() {
    assert_eq!(plan_pass(&Vec::new()), EnginePass::Skip);
    assert_eq!(plan_pass(&vec![1, 2, 3]), EnginePass::Skip);
}

#[test]
fn partial_sample_is_left_out() {
    assert_eq!(plan_pass(&vec![0; 4]), EnginePass::Run { bytes: 4 });
    assert_eq!(plan_pass(&vec![0; 10]), EnginePass::Run { bytes: 8 });
}
