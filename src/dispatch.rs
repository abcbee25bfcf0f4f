//! Turning transcript segments into output steps.
use vstd::prelude::*;
use crate::focus::opt_chars;
use crate::transcript::{line_text, trim_text, transcript_line, trimmed, TranscriptSegment};

verus! {

/// Where a run sends its transcripts.
#[derive(Clone, Copy, Debug, PartialEq, Eq, Structural)]
pub enum Destination {
    /// Append one `[start - end]: text` line per segment to the transcript file.
    File,
    /// Print each trimmed text.
    Console,
    /// Inject each trimmed text into the focused application, by clipboard
    /// and paste keystroke when `paste`, else by typing it.
    Keyboard { paste: bool },
}

/// One step of output, performed by the caller in order.
pub enum SinkOp {
    /// Print the text on a line of its own.
    Print(String),
    /// Append the line to the transcript file.
    AppendLine(String),
    /// Put the text on the clipboard.
    Copy(String),
    /// Press the paste key combination.
    PasteKeys,
    /// Type the text key by key.
    Type(String),
}

/// The meaning of a [`SinkOp`].
pub ghost enum SinkStep {
    Print(Seq<char>),
    AppendLine(Seq<char>),
    Copy(Seq<char>),
    PasteKeys,
    Type(Seq<char>),
}

impl View for SinkOp {
    type V = SinkStep;

    open spec fn view(&self) -> SinkStep {
        match self {
            SinkOp::Print(s) => SinkStep::Print(s@),
            SinkOp::AppendLine(s) => SinkStep::AppendLine(s@),
            SinkOp::Copy(s) => SinkStep::Copy(s@),
            SinkOp::PasteKeys => SinkStep::PasteKeys,
            SinkOp::Type(s) => SinkStep::Type(s@),
        }
    }
}

/// The application that takes text by clipboard and paste.
pub open spec fn paste_app() -> Seq<char> {
    seq!['f', 'i', 'r', 'e', 'f', 'o', 'x']
}

/// Whether the focused application gets text by clipboard and paste: only
/// when its id is `firefox`; any other id, or none, gets typed keystrokes.
pub fn use_paste_mode(app_id: &Option<String>) -> (r: bool)
    ensures
        r == (opt_chars(*app_id) == Some(paste_app())),
{
    proof {
        reveal_strlit("firefox");
    }
    match app_id {
        Some(id) => {
            let want = String::from_str("firefox");
            assert(want@ =~= paste_app());
            *id == want
        },
        None => false,
    }
}

/// Keyboard output for the focused application `app_id`: when it is
/// `firefox`, every segment goes by clipboard and paste; for any other id, and
/// for none, every segment is typed.
pub proof fn lemma_keyboard_strategy(app_id: Option<Seq<char>>, seg: TranscriptSegment)
    ensures
        segment_steps(seg, Destination::Keyboard { paste: app_id == Some(paste_app()) }, false)
            == (if app_id == Some(paste_app()) {
            seq![SinkStep::Copy(trimmed(seg.text@)), SinkStep::PasteKeys]
        } else {
            seq![SinkStep::Type(trimmed(seg.text@))]
        }),
{
    assert(segment_steps(seg, Destination::Keyboard { paste: app_id == Some(paste_app()) }, false)
        =~= (if app_id == Some(paste_app()) {
        seq![SinkStep::Copy(trimmed(seg.text@)), SinkStep::PasteKeys]
    } else {
        seq![SinkStep::Type(trimmed(seg.text@))]
    }));
}

/// The output steps for one segment.
pub open spec fn segment_steps(seg: TranscriptSegment, dest: Destination, echo: bool) -> Seq<SinkStep> {
    let text = trimmed(seg.text@);
    let shown = if echo { seq![SinkStep::Print(text)] } else { Seq::empty() };
    shown + match dest {
        Destination::File => seq![SinkStep::AppendLine(line_text(seg.start as int, seg.end as int, seg.text@))],
        Destination::Console => seq![SinkStep::Print(text)],
        Destination::Keyboard { paste } => if paste {
            seq![SinkStep::Copy(text), SinkStep::PasteKeys]
        } else {
            seq![SinkStep::Type(text)]
        },
    }
}

/// The output steps for the segments in order.
pub open spec fn plan_steps(segs: Seq<TranscriptSegment>, dest: Destination, echo: bool) -> Seq<SinkStep>
    decreases segs.len(),
{
    if segs.len() == 0 {
        Seq::empty()
    } else {
        plan_steps(segs.drop_last(), dest, echo) + segment_steps(segs.last(), dest, echo)
    }
}

/// The steps that send `segments` to `dest`, segment by segment in order;
/// with `echo`, each trimmed text is printed first as well.
pub fn plan_output(segments: &Vec<TranscriptSegment>, dest: Destination, echo: bool) -> (r: Vec<SinkOp>)
    ensures
        r@.map_values(|o: SinkOp| o@) == plan_steps(segments@, dest, echo),
{
    let mut out: Vec<SinkOp> = Vec::new();
    let mut i: usize = 0;
    while i < segments.len()
        invariant
            i <= segments@.len(),
            out@.map_values(|o: SinkOp| o@) == plan_steps(segments@.take(i as int), dest, echo),
        decreases segments@.len() - i,
    {
        let seg = &segments[i];
        let ghost before = out@.map_values(|o: SinkOp| o@);
        let text = trim_text(seg.text.as_str());
        if echo {
            out.push(SinkOp::Print(text.clone()));
        }
        match dest {
            Destination::File => {
                out.push(SinkOp::AppendLine(transcript_line(seg)));
            },
            Destination::Console => {
                out.push(SinkOp::Print(text));
            },
            Destination::Keyboard { paste } => {
                if paste {
                    out.push(SinkOp::Copy(text));
                    out.push(SinkOp::PasteKeys);
                } else {
                    out.push(SinkOp::Type(text));
                }
            },
        }
        proof {
            let s = segments@.take(i + 1);
            assert(s.drop_last() =~= segments@.take(i as int));
            assert(s.last() == segments@[i as int]);
            assert(out@.map_values(|o: SinkOp| o@) =~= before + segment_steps(*seg, dest, echo));
        }
        i = i + 1;
    }
    assert(segments@.take(segments@.len() as int) =~= segments@);
    out
}

} // verus!
