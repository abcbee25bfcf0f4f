//! Framing of captured audio: 32-bit float samples, mono, 16 kHz, as bytes.
use vstd::prelude::*;

verus! {

/// The width of one sample in bytes.
pub const SAMPLE_BYTES: usize = 4;

/// How a capture reaches the recognition engine.
#[derive(Clone, Copy, Debug, PartialEq, Eq, Structural)]
pub enum EnginePass {
    /// The capture holds no whole sample: no engine call, and no segments.
    Skip,
    /// Run the engine on the first `bytes` bytes, which form whole samples.
    Run { bytes: usize },
}

/// The longest prefix of `len` bytes made of whole samples.
pub open spec fn whole_samples_len(len: int) -> int {
    len - len % 4
}

/// The engine pass for a capture of `len` bytes.
pub open spec fn pass_for(len: int) -> EnginePass {
    if whole_samples_len(len) == 0 {
        EnginePass::Skip
    } else {
        EnginePass::Run { bytes: whole_samples_len(len) as usize }
    }
}

/// Decides how the captured bytes reach the engine: an empty capture, or one
/// shorter than a sample, is skipped and yields no segments rather than a
/// failure; otherwise a trailing partial sample is left out.
pub fn plan_pass(audio: &Vec<u8>) -> (r: EnginePass)
    ensures
        r == pass_for(audio@.len() as int),
{
    let n = audio.len();
    let whole = n - n % SAMPLE_BYTES;
    if whole == 0 {
        EnginePass::Skip
    } else {
        EnginePass::Run { bytes: whole }
    }
}

/// A capture with no bytes is never handed to the engine.
pub proof fn lemma_empty_capture_skipped(audio: Seq<u8>)
    requires
        audio.len() == 0,
    ensures
        pass_for(audio.len() as int) == EnginePass::Skip,
{
}

/// An engine pass covers whole samples only, all of them, and never more
/// bytes than were captured.
pub proof fn lemma_pass_whole_samples(len: nat)
    requires
        len <= usize::MAX,
    ensures
        match pass_for(len as int) {
            EnginePass::Skip => len < 4,
            EnginePass::Run { bytes } => bytes % 4 == 0 && bytes <= len < bytes + 4 && bytes > 0,
        },
{
}

} // verus!
