//! Push-to-talk capture and transcription: the decisions of the toggle loop,
//! the framing of captured audio, the rendering of transcript lines and the
//! choice of output strategy from the focused window.
pub mod audio;
pub mod dispatch;
pub mod focus;
pub mod recorder;
pub mod transcript;
