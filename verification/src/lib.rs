//! Verified core of a local voice scratchpad: settings sanitisation, tray
//! status handling, recording-session bookkeeping and the text decisions that
//! the desktop shell makes around capture, transcription and paste.

pub mod text;
pub mod settings;
pub mod tray;
pub mod session;
pub mod transcribe;
pub mod paste;
pub mod window;
pub mod runtime;
pub mod diagnostics;


