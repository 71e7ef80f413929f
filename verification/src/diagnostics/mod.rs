//! Terminal session recording and replay: the recording format, the recorder
//! that captures events with their timing, and the replay state machine.
pub mod format;
pub mod recorder;
pub mod replay;
