//! The recording lifecycle and the control-panel state of a small desktop
//! screen recorder: which monitor is captured, how recordings are named, how
//! the encoder is invoked, and what the panel shows.
pub mod clock;
pub mod text;
pub mod timestamp;
pub mod recorder;
pub mod pipeline;
pub mod ui;

