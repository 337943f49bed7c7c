//! State and rules of a four-field terminal form that drives a video-clipping
//! command: field editing, focus cycling, submission, and the log that collects
//! the command's diagnostic output.
//!
//! The form is a small state machine. Its caller feeds it key presses, the
//! lines that the running command emits and the way the command ended; the
//! form answers with its next state and with what the caller has to do.

pub mod text;
pub mod focus;
pub mod key;
pub mod model;
pub mod scrollbar;
pub mod form;
pub mod laws;
pub mod run;
