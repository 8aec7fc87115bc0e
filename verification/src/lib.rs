//! Capture of the audio that the desktop plays, and the signal handling of a
//! small level meter built on it.
//!
//! The library holds the decisions of the recorder (when a connection is
//! ready, which monitor source to record, what to do with each peek into the
//! stream) and the integer signal handling of the meter; the program around
//! it performs the calls into the sound server and the window.
use vstd::prelude::*;

pub mod error;
pub mod monitor;
pub mod session;
pub mod signal;

pub use error::{CreateError, GetMonitorError, ReadError};
