//! A small terminal multiplexer core: bounded panels, the panel set with its
//! focus, key dispatch, frame composition and the decisions of a payload
//! launch that first tries an anonymous in-memory execution and then a
//! transient executable file.
//!
//! Everything here works on plain values; the terminal, the filesystem and
//! the child process are driven by the program around this library.

pub mod text;
pub mod panel;
pub mod input;
pub mod multiplexer;
pub mod render;
pub mod launch;
pub mod capture;
pub mod transient;
pub mod diagnostic;
pub mod handoff;
