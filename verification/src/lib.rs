//! Native backend library for a GUI transcription frontend.
//!
//! The GUI issues commands that launch an external transcription script as a
//! subprocess and relay its output back, either as a blocking result or as a
//! stream of progress events.  This crate holds the decision and formatting
//! logic of that relay layer: resolving the interpreter path, building the
//! argument lists, classifying the subprocess's output lines into progress
//! events, choosing between stdout and stderr on exit, and formatting the
//! result and error payloads handed back to the GUI.  The process spawning,
//! stream plumbing and event emission themselves live in the host shell.

pub mod launch;
pub mod progress;
pub mod relay;
pub mod response;
pub mod text;

use vstd::prelude::*;

verus! {

/// The greeting returned to the frontend's smoke-test command.
pub fn greet(name: &str) -> (r: String)
    ensures
        r@ == "Hello, "@ + name@ + "! You've been greeted from Rust!"@,
{
    let mut r = String::from_str("Hello, ");
    r.append(name);
    r.append("! You've been greeted from Rust!");
    r
}

} // verus!
