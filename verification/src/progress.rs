//! Classification of the transcription script's standard-output lines into
//! the events forwarded to the GUI: a project-directory announcement, a
//! pipeline-stage progress message, or nothing.

use vstd::prelude::*;
use crate::text::contains_seq;
use crate::text::contains_str;
use crate::text::has_prefix;
use crate::text::remove_all;
use crate::text::remove_all_str;
use crate::text::starts_with_str;

verus! {

/// What a single output line of the transcription script calls for.
pub enum LineEvent {
    /// The line announced the project directory; `dir` is the line with every
    /// occurrence of the announcement prefix removed.
    ProjectDir { dir: String },
    /// The line matched a pipeline stage marker; `message` is the progress
    /// text owed to the GUI.
    Progress { message: String },
    /// The line is neither an announcement nor a stage marker.
    Ignore,
}

/// The progress text owed for an output line, if any.  The stage markers are
/// tried in a fixed order and the first one contained in the line decides.
pub open spec fn progress_message(l: Seq<char>) -> Option<Seq<char>> {
    if contains_seq(l, "Loading Whisper model"@) {
        Some("Loading model..."@)
    } else if contains_seq(l, "Transcribing audio"@) {
        Some("Transcribing..."@)
    } else if contains_seq(l, "Aligning words"@) {
        Some("Aligning words..."@)
    } else if contains_seq(l, "Pipeline complete"@) {
        Some("Complete!"@)
    } else {
        None
    }
}

/// Classify one line of the script's standard output.  A line that starts
/// with the project-directory prefix yields the directory (the prefix
/// stripped wherever it occurs); otherwise the first stage marker contained
/// in the line yields its progress message; otherwise the line is ignored.
pub fn classify_line(line: &str) -> (r: LineEvent)
    ensures
        has_prefix(line@, "PROJECT_DIR:"@) ==> (r matches LineEvent::ProjectDir { dir } && dir@
            == remove_all(line@, "PROJECT_DIR:"@)),
        !has_prefix(line@, "PROJECT_DIR:"@) && progress_message(line@) is Some ==> (r matches
            LineEvent::Progress { message } && Some(message@) == progress_message(line@)),
        !has_prefix(line@, "PROJECT_DIR:"@) && progress_message(line@) is None ==> r
            is Ignore,
{
    if starts_with_str(line, "PROJECT_DIR:") {
        proof {
            reveal_strlit("PROJECT_DIR:");
        }
        let dir = remove_all_str(line, "PROJECT_DIR:");
        LineEvent::ProjectDir { dir }
    } else if contains_str(line, "Loading Whisper model") {
        LineEvent::Progress { message: String::from_str("Loading model...") }
    } else if contains_str(line, "Transcribing audio") {
        LineEvent::Progress { message: String::from_str("Transcribing...") }
    } else if contains_str(line, "Aligning words") {
        LineEvent::Progress { message: String::from_str("Aligning words...") }
    } else if contains_str(line, "Pipeline complete") {
        LineEvent::Progress { message: String::from_str("Complete!") }
    } else {
        LineEvent::Ignore
    }
}

} // verus!
