//! Decisions and messages of the output relay: which stream becomes the
//! result when the subprocess exits, and the texts surfaced to the GUI when
//! a step of the relay fails.

use vstd::prelude::*;

verus! {

/// The lines of a stream, each terminated by a newline.
pub open spec fn joined_lines(ls: Seq<Seq<char>>) -> Seq<char>
    decreases ls.len(),
{
    if ls.len() == 0 {
        Seq::empty()
    } else {
        ls[0] + seq!['\n'] + joined_lines(ls.drop_first())
    }
}

/// The blocking commands' result: the subprocess's stdout on success, its
/// stderr as the error otherwise.
pub fn relay_output(success: bool, stdout: String, stderr: String) -> (r: Result<String, String>)
    ensures
        success ==> r == Result::<String, String>::Ok(stdout),
        !success ==> r == Result::<String, String>::Err(stderr),
{
    if success {
        Ok(stdout)
    } else {
        Err(stderr)
    }
}

/// The payload of the completion event of the threaded command without
/// progress streaming: stdout on success, stderr otherwise, both surfaced
/// over the same event.
pub fn event_payload(success: bool, stdout: String, stderr: String) -> (r: String)
    ensures
        success ==> r == stdout,
        !success ==> r == stderr,
{
    if success {
        stdout
    } else {
        stderr
    }
}

/// The chunk command's result: on success whatever the stdout decode gave
/// (the text, or the decode failure as the error), on failure the stderr
/// text as the error.
pub fn chunk_outcome(success: bool, decoded: Result<String, String>, stderr: String) -> (r: Result<
    String,
    String,
>)
    ensures
        success ==> r == decoded,
        !success ==> r == Result::<String, String>::Err(stderr),
{
    if success {
        decoded
    } else {
        Err(stderr)
    }
}

/// The error reported when the interpreter path does not exist.
pub fn missing_python_error(path: &str) -> (r: String)
    ensures
        r@ == "Python executable not found at "@ + path@,
{
    let mut r = String::from_str("Python executable not found at ");
    r.append(path);
    r
}

/// The error event payload when the subprocess could not be spawned.
pub fn spawn_error_message(detail: &str) -> (r: String)
    ensures
        r@ == "Failed to spawn Python process: "@ + detail@,
{
    let mut r = String::from_str("Failed to spawn Python process: ");
    r.append(detail);
    r
}

/// The error event payload when the transcript file could not be read.
pub fn read_json_error_message(detail: &str) -> (r: String)
    ensures
        r@ == "Failed to read JSON file: "@ + detail@,
{
    let mut r = String::from_str("Failed to read JSON file: ");
    r.append(detail);
    r
}

/// The error event payload when the subprocess exited with failure.
pub fn process_failed_message(detail: &str) -> (r: String)
    ensures
        r@ == "Python process failed: "@ + detail@,
{
    let mut r = String::from_str("Python process failed: ");
    r.append(detail);
    r
}

/// The error returned when the worker thread panicked; the detail is the
/// panic payload's debug text.
pub fn thread_panic_message(detail: &str) -> (r: String)
    ensures
        r@ == "Thread panicked: "@ + detail@,
{
    let mut r = String::from_str("Thread panicked: ");
    r.append(detail);
    r
}

/// The stand-in error detail when the subprocess's stderr was not captured.
pub fn no_error_details() -> (r: String)
    ensures
        r@ == "No error details available"@,
{
    String::from_str("No error details available")
}

/// The path of the transcript file inside a project directory.
pub fn transcript_json_path(project_dir: &str) -> (r: String)
    ensures
        r@ == project_dir@ + "/transcript.json"@,
{
    let mut r = String::new();
    r.append(project_dir);
    r.append("/transcript.json");
    proof {
        assert(r@ =~= project_dir@ + "/transcript.json"@);
    }
    r
}

/// The accumulated stderr text of a failed subprocess: every captured line,
/// each followed by a newline.
pub fn collect_error_output(lines: &Vec<String>) -> (r: String)
    ensures
        r@ == joined_lines(lines.deep_view()),
{
    let ghost ls = lines.deep_view();
    let mut r = String::new();
    let mut i: usize = 0;
    proof {
        assert(ls.subrange(0, ls.len() as int) =~= ls);
        assert(r@ + joined_lines(ls) =~= joined_lines(ls));
    }
    while i < lines.len()
        invariant
            ls == lines.deep_view(),
            ls.len() == lines.len(),
            i <= lines.len(),
            joined_lines(ls) == r@ + joined_lines(ls.subrange(i as int, ls.len() as int)),
        decreases lines.len() - i,
    {
        let ghost tail = ls.subrange(i as int, ls.len() as int);
        proof {
            reveal_strlit("\n");
            assert("\n"@ =~= seq!['\n']);
            assert(tail[0] == ls[i as int]);
            assert(tail.drop_first() =~= ls.subrange(i + 1, ls.len() as int));
            assert((r@ + tail[0] + seq!['\n']) + joined_lines(tail.drop_first()) =~= r@ + (tail[0]
                + seq!['\n'] + joined_lines(tail.drop_first())));
        }
        r.append(lines[i].as_str());
        r.append("\n");
        i = i + 1;
    }
    proof {
        assert(ls.subrange(ls.len() as int, ls.len() as int) =~= Seq::<Seq<char>>::empty());
        assert(r@ + Seq::<char>::empty() =~= r@);
    }
    r
}

} // verus!
