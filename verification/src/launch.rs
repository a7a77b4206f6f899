//! Construction of the subprocess invocations that the host shell spawns:
//! the interpreter path for each platform, the script path with its
//! positional arguments, and the payload written to a script's stdin.

use vstd::prelude::*;

verus! {

/// A subprocess invocation: the program to spawn and its argument list, in
/// order.  The host shell spawns it with piped standard streams.
pub struct Invocation {
    pub program: String,
    pub args: Vec<String>,
}

/// The interpreter inside the bundled virtual environment, as the
/// background and threaded commands resolve it for the given platform.
pub fn venv_python_path(windows: bool) -> (r: String)
    ensures
        windows ==> r@ == "../python-env/venv/Scripts/python.exe"@,
        !windows ==> r@ == "../python-env/venv/bin/python"@,
{
    if windows {
        String::from_str("../python-env/venv/Scripts/python.exe")
    } else {
        String::from_str("../python-env/venv/bin/python")
    }
}

/// The interpreter as the blocking transcription command resolves it: on
/// Windows a path beside the application, elsewhere the virtual
/// environment's interpreter.
pub fn proto_python_path(windows: bool) -> (r: String)
    ensures
        windows ==> r@ == "python-env\\Scripts\\python.exe"@,
        !windows ==> r@ == "../python-env/venv/bin/python"@,
{
    if windows {
        String::from_str("python-env\\Scripts\\python.exe")
    } else {
        String::from_str("../python-env/venv/bin/python")
    }
}

/// The invocation of the greeting script, fed its input over stdin.
pub fn script_invocation() -> (r: Invocation)
    ensures
        r.program@ == "python"@,
        r.args@.len() == 1,
        r.args@[0]@ == "scripts/script.py"@,
{
    let mut args: Vec<String> = Vec::new();
    args.push(String::from_str("scripts/script.py"));
    Invocation { program: String::from_str("python"), args }
}

/// The stdin payload handed to the greeting script: a one-field object with
/// the name spliced in verbatim.
pub fn script_stdin_payload(name: &str) -> (r: String)
    ensures
        r@ == "{\"name\":\""@ + name@ + "\"}"@,
{
    let mut r = String::from_str("{\"name\":\"");
    r.append(name);
    r.append("\"}");
    r
}

/// The invocation of the transcription pipeline on an audio file with a
/// chosen model size.
pub fn proto_invocation(python_exe: String, filepath: String, model_size: String) -> (r:
    Invocation)
    ensures
        r.program == python_exe,
        r.args@.len() == 3,
        r.args@[0]@ == "scripts/whisper_proto.py"@,
        r.args@[1] == filepath,
        r.args@[2] == model_size,
{
    let mut args: Vec<String> = Vec::new();
    args.push(String::from_str("scripts/whisper_proto.py"));
    args.push(filepath);
    args.push(model_size);
    Invocation { program: python_exe, args }
}

/// The invocation of the transcription pipeline with project organisation:
/// the same positional arguments followed by the output-root option.
pub fn project_invocation(
    python_exe: String,
    filepath: String,
    model_size: String,
    output_root: String,
) -> (r: Invocation)
    ensures
        r.program == python_exe,
        r.args@.len() == 5,
        r.args@[0]@ == "scripts/whisper_proto.py"@,
        r.args@[1] == filepath,
        r.args@[2] == model_size,
        r.args@[3]@ == "--output-root"@,
        r.args@[4] == output_root,
{
    let mut args: Vec<String> = Vec::new();
    args.push(String::from_str("scripts/whisper_proto.py"));
    args.push(filepath);
    args.push(model_size);
    args.push(String::from_str("--output-root"));
    args.push(output_root);
    Invocation { program: python_exe, args }
}

/// The invocation of the chunk-transcription script on one base64-encoded
/// audio chunk, passed as a positional argument.
pub fn chunk_invocation(audio_data: String) -> (r: Invocation)
    ensures
        r.program@ == "python"@,
        r.args@.len() == 2,
        r.args@[0]@ == "scripts/whisper.py"@,
        r.args@[1] == audio_data,
{
    let mut args: Vec<String> = Vec::new();
    args.push(String::from_str("scripts/whisper.py"));
    args.push(audio_data);
    Invocation { program: String::from_str("python"), args }
}

} // verus!
