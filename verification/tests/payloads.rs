use whisper_relay::greet;
use whisper_relay::launch::chunk_invocation;
use whisper_relay::launch::project_invocation;
use whisper_relay::launch::proto_invocation;
use whisper_relay::launch::proto_python_path;
use whisper_relay::launch::script_invocation;
use whisper_relay::launch::script_stdin_payload;
use whisper_relay::launch::venv_python_path;
use whisper_relay::relay::chunk_outcome;
use whisper_relay::relay::collect_error_output;
use whisper_relay::relay::event_payload;
use whisper_relay::relay::missing_python_error;
use whisper_relay::relay::no_error_details;
use whisper_relay::relay::process_failed_message;
use whisper_relay::relay::read_json_error_message;
use whisper_relay::relay::relay_output;
use whisper_relay::relay::spawn_error_message;
use whisper_relay::relay::thread_panic_message;
use whisper_relay::relay::transcript_json_path;
use whisper_relay::response::done_response;

#[test]
fn greeting() {
    assert_eq!(greet("World"), "Hello, World! You've been greeted from Rust!");
    assert_eq!(greet(""), "Hello, ! You've been greeted from Rust!");
}

#[test]
fn interpreter_paths() {
    assert_eq!(venv_python_path(true), "../python-env/venv/Scripts/python.exe");
    assert_eq!(venv_python_path(false), "../python-env/venv/bin/python");
    assert_eq!(proto_python_path(true), "python-env\\Scripts\\python.exe");
    assert_eq!(proto_python_path(false), "../python-env/venv/bin/python");
}

#[test]
fn greeting_script_invocation() {
    let inv = script_invocation();
    assert_eq!(inv.program, "python");
    assert_eq!(inv.args, vec!["scripts/script.py".to_string()]);
    assert_eq!(script_stdin_payload("Alice"), "{\"name\":\"Alice\"}");
}

#[test]
fn transcription_invocations() {
    let inv = proto_invocation(
        venv_python_path(false),
        "audio/take1.wav".to_string(),
        "small".to_string(),
    );
    assert_eq!(inv.program, "../python-env/venv/bin/python");
    assert_eq!(
        inv.args,
        vec![
            "scripts/whisper_proto.py".to_string(),
            "audio/take1.wav".to_string(),
            "small".to_string(),
        ]
    );

    let inv = project_invocation(
        venv_python_path(false),
        "audio/take1.wav".to_string(),
        "base".to_string(),
        "public".to_string(),
    );
    assert_eq!(
        inv.args,
        vec![
            "scripts/whisper_proto.py".to_string(),
            "audio/take1.wav".to_string(),
            "base".to_string(),
            "--output-root".to_string(),
            "public".to_string(),
        ]
    );

    let inv = chunk_invocation("QUJD".to_string());
    assert_eq!(inv.program, "python");
    assert_eq!(inv.args, vec!["scripts/whisper.py".to_string(), "QUJD".to_string()]);
}

#[test]
fn stream_choice_on_exit() {
    assert_eq!(
        relay_output(true, "out".to_string(), "err".to_string()),
        Ok("out".to_string())
    );
    assert_eq!(
        relay_output(false, "out".to_string(), "err".to_string()),
        Err("err".to_string())
    );
    assert_eq!(event_payload(true, "out".to_string(), "err".to_string()), "out");
    assert_eq!(event_payload(false, "out".to_string(), "err".to_string()), "err");
}

#[test]
fn chunk_outcomes() {
    assert_eq!(
        chunk_outcome(true, Ok("text".to_string()), "err".to_string()),
        Ok("text".to_string())
    );
    assert_eq!(
        chunk_outcome(true, Err("invalid utf-8".to_string()), "err".to_string()),
        Err("invalid utf-8".to_string())
    );
    assert_eq!(
        chunk_outcome(false, Ok("text".to_string()), "boom".to_string()),
        Err("boom".to_string())
    );
}

#[test]
fn error_messages() {
    assert_eq!(
        missing_python_error("../python-env/venv/bin/python"),
        "Python executable not found at ../python-env/venv/bin/python"
    );
    assert_eq!(
        spawn_error_message("No such file or directory (os error 2)"),
        "Failed to spawn Python process: No such file or directory (os error 2)"
    );
    assert_eq!(
        read_json_error_message("permission denied"),
        "Failed to read JSON file: permission denied"
    );
    assert_eq!(process_failed_message("traceback"), "Python process failed: traceback");
    assert_eq!(thread_panic_message("Any { .. }"), "Thread panicked: Any { .. }");
    assert_eq!(no_error_details(), "No error details available");
}

#[test]
fn stderr_collection() {
    let lines = vec!["first".to_string(), "second".to_string()];
    assert_eq!(collect_error_output(&lines), "first\nsecond\n");
    let empty: Vec<String> = Vec::new();
    assert_eq!(collect_error_output(&empty), "");
}

#[test]
fn transcript_path() {
    assert_eq!(transcript_json_path("public/project_42"), "public/project_42/transcript.json");
}

#[test]
fn done_response_plain() {
    let r = done_response("{\"words\":[]}", "public/p1", "public/p1/transcript.json");
    assert_eq!(
        r,
        "{\"json_file\":\"public/p1/transcript.json\",\"project_dir\":\"public/p1\",\"transcription\":\"{\\\"words\\\":[]}\"}"
    );
}

#[test]
fn done_response_escapes_like_the_serializer() {
    let transcription = "line one\nline two\t\"quoted\" \\ \u{1} done";
    let project_dir = "dir with \"quotes\"";
    let json_file = "dir with \"quotes\"/transcript.json";
    let r = done_response(transcription, project_dir, json_file);
    let v: serde_json::Value = serde_json::from_str(&r).expect("payload parses as JSON");
    assert_eq!(v["transcription"].as_str(), Some(transcription));
    assert_eq!(v["project_dir"].as_str(), Some(project_dir));
    assert_eq!(v["json_file"].as_str(), Some(json_file));
    assert!(r.contains("\\u0001"));
    assert!(r.contains("\\n"));
}
