use script_bridge::bridge::{
    capture_session, check_session_file, fetch_student_info, launch_error, prepare, script_error,
    Launch, ProcessOutput,
};

fn exited(success: bool, stdout: &str, stderr: &str) -> Launch {
    Launch::Exited(ProcessOutput {
        success,
        stdout: stdout.as_bytes().to_vec(),
        stderr: stderr.as_bytes().to_vec(),
    })
}

#[test]
fn missing_script_gives_no_invocation() {
    let r = prepare("/no/such/script.py", "session.json", false);
    assert_eq!(r.err(), Some("Python script not found at: /no/such/script.py".to_string()));
}

#[test]
fn existing_script_runs_interpreter_with_both_paths() {
    let inv = prepare("tools/info.py", "data/session.json", true).ok().unwrap();
    assert_eq!(inv.program, "python");
    assert_eq!(inv.args, vec!["tools/info.py".to_string(), "data/session.json".to_string()]);
}

#[test]
fn structured_info_decodes_json_output() {
    let v = fetch_student_info(&exited(true, "{\"a\":1}", "")).unwrap();
    let mut m = serde_json::Map::new();
    m.insert("a".to_string(), serde_json::Value::from(1));
    assert_eq!(v, serde_json::Value::Object(m));
}

#[test]
fn structured_info_rejects_plain_text() {
    let r = fetch_student_info(&exited(true, "hello", ""));
    assert_eq!(r.err(), Some("Failed to parse student info as JSON".to_string()));
}

#[test]
fn structured_info_rejects_empty_output() {
    let r = fetch_student_info(&exited(true, "", ""));
    assert_eq!(r.err(), Some("Failed to parse student info as JSON".to_string()));
}

#[test]
fn failed_run_reports_stderr_in_both_commands() {
    let a = fetch_student_info(&exited(false, "", "boom")).err().unwrap();
    let b = capture_session(&exited(false, "ignored", "boom")).err().unwrap();
    assert!(a.contains("boom"));
    assert_eq!(a, "Python script error: boom");
    assert_eq!(b, "Python script error: boom");
}

#[test]
fn failed_run_without_stderr_uses_fallback() {
    let a = fetch_student_info(&exited(false, "{\"a\":1}", "")).err().unwrap();
    let b = capture_session(&exited(false, "", "")).err().unwrap();
    assert!(a.contains("Unknown error"));
    assert_eq!(a, "Python script error: Unknown error");
    assert_eq!(b, "Python script error: Unknown error");
}

#[test]
fn capture_with_empty_output_gives_fixed_phrase() {
    let r = capture_session(&exited(true, "", ""));
    assert_eq!(r, Ok("Session captured successfully!".to_string()));
}

#[test]
fn capture_returns_output_verbatim() {
    assert_eq!(capture_session(&exited(true, "done", "")), Ok("done".to_string()));
    assert_eq!(capture_session(&exited(true, " two\nlines\n", "warn")), Ok(" two\nlines\n".to_string()));
}

#[test]
fn invalid_utf8_is_replaced() {
    let launch = Launch::Exited(ProcessOutput { success: true, stdout: vec![0x66, 0xff], stderr: vec![] });
    assert_eq!(capture_session(&launch), Ok("f\u{FFFD}".to_string()));
    assert_eq!(script_error(&vec![0xff]), "Python script error: \u{FFFD}");
}

#[test]
fn launch_failure_wraps_system_reason() {
    let reason = "No such file or directory (os error 2)";
    let expected = format!("Failed to execute Python script: {}", reason);
    assert_eq!(launch_error(reason), expected);
    assert_eq!(fetch_student_info(&Launch::Failed(reason.to_string())).err(), Some(expected.clone()));
    assert_eq!(capture_session(&Launch::Failed(reason.to_string())).err(), Some(expected));
}

#[test]
fn existence_check_never_fails() {
    assert_eq!(check_session_file(&Ok::<u64, String>(7)), Ok(true));
    assert_eq!(check_session_file(&Err::<u64, String>("permission denied".to_string())), Ok(false));
}

#[test]
fn independent_runs_keep_their_own_results() {
    let first = exited(true, "first", "");
    let second = exited(true, "second", "");
    let b = capture_session(&second);
    let a = capture_session(&first);
    assert_eq!(a, Ok("first".to_string()));
    assert_eq!(b, Ok("second".to_string()));
    let p = prepare("a.py", "a.json", true).ok().unwrap();
    let q = prepare("b.py", "b.json", true).ok().unwrap();
    assert_eq!(p.args[1], "a.json");
    assert_eq!(q.args[1], "b.json");
}
