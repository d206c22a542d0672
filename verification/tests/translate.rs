use curl_effector::outcome::translate_outcome;
use curl_effector::outcome::RawOutcome;

fn args() -> Vec<String> {
    vec!["http://h/".to_string(), "-X".to_string(), "GET".to_string()]
}

fn success_outcome(stdout: &[u8]) -> RawOutcome {
    RawOutcome {
        ret_code: 0,
        error: String::new(),
        stdout: stdout.to_vec(),
        stderr: Vec::new(),
    }
}

#[test]
fn success_payload_is_trimmed_stdout() {
    let r = translate_outcome(success_outcome(b"  {\"a\": \"b\"}\n"), &args());
    assert!(r.success);
    assert_eq!(r.payload, "{\"a\": \"b\"}");
    assert_eq!(r.error, "");
}

#[test]
fn success_with_empty_stdout() {
    let r = translate_outcome(success_outcome(b""), &args());
    assert!(r.success);
    assert_eq!(r.payload, "");
    assert_eq!(r.error, "");
}

#[test]
fn success_with_all_blank_stdout() {
    let r = translate_outcome(success_outcome(b" \t\r\n"), &args());
    assert!(r.success);
    assert_eq!(r.payload, "");
    assert_eq!(r.error, "");
}

#[test]
fn non_utf8_stdout_fails() {
    let r = translate_outcome(success_outcome(&[0xff, 0xfe, 0x01]), &args());
    assert!(!r.success);
    assert_eq!(r.payload, "");
    assert_eq!(r.error, "stdout or stderr contains non valid UTF8 string");
}

#[test]
fn non_utf8_stderr_fails() {
    let outcome = RawOutcome {
        ret_code: 7,
        error: "spawn failed".to_string(),
        stdout: Vec::new(),
        stderr: vec![0xc3, 0x28],
    };
    let r = translate_outcome(outcome, &args());
    assert!(!r.success);
    assert_eq!(r.payload, "");
    assert_eq!(r.error, "stdout or stderr contains non valid UTF8 string");
}

#[test]
fn process_failure_reports_args_and_tool_text() {
    let outcome = RawOutcome {
        ret_code: 7,
        error: "host error".to_string(),
        stdout: Vec::new(),
        stderr: b"curl: (7) refused".to_vec(),
    };
    let r = translate_outcome(outcome, &args());
    assert!(!r.success);
    assert_eq!(r.payload, "");
    assert_eq!(
        r.error,
        "curl cli call failed\nhttp://h/ -X GET: error: host error, stderr: curl: (7) refused"
    );
}

#[test]
fn translation_is_deterministic() {
    let make = || RawOutcome {
        ret_code: 0,
        error: String::new(),
        stdout: b"stable body\n".to_vec(),
        stderr: Vec::new(),
    };
    let first = translate_outcome(make(), &args());
    let second = translate_outcome(make(), &args());
    assert_eq!(first.success, second.success);
    assert_eq!(first.payload, second.payload);
    assert_eq!(first.error, second.error);
}
