//! End-to-end scenarios against a scripted runner outcome: the same flow the
//! hosting shell drives, with the external tool's reply played back.

use curl_effector::api::prepare_get;
use curl_effector::api::prepare_post;
use curl_effector::outcome::translate_outcome;
use curl_effector::outcome::RawOutcome;
use curl_effector::CurlRequest;
use curl_effector::HttpHeader;

const ROOT: &str = "/tmp/vault/test_id-token";

fn json_request() -> CurlRequest {
    CurlRequest {
        url: "http://localhost:8080/".to_string(),
        headers: vec![HttpHeader {
            name: "content-type".to_string(),
            value: "application/json".to_string(),
        }],
    }
}

fn server_reply(body: &str) -> RawOutcome {
    RawOutcome {
        ret_code: 0,
        error: String::new(),
        stdout: body.as_bytes().to_vec(),
        stderr: Vec::new(),
    }
}

#[test]
fn post_scenario_returns_server_body() {
    let args = prepare_post(&json_request(), "input.json", "output.json", ROOT).unwrap();
    let r = translate_outcome(server_reply("{\"a\": \"b\"}"), &args);
    assert!(r.success);
    assert_eq!(r.payload, "{\"a\": \"b\"}");
    assert_eq!(r.error, "");
}

#[test]
fn get_scenario_returns_server_body() {
    let args = prepare_get(&json_request(), "output.json", ROOT).unwrap();
    let r = translate_outcome(server_reply("{\"a\": \"b\"}"), &args);
    assert!(r.success);
    assert_eq!(r.payload, "{\"a\": \"b\"}");
    assert_eq!(r.error, "");
}

#[test]
fn round_trip_post_then_get() {
    let body = "{\"a\": \"b\"}";
    let post_args = prepare_post(&json_request(), "input.json", "output.json", ROOT).unwrap();
    let post_result = translate_outcome(server_reply(body), &post_args);
    let get_args = prepare_get(&json_request(), "output.json", ROOT).unwrap();
    let get_result = translate_outcome(server_reply(body), &get_args);
    assert!(post_result.success);
    assert!(get_result.success);
    assert_eq!(post_result.payload, body);
    assert_eq!(get_result.payload, body);
    assert_eq!(post_result.payload, get_result.payload);
}

#[test]
fn repeated_call_gives_identical_output() {
    let args = prepare_get(&json_request(), "output.json", ROOT).unwrap();
    let first = translate_outcome(server_reply("stable"), &args);
    let second = translate_outcome(server_reply("stable"), &args);
    assert!(first.success && second.success);
    assert_eq!(first.payload, second.payload);
    assert_eq!(first.payload, "stable");
}
