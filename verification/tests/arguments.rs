use curl_effector::api::prepare_get;
use curl_effector::api::prepare_post;
use curl_effector::CurlRequest;
use curl_effector::HttpHeader;

const ROOT: &str = "/tmp/vault/test_id-token";

fn header(name: &str, value: &str) -> HttpHeader {
    HttpHeader {
        name: name.to_string(),
        value: value.to_string(),
    }
}

const HARDENING: [&str; 5] = ["--connect-timeout", "4", "--no-progress-meter", "--retry", "0"];

#[test]
fn get_args_exact() {
    let req = CurlRequest {
        url: "http://localhost:8080/".to_string(),
        headers: vec![header("content-type", "application/json")],
    };
    let args = prepare_get(&req, "output.json", ROOT).unwrap();
    let expected = vec![
        "http://localhost:8080/",
        "-X",
        "GET",
        "-H",
        "content-type: application/json",
        "-o",
        "/tmp/vault/test_id-token/output.json",
        "--connect-timeout",
        "4",
        "--no-progress-meter",
        "--retry",
        "0",
    ];
    assert_eq!(args, expected);
}

#[test]
fn post_args_exact() {
    let req = CurlRequest {
        url: "http://localhost:8080/".to_string(),
        headers: vec![header("content-type", "application/json")],
    };
    let args = prepare_post(&req, "input.json", "output.json", ROOT).unwrap();
    let expected = vec![
        "http://localhost:8080/",
        "-X",
        "POST",
        "--data",
        "@/tmp/vault/test_id-token/input.json",
        "-o",
        "/tmp/vault/test_id-token/output.json",
        "-H",
        "content-type: application/json",
        "--connect-timeout",
        "4",
        "--no-progress-meter",
        "--retry",
        "0",
    ];
    assert_eq!(args, expected);
}

#[test]
fn hardening_flags_exactly_once_at_the_end() {
    let req = CurlRequest {
        url: "https://example.com/x".to_string(),
        headers: vec![header("a", "1"), header("b", "2")],
    };
    let args = prepare_get(&req, "out.bin", ROOT).unwrap();
    let n = args.len();
    assert_eq!(&args[n - 5..], &HARDENING);
    for flag in HARDENING {
        let count = args.iter().filter(|a| a.as_str() == flag).count();
        assert_eq!(count, 1, "{flag} must appear exactly once");
    }

    let args = prepare_post(&req, "in.bin", "out.bin", ROOT).unwrap();
    let n = args.len();
    assert_eq!(&args[n - 5..], &HARDENING);
    for flag in HARDENING {
        let count = args.iter().filter(|a| a.as_str() == flag).count();
        assert_eq!(count, 1, "{flag} must appear exactly once");
    }
}

#[test]
fn header_order_preserved() {
    let req = CurlRequest {
        url: "http://h/".to_string(),
        headers: vec![
            header("x-first", "1"),
            header("x-second", "2"),
            header("x-first", "3"),
            header("accept", "*/*"),
        ],
    };
    let args = prepare_get(&req, "o", ROOT).unwrap();
    let pairs: Vec<(&str, &str)> = args
        .iter()
        .enumerate()
        .filter(|(_, a)| a.as_str() == "-H")
        .map(|(i, _)| (args[i].as_str(), args[i + 1].as_str()))
        .collect();
    let expected = vec![
        ("-H", "x-first: 1"),
        ("-H", "x-second: 2"),
        ("-H", "x-first: 3"),
        ("-H", "accept: */*"),
    ];
    assert_eq!(pairs, expected);

    let args = prepare_post(&req, "i", "o", ROOT).unwrap();
    let pairs: Vec<(&str, &str)> = args
        .iter()
        .enumerate()
        .filter(|(_, a)| a.as_str() == "-H")
        .map(|(i, _)| (args[i].as_str(), args[i + 1].as_str()))
        .collect();
    assert_eq!(pairs, expected);
}

#[test]
fn no_headers_builds_without_pairs() {
    let req = CurlRequest {
        url: "http://h/".to_string(),
        headers: vec![],
    };
    let args = prepare_get(&req, "o", ROOT).unwrap();
    let expected = vec![
        "http://h/",
        "-X",
        "GET",
        "-o",
        "/tmp/vault/test_id-token/o",
        "--connect-timeout",
        "4",
        "--no-progress-meter",
        "--retry",
        "0",
    ];
    assert_eq!(args, expected);
}

#[test]
fn preparation_is_deterministic() {
    let req = CurlRequest {
        url: "https://example.com/stable".to_string(),
        headers: vec![header("accept", "text/plain")],
    };
    let first = prepare_post(&req, "in.json", "out.json", ROOT).unwrap();
    let second = prepare_post(&req, "in.json", "out.json", ROOT).unwrap();
    assert_eq!(first, second);
}
