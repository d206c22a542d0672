use curl_effector::api::prepare_get;
use curl_effector::api::prepare_post;
use curl_effector::api::validation_failure;
use curl_effector::url_check::validate_url;
use curl_effector::vault::resolve_vault_path;
use curl_effector::CurlRequest;
use curl_effector::HttpHeader;
use curl_effector::ValidationError;

const ROOT: &str = "/tmp/vault/test_id-token";

fn request(url: &str) -> CurlRequest {
    CurlRequest {
        url: url.to_string(),
        headers: vec![HttpHeader {
            name: "content-type".to_string(),
            value: "application/json".to_string(),
        }],
    }
}

#[test]
fn http_url_accepted() {
    let r = validate_url("http://localhost:8080/").unwrap();
    assert_eq!(r, "http://localhost:8080/");
}

#[test]
fn https_url_accepted() {
    let r = validate_url("https://example.com/a").unwrap();
    assert_eq!(r, "https://example.com/a");
}

#[test]
fn file_url_rejected() {
    let r = validate_url("file:///etc/passwd");
    assert_eq!(r, Err(ValidationError::InvalidUrl));
}

#[test]
fn ftp_url_rejected() {
    let r = validate_url("ftp://example.com/a");
    assert_eq!(r, Err(ValidationError::InvalidUrl));
}

#[test]
fn bare_scheme_rejected() {
    assert_eq!(validate_url("http://"), Err(ValidationError::InvalidUrl));
    assert_eq!(validate_url("https://"), Err(ValidationError::InvalidUrl));
    assert_eq!(validate_url(""), Err(ValidationError::InvalidUrl));
}

#[test]
fn file_url_get_short_circuits() {
    let r = prepare_get(&request("file:///etc/passwd"), "output.json", ROOT);
    assert_eq!(r, Err(ValidationError::InvalidUrl));
}

#[test]
fn file_url_post_short_circuits() {
    let r = prepare_post(
        &request("file:///etc/passwd"),
        "input.json",
        "output.json",
        ROOT,
    );
    assert_eq!(r, Err(ValidationError::InvalidUrl));
}

#[test]
fn bare_name_joined_onto_root() {
    let r = resolve_vault_path("output.json", ROOT).unwrap();
    assert_eq!(r, "/tmp/vault/test_id-token/output.json");
}

#[test]
fn rooted_path_accepted_as_is() {
    let r = resolve_vault_path("/tmp/vault/test_id-token/output2.json", ROOT).unwrap();
    assert_eq!(r, "/tmp/vault/test_id-token/output2.json");
}

#[test]
fn traversal_rejected() {
    let r = resolve_vault_path("../outside.json", ROOT);
    assert_eq!(r, Err(ValidationError::PathEscapesSandbox));
}

#[test]
fn inner_traversal_rejected() {
    let r = resolve_vault_path("a/../../outside.json", ROOT);
    assert_eq!(r, Err(ValidationError::PathEscapesSandbox));
}

#[test]
fn rooted_traversal_rejected() {
    let r = resolve_vault_path("/tmp/vault/test_id-token/../other/secrets.json", ROOT);
    assert_eq!(r, Err(ValidationError::PathEscapesSandbox));
}

#[test]
fn dots_inside_names_accepted() {
    let r = resolve_vault_path("archive..v2.json", ROOT).unwrap();
    assert_eq!(r, "/tmp/vault/test_id-token/archive..v2.json");
}

#[test]
fn traversal_in_output_short_circuits_get() {
    let r = prepare_get(&request("http://localhost:8080/"), "../escape.json", ROOT);
    assert_eq!(r, Err(ValidationError::PathEscapesSandbox));
}

#[test]
fn traversal_in_data_short_circuits_post() {
    let r = prepare_post(
        &request("http://localhost:8080/"),
        "../input.json",
        "output.json",
        ROOT,
    );
    assert_eq!(r, Err(ValidationError::PathEscapesSandbox));
}

#[test]
fn validation_failure_carries_error_text() {
    let r = validation_failure(ValidationError::InvalidUrl);
    assert!(!r.success);
    assert_eq!(r.payload, "");
    assert_eq!(r.error, "url is malformed or its scheme is not http or https");

    let r = validation_failure(ValidationError::PathEscapesSandbox);
    assert!(!r.success);
    assert_eq!(r.payload, "");
    assert_eq!(r.error, "path escapes the sandbox directory");
}
