use cancelbot::transport::TransportError;
use cancelbot::transport::appveyor_branch_url;
use cancelbot::transport::appveyor_cancel_url;
use cancelbot::transport::appveyor_headers;
use cancelbot::transport::appveyor_history_url;
use cancelbot::transport::check_status;
use cancelbot::transport::travis_build_url;
use cancelbot::transport::travis_builds_url;
use cancelbot::transport::travis_cancel_url;
use cancelbot::transport::travis_headers;

#[test]
fn success_statuses_pass_the_body_through() {
    let body = b"{\"builds\":[]}".to_vec();
    assert_eq!(check_status(200, body.clone()), Ok(body.clone()));
    assert_eq!(check_status(204, Vec::new()), Ok(Vec::new()));
}

#[test]
fn forbidden_status_becomes_typed_error() {
    // An HTTP 403 from a provider keeps its code and body for diagnosis.
    let body = b"access denied".to_vec();
    assert_eq!(
        check_status(403, body.clone()),
        Err(TransportError::UnexpectedStatus { code: 403, body })
    );
}

#[test]
fn server_error_status_becomes_typed_error() {
    assert_eq!(
        check_status(500, Vec::new()),
        Err(TransportError::UnexpectedStatus { code: 500, body: Vec::new() })
    );
}

#[test]
fn travis_requests_carry_token_authorization() {
    let headers = travis_headers(&String::from("SECRET-REDACTED"));
    assert_eq!(
        headers,
        vec![
            String::from("User-Agent: hello!"),
            String::from("Authorization: token SECRET-REDACTED"),
            String::from("Accept: application/vnd.travis-ci.2+json"),
        ]
    );
}

#[test]
fn appveyor_requests_carry_bearer_authorization() {
    let headers = appveyor_headers(&String::from("SECRET-REDACTED"));
    assert_eq!(
        headers,
        vec![
            String::from("User-Agent: hello!"),
            String::from("Authorization: Bearer SECRET-REDACTED"),
            String::from("Accept: application/json"),
        ]
    );
}

#[test]
fn travis_urls_are_exact() {
    assert_eq!(
        travis_builds_url(&String::from("rust-lang"), &String::from("cargo")),
        "https://api.travis-ci.org/repos/rust-lang/cargo/builds"
    );
    assert_eq!(travis_build_url(12345), "https://api.travis-ci.org/builds/12345");
    assert_eq!(travis_cancel_url(12345), "https://api.travis-ci.org/builds/12345/cancel");
}

#[test]
fn appveyor_urls_are_exact() {
    let account = String::from("rust-lang-libs");
    let name = String::from("cargo");
    let branch = String::from("auto-cargo");
    assert_eq!(
        appveyor_history_url(&account, &name, &branch),
        "https://ci.appveyor.com/api/projects/rust-lang-libs/cargo/history?recordsNumber=10&branch=auto-cargo"
    );
    assert_eq!(
        appveyor_branch_url(&account, &name, &branch),
        "https://ci.appveyor.com/api/projects/rust-lang-libs/cargo/branch/auto-cargo"
    );
    assert_eq!(
        appveyor_cancel_url(&account, &name, &String::from("1.0.2552")),
        "https://ci.appveyor.com/api/builds/rust-lang-libs/cargo/1.0.2552"
    );
}
