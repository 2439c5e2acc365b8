use chukka_obs::config::Config;
use chukka_obs::server::{
    asset_file_path, bootstrap_answer, bootstrap_request_url, token_url_answer, credential_source, credentials_from_bootstrap,
    credentials_from_token_url, embedded_response, FetchError, is_valid_code, ConnectError, ConnectRequest, CredentialSource, Credentials,
};

fn req(code: Option<&str>, url: Option<&str>, match_id: Option<&str>, token: Option<&str>) -> ConnectRequest {
    ConnectRequest {
        code: code.map(|s| s.to_string()),
        url: url.map(|s| s.to_string()),
        match_id: match_id.map(|s| s.to_string()),
        obs_token: token.map(|s| s.to_string()),
    }
}

#[test]
fn short_codes() {
    assert!(is_valid_code("AB12cd"));
    assert!(is_valid_code("000000"));
    assert!(!is_valid_code("AB12c"));
    assert!(!is_valid_code("AB12cde"));
    assert!(!is_valid_code("AB-2cd"));
    assert!(!is_valid_code("ÄB12cd"));
    assert!(!is_valid_code("ééé"));
    assert!(!is_valid_code(""));
}

#[test]
fn code_takes_precedence() {
    match credential_source(req(Some("XYZ789"), Some("http://x"), Some("m"), Some("t"))) {
        Ok(CredentialSource::Code { code }) => assert_eq!(code, "XYZ789"),
        other => panic!("unexpected {other:?}"),
    }
    match credential_source(req(Some("bad"), Some("http://x"), Some("m"), Some("t"))) {
        Err(e) => {
            assert_eq!(e, ConnectError::InvalidCode);
            assert_eq!(e.message(), "Code must be exactly 6 alphanumeric characters");
        },
        other => panic!("unexpected {other:?}"),
    }
}

#[test]
fn direct_credentials_then_url() {
    match credential_source(req(None, Some("http://x"), Some("m"), Some("t"))) {
        Ok(CredentialSource::Direct { match_id, obs_token }) => {
            assert_eq!(match_id, "m");
            assert_eq!(obs_token, "t");
        },
        other => panic!("unexpected {other:?}"),
    }
    match credential_source(req(None, Some("http://x"), Some("m"), None)) {
        Ok(CredentialSource::TokenUrl { url }) => assert_eq!(url, "http://x"),
        other => panic!("unexpected {other:?}"),
    }
    match credential_source(req(None, None, None, Some("t"))) {
        Err(e) => {
            assert_eq!(e, ConnectError::MissingCredentials);
            assert_eq!(e.message(), "provide code, url, or match_id + obs_token");
        },
        other => panic!("unexpected {other:?}"),
    }
}

#[test]
fn applying_credentials() {
    let mut c = Config::default();
    c.obs_code = Some("OLD111".to_string());
    c.apply_credentials(Credentials::Token { match_id: "m7".to_string(), obs_token: "tk".to_string() });
    assert_eq!(c.match_id.as_deref(), Some("m7"));
    assert_eq!(c.obs_token.as_deref(), Some("tk"));
    assert!(c.obs_code.is_none());
    assert!(c.is_configured());
    c.apply_credentials(Credentials::Code { match_id: "m8".to_string(), code: "ABC123".to_string() });
    assert_eq!(c.match_id.as_deref(), Some("m8"));
    assert_eq!(c.obs_code.as_deref(), Some("ABC123"));
    assert!(c.obs_token.is_none());
    assert!(!c.is_configured());
    assert_eq!(c.port, 4747);
}

#[test]
fn embedded_files_are_served_with_their_type() {
    let r = embedded_response("dock.html", Some(b"<html></html>".to_vec()));
    assert_eq!(r.status, 200);
    assert_eq!(r.content_type.as_deref(), Some("text/html"));
    assert_eq!(r.body, b"<html></html>".to_vec());
    let r = embedded_response("favicon-32.png", Some(vec![1, 2, 3]));
    assert_eq!(r.content_type.as_deref(), Some("image/png"));
    let r = embedded_response("assets/blob", Some(vec![]));
    assert_eq!(r.content_type.as_deref(), Some("application/octet-stream"));
    let r = embedded_response("missing.css", None);
    assert_eq!(r.status, 404);
    assert!(r.content_type.is_none());
    assert!(r.body.is_empty());
    assert_eq!(asset_file_path("app.js"), "assets/app.js");
}

#[test]
fn bootstrap_url_appends_code_as_segment() {
    assert_eq!(
        bootstrap_request_url("https://chukka.app/api", "ABC123").unwrap(),
        "https://chukka.app/api/obs/bootstrap/ABC123"
    );
    assert_eq!(
        bootstrap_request_url("http://localhost:8080", "x9Y8z7").unwrap(),
        "http://localhost:8080/obs/bootstrap/x9Y8z7"
    );
    // A code cannot escape its path segment.
    assert_eq!(
        bootstrap_request_url("https://chukka.app/api", "a/b?c").unwrap(),
        "https://chukka.app/api/obs/bootstrap/a%2Fb%3Fc"
    );
    let e = bootstrap_request_url("mailto:someone@example.org", "ABC123").unwrap_err();
    assert_eq!(e, FetchError::ApiUrlCannotBeABase);
    assert_eq!(e.message(), "invalid cloud_api_url");
    let e = bootstrap_request_url("not a url", "ABC123").unwrap_err();
    assert_eq!(e.message(), "invalid cloud_api_url: relative URL without a base");
}

#[test]
fn bootstrap_answers() {
    match credentials_from_bootstrap("ABC123".to_string(), true, Some("m1".to_string())) {
        Ok(Credentials::Code { match_id, code }) => {
            assert_eq!(match_id, "m1");
            assert_eq!(code, "ABC123");
        },
        other => panic!("unexpected {other:?}"),
    }
    let e = credentials_from_bootstrap("ABC123".to_string(), false, Some("m1".to_string())).unwrap_err();
    assert_eq!(e, FetchError::InvalidOrExpiredCode);
    assert_eq!(e.message(), "Invalid or expired code");
    let e = credentials_from_bootstrap("ABC123".to_string(), true, None).unwrap_err();
    assert_eq!(e.message(), "missing match.id in bootstrap response");
}

#[test]
fn token_url_answers() {
    match credentials_from_token_url(true, "200 OK".to_string(), Some("m".to_string()), Some("t".to_string())) {
        Ok(Credentials::Token { match_id, obs_token }) => {
            assert_eq!(match_id, "m");
            assert_eq!(obs_token, "t");
        },
        other => panic!("unexpected {other:?}"),
    }
    let e = credentials_from_token_url(false, "404 Not Found".to_string(), None, None).unwrap_err();
    assert_eq!(e.message(), "token URL returned status 404 Not Found");
    let e = credentials_from_token_url(true, "200 OK".to_string(), None, Some("t".to_string())).unwrap_err();
    assert_eq!(e.message(), "missing match_id in token URL response");
    let e = credentials_from_token_url(true, "200 OK".to_string(), Some("m".to_string()), None).unwrap_err();
    assert_eq!(e.message(), "missing obs_token in token URL response");
}

#[test]
fn bootstrap_answer_bodies() {
    let body = br#"{"match":{"id":"m42","name":"x"}}"#;
    match bootstrap_answer("ABC123".to_string(), true, body) {
        Ok(Credentials::Code { match_id, code }) => {
            assert_eq!(match_id, "m42");
            assert_eq!(code, "ABC123");
        },
        other => panic!("unexpected {other:?}"),
    }
    let e = bootstrap_answer("ABC123".to_string(), false, body).unwrap_err();
    assert_eq!(e, FetchError::InvalidOrExpiredCode);
    let e = bootstrap_answer("ABC123".to_string(), true, br#"{"match":{"id":7}}"#).unwrap_err();
    assert_eq!(e, FetchError::MissingBootstrapMatchId);
    let e = bootstrap_answer("ABC123".to_string(), true, br#"{"match":[1]}"#).unwrap_err();
    assert_eq!(e, FetchError::MissingBootstrapMatchId);
    let e = bootstrap_answer("ABC123".to_string(), true, b"<html>").unwrap_err();
    assert_eq!(e, FetchError::BodyDecode);
    assert_eq!(e.message(), "error decoding response body");
}

#[test]
fn token_url_answer_bodies() {
    let body = br#"{"match_id":"m1","obs_token":"tok"}"#;
    match token_url_answer(true, "200 OK".to_string(), body) {
        Ok(Credentials::Token { match_id, obs_token }) => {
            assert_eq!(match_id, "m1");
            assert_eq!(obs_token, "tok");
        },
        other => panic!("unexpected {other:?}"),
    }
    let e = token_url_answer(false, "403 Forbidden".to_string(), b"").unwrap_err();
    assert_eq!(e.message(), "token URL returned status 403 Forbidden");
    let e = token_url_answer(true, "200 OK".to_string(), br#"{"obs_token":"t"}"#).unwrap_err();
    assert_eq!(e, FetchError::MissingTokenUrlMatchId);
    let e = token_url_answer(true, "200 OK".to_string(), br#"{"match_id":"m"}"#).unwrap_err();
    assert_eq!(e, FetchError::MissingTokenUrlToken);
    let e = token_url_answer(true, "200 OK".to_string(), b"nope").unwrap_err();
    assert_eq!(e, FetchError::BodyDecode);
}
