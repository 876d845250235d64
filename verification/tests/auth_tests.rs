use pulsar_topic_delete::auth::{
    auth_request_body, bearer_header, literal_token, oauth_token_request, resolve_oauth_outcome,
    AuthError,
};
use pulsar_topic_delete::config::{AuthMethod, OAuth};
use pulsar_topic_delete::text::{decimal_string, escape_json};

fn sample_oauth() -> OAuth {
    OAuth {
        client_id: String::from("id-1"),
        client_secret: String::from("sec-1"),
        client_email: String::from("svc@example.com"),
        issuer_url: String::from("https://issuer.example.com"),
        audience: String::from("urn:aud"),
    }
}

#[test]
fn decimal_renders_exactly() {
    assert_eq!(decimal_string(0), "0");
    assert_eq!(decimal_string(7), "7");
    assert_eq!(decimal_string(204), "204");
    assert_eq!(decimal_string(65535), "65535");
}

#[test]
fn escape_json_leaves_plain_text_alone() {
    assert_eq!(escape_json("plain text 123"), "plain text 123");
    assert_eq!(escape_json(""), "");
}

#[test]
fn escape_json_escapes_specials() {
    assert_eq!(escape_json("a\"b"), "a\\\"b");
    assert_eq!(escape_json("a\\b"), "a\\\\b");
    assert_eq!(escape_json("a\nb\tc\rd"), "a\\nb\\tc\\rd");
    assert_eq!(escape_json("\u{8}\u{c}"), "\\b\\f");
    assert_eq!(escape_json("\u{1}\u{1f}"), "\\u0001\\u001f");
}

#[test]
fn bearer_header_is_prefix_plus_token() {
    assert_eq!(bearer_header("tok"), "Bearer tok");
    assert_eq!(bearer_header(""), "Bearer ");
}

#[test]
fn auth_body_is_exact_json() {
    let body = auth_request_body(&sample_oauth());
    assert_eq!(
        body,
        "{\"type\":\"sn_service_account\",\"client_id\":\"id-1\",\"client_secret\":\"sec-1\",\"client_email\":\"svc@example.com\",\"issuer_url\":\"https://issuer.example.com\",\"grant_type\":\"client_credentials\",\"audience\":\"urn:aud\"}"
    );
}

#[test]
fn auth_body_escapes_fields() {
    let mut o = sample_oauth();
    o.client_secret = String::from("s\"e\\c");
    let body = auth_request_body(&o);
    assert!(body.contains("\"client_secret\":\"s\\\"e\\\\c\""));
}

#[test]
fn literal_token_path_makes_no_oauth_request() {
    let auth = AuthMethod::Token(String::from("tok"));
    assert!(oauth_token_request(&auth).is_none());
    assert_eq!(literal_token(&auth), Some(String::from("tok")));
}

#[test]
fn oauth_path_requests_fixed_endpoint() {
    let auth = AuthMethod::OAuth(sample_oauth());
    assert!(literal_token(&auth).is_none());
    let req = oauth_token_request(&auth).expect("oauth path owes a token request");
    assert_eq!(req.url, "https://auth.streamnative.cloud/oauth/token");
    assert_eq!(req.body, auth_request_body(&sample_oauth()));
}

#[test]
fn oauth_outcome_non_success_status_fails() {
    let r = resolve_oauth_outcome(500, Some(String::from("abc")));
    assert_eq!(r, Err(AuthError::Status(500)));
    let r = resolve_oauth_outcome(404, None);
    assert_eq!(r, Err(AuthError::Status(404)));
}

#[test]
fn oauth_outcome_success_without_token_is_malformed() {
    let r = resolve_oauth_outcome(200, None);
    assert_eq!(r, Err(AuthError::MalformedResponse));
}

#[test]
fn oauth_outcome_success_returns_token_unchanged() {
    let r = resolve_oauth_outcome(200, Some(String::from("abc")));
    assert_eq!(r, Ok(String::from("abc")));
}

#[test]
fn auth_error_messages() {
    assert_eq!(
        AuthError::Status(503).message(),
        "OAuth request failed with status: 503"
    );
    assert_eq!(
        AuthError::MalformedResponse.message(),
        "OAuth response did not contain an access_token"
    );
}
