use pulsar_topic_delete::auth::resolve_oauth_outcome;
use pulsar_topic_delete::outcome::{classify_status, outcome_message, status_line, Outcome};
use pulsar_topic_delete::routes::{non_partitioned_delete_uri, partitioned_delete_uri};
use pulsar_topic_delete::session::Session;

fn sample_session(topics: &[&str]) -> Session {
    Session::new(
        String::from("x.com"),
        String::from("t1"),
        String::from("ns1"),
        topics.iter().map(|t| String::from(*t)).collect(),
        false,
        "tok",
    )
}

#[test]
fn classify_maps_each_status() {
    assert_eq!(classify_status(204), Outcome::Deleted);
    assert_eq!(classify_status(401), Outcome::Unauthorized);
    assert_eq!(classify_status(403), Outcome::Forbidden);
    assert_eq!(classify_status(404), Outcome::NotFound);
    assert_eq!(classify_status(500), Outcome::Unclassified);
    assert_eq!(classify_status(200), Outcome::Unclassified);
}

#[test]
fn status_line_is_exact() {
    assert_eq!(status_line(204, "ns1", "a"), "Status: 204 ns1 a");
    assert_eq!(status_line(404, "other", "topic-x"), "Status: 404 other topic-x");
}

#[test]
fn outcome_messages_are_exact() {
    assert_eq!(outcome_message(204, "ns1", "a", false), "Successfully deleted ns1/a");
    assert_eq!(
        outcome_message(403, "ns1", "a", false),
        "Forbidden: Does your service account have admin permissions?"
    );
    assert_eq!(outcome_message(404, "ns1", "a", false), "Not found: Topic was not found.");
    assert_eq!(
        outcome_message(500, "ns1", "a", false),
        "Unexpected status code - please ask for help so we can document this error"
    );
}

#[test]
fn unauthorized_guidance_depends_on_auth_mode() {
    let oauth = outcome_message(401, "ns1", "a", true);
    let token = outcome_message(401, "ns1", "a", false);
    assert!(oauth.contains("OAuth credentials"));
    assert!(oauth.contains("client_id"));
    assert!(token.contains("admin scope"));
    assert_ne!(oauth, token);
}

#[test]
fn uri_builders_are_exact() {
    assert_eq!(
        partitioned_delete_uri("x.com", "t1", "ns1", "a"),
        "https://x.com/admin/v2/persistent/t1/ns1/a/partitions?force=true"
    );
    assert_eq!(
        non_partitioned_delete_uri("x.com", "t1", "ns1", "a"),
        "https://x.com/admin/v2/persistent/t1/ns1/a?force=true"
    );
}

#[test]
fn two_topics_in_order_with_bearer_token() {
    let mut s = sample_session(&["a", "b"]);
    assert_eq!(s.auth_header().as_str(), "Bearer tok");

    let first = s.next_request().expect("first topic owes a request");
    assert_eq!(first, "https://x.com/admin/v2/persistent/t1/ns1/a/partitions?force=true");
    let lines = s.on_status(204);
    assert_eq!(lines, vec!["Status: 204 ns1 a", "Successfully deleted ns1/a"]);

    let second = s.next_request().expect("second topic owes a request");
    assert_eq!(second, "https://x.com/admin/v2/persistent/t1/ns1/b/partitions?force=true");
    let lines = s.on_status(204);
    assert_eq!(lines, vec!["Status: 204 ns1 b", "Successfully deleted ns1/b"]);

    assert!(s.done());
    assert!(s.next_request().is_none());
    assert_eq!(s.auth_header().as_str(), "Bearer tok");
}

#[test]
fn not_found_falls_back_to_other_form_and_reports_second_status() {
    let mut s = sample_session(&["a"]);
    let first = s.next_request().unwrap();
    assert_eq!(first, "https://x.com/admin/v2/persistent/t1/ns1/a/partitions?force=true");

    let lines = s.on_status(404);
    assert!(lines.is_empty(), "no report while falling back");

    let retry = s.next_request().expect("fallback owes a second request");
    assert_eq!(retry, "https://x.com/admin/v2/persistent/t1/ns1/a?force=true");
    assert_ne!(retry, first, "the fallback targets the other URI form");

    let lines = s.on_status(204);
    assert_eq!(
        lines,
        vec!["Status: 204 ns1 a", "Successfully deleted ns1/a"],
        "the report reflects the second attempt"
    );
    assert!(s.done());
}

#[test]
fn no_content_first_answer_skips_second_attempt() {
    let mut s = sample_session(&["a", "b"]);
    let _ = s.next_request().unwrap();
    let _ = s.on_status(204);
    let next = s.next_request().unwrap();
    assert!(
        next.contains("/ns1/b/"),
        "after 204 the next request already belongs to the next topic"
    );
}

#[test]
fn empty_topic_list_owes_no_request() {
    let s = sample_session(&[]);
    assert!(s.done());
    assert!(s.next_request().is_none());
}

#[test]
fn not_found_on_both_forms_reports_not_found() {
    let mut s = sample_session(&["a"]);
    let _ = s.next_request().unwrap();
    assert!(s.on_status(404).is_empty());
    let _ = s.next_request().unwrap();
    let lines = s.on_status(404);
    assert_eq!(lines, vec!["Status: 404 ns1 a", "Not found: Topic was not found."]);
    assert!(s.done());
}

#[test]
fn unauthorized_is_reported_and_loop_continues() {
    let mut s = sample_session(&["a", "b"]);
    let _ = s.next_request().unwrap();
    let lines = s.on_status(401);
    assert_eq!(lines[0], "Status: 401 ns1 a");
    assert!(lines[1].contains("Unauthorized"));
    assert!(!s.done(), "a 401 does not stop the run");
    let next = s.next_request().expect("the loop continues with the next topic");
    assert!(next.contains("/ns1/b/"));
}

#[test]
fn mocked_oauth_token_reaches_every_deletion_header() {
    let token = resolve_oauth_outcome(200, Some(String::from("abc"))).unwrap();
    let mut s = Session::new(
        String::from("x.com"),
        String::from("t1"),
        String::from("ns1"),
        vec![String::from("a"), String::from("b")],
        true,
        token.as_str(),
    );
    assert_eq!(s.auth_header().as_str(), "Bearer abc");
    let _ = s.next_request().unwrap();
    let _ = s.on_status(204);
    assert_eq!(s.auth_header().as_str(), "Bearer abc", "the header never changes mid-run");
}
