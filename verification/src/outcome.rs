//! Classification of the final HTTP status of one topic into the lines
//! printed for the operator: one status line, then one actionable message.

use vstd::prelude::*;

use crate::text::{append_decimal, decimal_rep};

verus! {

/// What the final status of one topic means.
#[derive(Clone, Copy, Debug, PartialEq, Eq, Structural)]
pub enum Outcome {
    /// 204: the deletion succeeded.
    Deleted,
    /// 401: credential or permission problem.
    Unauthorized,
    /// 403: the account lacks admin permission.
    Forbidden,
    /// 404: the topic exists in neither form.
    NotFound,
    /// Anything else: unclassified.
    Unclassified,
}

/// The meaning of a final status code.
pub open spec fn classify_spec(status: u16) -> Outcome {
    if status == 204 {
        Outcome::Deleted
    } else if status == 401 {
        Outcome::Unauthorized
    } else if status == 403 {
        Outcome::Forbidden
    } else if status == 404 {
        Outcome::NotFound
    } else {
        Outcome::Unclassified
    }
}

/// Classifies the final status code of one topic.
pub fn classify_status(status: u16) -> (r: Outcome)
    ensures
        r == classify_spec(status),
{
    if status == 204 {
        Outcome::Deleted
    } else if status == 401 {
        Outcome::Unauthorized
    } else if status == 403 {
        Outcome::Forbidden
    } else if status == 404 {
        Outcome::NotFound
    } else {
        Outcome::Unclassified
    }
}

/// The unconditional status line for one topic.
pub open spec fn status_line_spec(status: u16, namespace: Seq<char>, topic: Seq<char>) -> Seq<
    char,
> {
    ("Status: ")@ + decimal_rep(status as nat) + (" ")@ + namespace + (" ")@ + topic
}

/// The actionable message for one topic's final status. The unauthorized
/// guidance depends on how the run authenticated.
pub open spec fn outcome_message_spec(
    status: u16,
    namespace: Seq<char>,
    topic: Seq<char>,
    oauth_mode: bool,
) -> Seq<char> {
    match classify_spec(status) {
        Outcome::Deleted => ("Successfully deleted ")@ + namespace + ("/")@ + topic,
        Outcome::Unauthorized => if oauth_mode {
            (
            "Unauthorized: check your OAuth credentials - client_id, client_secret, and audience - and that your service account has admin permissions.")@
        } else {
            ("Unauthorized: check that your token has admin scope and has not expired.")@
        },
        Outcome::Forbidden => ("Forbidden: Does your service account have admin permissions?")@,
        Outcome::NotFound => ("Not found: Topic was not found.")@,
        Outcome::Unclassified => (
        "Unexpected status code - please ask for help so we can document this error")@,
    }
}

/// Both lines printed for one topic, status line first.
pub open spec fn report_lines_spec(
    status: u16,
    namespace: Seq<char>,
    topic: Seq<char>,
    oauth_mode: bool,
) -> Seq<Seq<char>> {
    seq![
        status_line_spec(status, namespace, topic),
        outcome_message_spec(status, namespace, topic, oauth_mode),
    ]
}

/// Builds the unconditional status line for one topic.
pub fn status_line(status: u16, namespace: &str, topic: &str) -> (r: String)
    ensures
        r@ == status_line_spec(status, namespace@, topic@),
{
    let mut l = String::from_str("Status: ");
    append_decimal(&mut l, status);
    l.append(" ");
    l.append(namespace);
    l.append(" ");
    l.append(topic);
    proof {
        assert(l@ =~= status_line_spec(status, namespace@, topic@));
    }
    l
}

/// Builds the actionable message for one topic's final status.
pub fn outcome_message(status: u16, namespace: &str, topic: &str, oauth_mode: bool) -> (r: String)
    ensures
        r@ == outcome_message_spec(status, namespace@, topic@, oauth_mode),
{
    match classify_status(status) {
        Outcome::Deleted => {
            let mut m = String::from_str("Successfully deleted ");
            m.append(namespace);
            m.append("/");
            m.append(topic);
            proof {
                assert(m@ =~= outcome_message_spec(status, namespace@, topic@, oauth_mode));
            }
            m
        },
        Outcome::Unauthorized => {
            if oauth_mode {
                String::from_str(
                    "Unauthorized: check your OAuth credentials - client_id, client_secret, and audience - and that your service account has admin permissions.",
                )
            } else {
                String::from_str(
                    "Unauthorized: check that your token has admin scope and has not expired.",
                )
            }
        },
        Outcome::Forbidden => String::from_str(
            "Forbidden: Does your service account have admin permissions?",
        ),
        Outcome::NotFound => String::from_str("Not found: Topic was not found."),
        Outcome::Unclassified => String::from_str(
            "Unexpected status code - please ask for help so we can document this error",
        ),
    }
}

/// Builds both lines printed for one topic, status line first.
pub fn report_lines(status: u16, namespace: &str, topic: &str, oauth_mode: bool) -> (r: Vec<
    String,
>)
    ensures
        r.deep_view() == report_lines_spec(status, namespace@, topic@, oauth_mode),
{
    let mut v: Vec<String> = Vec::new();
    v.push(status_line(status, namespace, topic));
    v.push(outcome_message(status, namespace, topic, oauth_mode));
    proof {
        assert(v.deep_view() =~= report_lines_spec(status, namespace@, topic@, oauth_mode));
    }
    v
}

} // verus!
