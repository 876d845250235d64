//! Credential resolution: the literal-token path, the OAuth token request
//! (fixed endpoint and JSON body), the decision on the OAuth response, and
//! the bearer header attached to every admin request.

use vstd::prelude::*;

use crate::config::{AuthMethod, AuthMethodView, OAuth, OAuthView};
use crate::text::{append_decimal, decimal_rep, json_escaped};

verus! {

/// The fixed OAuth token endpoint.
pub open spec fn oauth_url_spec() -> Seq<char> {
    ("https://auth.streamnative.cloud/oauth/token")@
}

/// The JSON body of the client-credentials exchange: a fixed account-type
/// discriminator, the five operator-supplied fields (escaped), and a fixed
/// grant type.
pub open spec fn auth_body_spec(o: OAuthView) -> Seq<char> {
    ("{\"type\":\"sn_service_account\",\"client_id\":\"")@ + json_escaped(o.client_id) + (
    "\",\"client_secret\":\"")@ + json_escaped(o.client_secret) + ("\",\"client_email\":\"")@
        + json_escaped(o.client_email) + ("\",\"issuer_url\":\"")@ + json_escaped(o.issuer_url) + (
    "\",\"grant_type\":\"client_credentials\",\"audience\":\"")@ + json_escaped(o.audience) + (
    "\"}")@
}

/// The value of the `Authorization` header: the fixed prefix, then the token
/// verbatim.
pub open spec fn bearer_of(token: Seq<char>) -> Seq<char> {
    ("Bearer ")@ + token
}

/// The one token request the credential resolver can make: none at all on
/// the literal-token path, exactly the fixed-endpoint POST on the OAuth path.
pub open spec fn token_request_view(auth: AuthMethodView) -> Option<(Seq<char>, Seq<char>)> {
    match auth {
        AuthMethodView::Token(_) => None,
        AuthMethodView::OAuth(o) => Some((oauth_url_spec(), auth_body_spec(o))),
    }
}

/// A POST to the OAuth endpoint, ready to be sent: its URL and its JSON body.
pub struct TokenRequest {
    pub url: String,
    pub body: String,
}

/// Why credential resolution failed.
#[derive(Clone, Copy, Debug, PartialEq, Eq, Structural)]
pub enum AuthError {
    /// The OAuth endpoint answered with a non-success status.
    Status(u16),
    /// The OAuth endpoint answered success but the body held no access token.
    MalformedResponse,
}

/// Builds the JSON body of the client-credentials exchange.
pub fn auth_request_body(o: &OAuth) -> (r: String)
    ensures
        r@ == auth_body_spec(o@),
{
    let mut b = String::from_str("{\"type\":\"sn_service_account\",\"client_id\":\"");
    let client_id = crate::text::escape_json(o.client_id.as_str());
    b.append(client_id.as_str());
    b.append("\",\"client_secret\":\"");
    let client_secret = crate::text::escape_json(o.client_secret.as_str());
    b.append(client_secret.as_str());
    b.append("\",\"client_email\":\"");
    let client_email = crate::text::escape_json(o.client_email.as_str());
    b.append(client_email.as_str());
    b.append("\",\"issuer_url\":\"");
    let issuer_url = crate::text::escape_json(o.issuer_url.as_str());
    b.append(issuer_url.as_str());
    b.append("\",\"grant_type\":\"client_credentials\",\"audience\":\"");
    let audience = crate::text::escape_json(o.audience.as_str());
    b.append(audience.as_str());
    b.append("\"}");
    proof {
        assert(b@ =~= auth_body_spec(o@));
    }
    b
}

/// The token request owed for the configured auth method: none on the
/// literal-token path, the fixed-endpoint POST on the OAuth path.
pub fn oauth_token_request(auth: &AuthMethod) -> (r: Option<TokenRequest>)
    ensures
        r is Some <==> token_request_view(auth@) is Some,
        r matches Some(req) ==> (token_request_view(auth@) matches Some(v) && req.url@ == v.0
            && req.body@ == v.1),
{
    match auth {
        AuthMethod::Token(_) => None,
        AuthMethod::OAuth(o) => Some(
            TokenRequest {
                url: String::from_str("https://auth.streamnative.cloud/oauth/token"),
                body: auth_request_body(o),
            },
        ),
    }
}

/// The literal token, if the configuration supplies one; returned unchanged.
pub fn literal_token(auth: &AuthMethod) -> (r: Option<String>)
    ensures
        r is Some <==> auth@ is Token,
        r matches Some(t) ==> t@ == auth@->Token_0,
{
    match auth {
        AuthMethod::Token(t) => Some(t.clone()),
        AuthMethod::OAuth(_) => None,
    }
}

/// A success status in the HTTP sense.
pub open spec fn is_success_status(status: u16) -> bool {
    200 <= status < 300
}

/// Decides the outcome of the OAuth exchange from the response status and
/// the access token the response body carried, if any: a non-success status
/// fails with that status, a success response without a token fails as
/// malformed, and otherwise the token is returned unchanged.
pub fn resolve_oauth_outcome(status: u16, access_token: Option<String>) -> (r: Result<
    String,
    AuthError,
>)
    ensures
        !is_success_status(status) ==> (r matches Err(e) && e == AuthError::Status(status)),
        is_success_status(status) && access_token is None ==> (r matches Err(e) && e
            == AuthError::MalformedResponse),
        access_token matches Some(t) ==> (is_success_status(status) ==> (r matches Ok(tok) && tok@
            == t@)),
{
    if !(200 <= status && status < 300) {
        Err(AuthError::Status(status))
    } else {
        match access_token {
            Some(t) => Ok(t),
            None => Err(AuthError::MalformedResponse),
        }
    }
}

impl AuthError {
    /// The image of [`AuthError::message`].
    pub open spec fn message_spec(self) -> Seq<char> {
        match self {
            AuthError::Status(s) => ("OAuth request failed with status: ")@ + decimal_rep(s as nat),
            AuthError::MalformedResponse => ("OAuth response did not contain an access_token")@,
        }
    }

    /// The diagnostic line printed when credential resolution fails.
    pub fn message(&self) -> (r: String)
        ensures
            r@ == self.message_spec(),
    {
        match self {
            AuthError::Status(s) => {
                let mut m = String::from_str("OAuth request failed with status: ");
                append_decimal(&mut m, *s);
                m
            },
            AuthError::MalformedResponse => String::from_str(
                "OAuth response did not contain an access_token",
            ),
        }
    }
}

/// Builds the `Authorization` header value for the resolved token.
pub fn bearer_header(token: &str) -> (r: String)
    ensures
        r@ == bearer_of(token@),
{
    let mut h = String::from_str("Bearer ");
    h.append(token);
    h
}

/// Law: if the literal-token path is configured, the credential resolver
/// owes no token request at all — in particular, none to the OAuth endpoint.
pub proof fn lemma_literal_token_no_oauth_request(auth: AuthMethodView)
    requires
        auth is Token,
    ensures
        token_request_view(auth) is None,
{
}

/// Law: if the OAuth path is configured, the credential resolver owes
/// exactly one token request, and it targets the fixed OAuth endpoint with
/// the client-credentials body built from the configured bundle.
pub proof fn lemma_oauth_request_fixed_url(auth: AuthMethodView)
    requires
        auth is OAuth,
    ensures
        token_request_view(auth) matches Some(req) && req.0 == oauth_url_spec() && req.1
            == auth_body_spec(auth->OAuth_0),
{
}

/// Law: the bearer header is the seven-character prefix `Bearer ` followed
/// by the token verbatim, so the resolved token appears unchanged in the
/// `Authorization` header of every admin request that carries this header.
pub proof fn lemma_bearer_verbatim(token: Seq<char>)
    ensures
        bearer_of(token).len() == 7 + token.len(),
        bearer_of(token).subrange(7, bearer_of(token).len() as int) == token,
        bearer_of(token).subrange(0, 7) == ("Bearer ")@,
{
    reveal_strlit("Bearer ");
    assert(("Bearer ")@.len() == 7);
    assert(bearer_of(token).subrange(7, bearer_of(token).len() as int) =~= token);
    assert(bearer_of(token).subrange(0, 7) =~= ("Bearer ")@);
}

} // verus!
