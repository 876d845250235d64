//! Configuration data for one run: cluster address, topic list, and the
//! credentials used to obtain a bearer token.

use vstd::prelude::*;

verus! {

/// OAuth client-credentials bundle, used exactly once to build the
/// token-exchange request body.
#[derive(Clone)]
pub struct OAuth {
    pub client_id: String,
    pub client_secret: String,
    pub client_email: String,
    pub issuer_url: String,
    pub audience: String,
}

/// How the run authenticates: a pre-supplied bearer token, or an OAuth
/// client-credentials exchange performed before the first deletion.
#[derive(Clone)]
pub enum AuthMethod {
    Token(String),
    OAuth(OAuth),
}

/// Everything the deletion loop needs, loaded once and immutable for the run.
#[derive(Clone)]
pub struct PulsarConfig {
    pub hostname: String,
    pub tenant: String,
    pub namespace: String,
    pub topics: Vec<String>,
    pub auth: AuthMethod,
}

/// Top-level configuration object.
#[derive(Clone)]
pub struct Config {
    pub pulsar: PulsarConfig,
}

/// Mathematical image of an [`OAuth`] bundle: its five fields as
/// character sequences.
pub struct OAuthView {
    pub client_id: Seq<char>,
    pub client_secret: Seq<char>,
    pub client_email: Seq<char>,
    pub issuer_url: Seq<char>,
    pub audience: Seq<char>,
}

impl View for OAuth {
    type V = OAuthView;

    open spec fn view(&self) -> OAuthView {
        OAuthView {
            client_id: self.client_id@,
            client_secret: self.client_secret@,
            client_email: self.client_email@,
            issuer_url: self.issuer_url@,
            audience: self.audience@,
        }
    }
}

/// Mathematical image of an [`AuthMethod`].
pub enum AuthMethodView {
    Token(Seq<char>),
    OAuth(OAuthView),
}

impl View for AuthMethod {
    type V = AuthMethodView;

    open spec fn view(&self) -> AuthMethodView {
        match self {
            AuthMethod::Token(t) => AuthMethodView::Token(t@),
            AuthMethod::OAuth(o) => AuthMethodView::OAuth(o@),
        }
    }
}

} // verus!
