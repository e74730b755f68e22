//! Per-source bearer credentials.
//!
//! A credential is optional: a missing token is a valid state, not a
//! fault. The review feed degrades to anonymous access without one; the
//! verification feed answers with a defined zero result instead.

use vstd::prelude::*;
use vstd::string::StringExecFns;

verus! {

/// An optional bearer token for one source, read once at startup.
#[derive(Clone, Debug)]
pub struct Credential {
    pub token: Option<String>,
}

impl Credential {
    /// A configured token.
    pub fn present(token: String) -> (r: Credential)
        ensures
            r.token == Some(token),
    {
        Credential { token: Some(token) }
    }

    /// No token configured.
    pub fn absent() -> (r: Credential)
        ensures
            r.token is None,
    {
        Credential { token: None }
    }

    /// Whether a token is configured.
    pub fn has_token(&self) -> (r: bool)
        ensures
            r == (self.token is Some),
    {
        self.token.is_some()
    }

    /// The authorization header value the token attaches as, when one is
    /// configured: the word `Bearer`, a space, and the token.
    pub fn bearer(&self) -> (r: Option<String>)
        ensures
            match self.token {
                Some(t) => r matches Some(h) && h@ == "Bearer "@ + t@,
                None => r is None,
            },
    {
        match &self.token {
            Some(t) => {
                let mut header: String = "Bearer ".to_owned();
                header.append(t.as_str());
                Some(header)
            },
            None => None,
        }
    }
}

} // verus!
