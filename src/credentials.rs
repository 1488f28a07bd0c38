use crate::error::{CredentialField, HaError};
use vstd::prelude::*;

verus! {

/// An explicit argument counts only when it holds a non-empty string.
pub open spec fn is_given(v: Option<String>) -> bool {
    v is Some && v->0@.len() > 0
}

/// The value that a call uses for one credential: the explicit one when it is
/// given, else the fallback, else none.
pub open spec fn resolved(explicit: Option<String>, fallback: Option<String>) -> Option<Seq<char>> {
    if is_given(explicit) {
        Some(explicit->0@)
    } else if fallback is Some {
        Some(fallback->0@)
    } else {
        None
    }
}

/// The fallback credentials that a process loads once, at first use.
#[derive(Debug, Clone)]
pub struct GlobalVars {
    pub url: Option<String>,
    pub token: Option<String>,
}

/// The credentials that one call is made with.
#[derive(Debug, Clone)]
pub struct Credentials {
    pub base_url: String,
    pub token: String,
}

impl GlobalVars {
    /// Fallback values as the environment gave them.
    pub fn new(url: Option<String>, token: Option<String>) -> (r: GlobalVars)
        ensures
            r.url == url,
            r.token == token,
    {
        GlobalVars { url, token }
    }

    /// No fallback at all.
    pub fn none() -> (r: GlobalVars)
        ensures
            r.url is None,
            r.token is None,
    {
        GlobalVars { url: None, token: None }
    }

    /// The credentials of a call: each explicit value wins over the fallback,
    /// and a value missing from both fails the call, the URL being checked
    /// before the token.
    pub fn resolve(&self, ha_url: Option<String>, ha_token: Option<String>) -> (r: Result<
        Credentials,
        HaError,
    >)
        ensures
            r is Ok <==> (resolved(ha_url, self.url) is Some && resolved(ha_token, self.token) is Some),
            r is Ok ==> r->Ok_0.base_url@ == resolved(ha_url, self.url)->0 && r->Ok_0.token@
                == resolved(ha_token, self.token)->0,
            resolved(ha_url, self.url) is None ==> r == Err::<Credentials, HaError>(
                HaError::MissingCredential(CredentialField::Url),
            ),
            resolved(ha_url, self.url) is Some && resolved(ha_token, self.token) is None ==> r
                == Err::<Credentials, HaError>(HaError::MissingCredential(CredentialField::Token)),
    {
        let base_url = match validate().arg(ha_url) {
            Some(u) => u,
            None => match &self.url {
                Some(u) => u.clone(),
                None => {
                    return Err(HaError::MissingCredential(CredentialField::Url));
                },
            },
        };
        let token = match validate().arg(ha_token) {
            Some(t) => t,
            None => match &self.token {
                Some(t) => t.clone(),
                None => {
                    return Err(HaError::MissingCredential(CredentialField::Token));
                },
            },
        };
        Ok(Credentials { base_url, token })
    }
}

/// The fallback credentials built from what the environment holds under
/// `HA_URL` and `HA_TOKEN`.
pub fn globalvars(url: Option<String>, token: Option<String>) -> (r: GlobalVars)
    ensures
        r.url == url,
        r.token == token,
{
    GlobalVars::new(url, token)
}

/// Tells an explicit argument apart from a missing one.
pub struct Validate;

impl Validate {
    /// The argument itself when it holds a non-empty string, else `None`.
    pub fn arg(&self, str: Option<String>) -> (r: Option<String>)
        ensures
            is_given(str) ==> r == str,
            !is_given(str) ==> r is None,
    {
        match str {
            Some(s) => {
                if s.as_str().is_empty() {
                    None
                } else {
                    Some(s)
                }
            },
            None => None,
        }
    }
}

pub fn validate() -> (r: Validate) {
    Validate
}

} // verus!
