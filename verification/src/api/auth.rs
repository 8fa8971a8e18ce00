//! API-key authentication: which requests pass, and what the others are told.
//!
//! Keys travel in the `X-API-Key` header. The transport layer extracts the
//! path and the header; the decision is taken here.

use crate::config::{AuthConfig, AuthConfigView};
use crate::text::{matches_pattern, pattern_admits, str_eq};
use vstd::prelude::*;

verus! {

broadcast use vstd::string::group_string_axioms;

/// HTTP status of a rejected request.
pub const UNAUTHORIZED: u16 = 401;

/// Authentication state shared across requests
#[derive(Clone)]
pub struct AuthState {
    pub config: AuthConfig,
}

impl DeepView for AuthState {
    type V = AuthConfigView;

    open spec fn deep_view(&self) -> AuthConfigView {
        self.config.deep_view()
    }
}

/// Body of a 401 response.
#[derive(Debug, Clone)]
pub struct AuthError {
    pub error: String,
    pub message: String,
}

/// Whether some pattern of the list admits the path.
pub open spec fn excluded(patterns: Seq<Seq<char>>, path: Seq<char>) -> bool {
    exists|i: int| 0 <= i < patterns.len() && pattern_admits(#[trigger] patterns[i], path)
}

/// Whether a request passes: authentication is off, the path is excluded, or
/// the request carries a configured key.
pub open spec fn admitted(config: AuthConfigView, path: Seq<char>, key: Option<Seq<char>>) -> bool {
    ||| !config.enabled
    ||| excluded(config.exclude_paths, path)
    ||| (key matches Some(k) && config.api_keys.contains(k))
}

impl AuthState {
    pub fn new(config: AuthConfig) -> (state: Self)
        ensures
            state.config == config,
    {
        Self { config }
    }

    /// Check if the given API key is valid
    pub fn is_valid_key(&self, key: &str) -> (valid: bool)
        ensures
            valid == self.deep_view().api_keys.contains(key@),
    {
        let keys = &self.config.api_keys;
        let mut i: usize = 0;
        while i < keys.len()
            invariant
                i <= keys.len(),
                *keys == self.config.api_keys,
                forall|j: int| 0 <= j < i ==> keys.deep_view()[j] != key@,
            decreases keys.len() - i,
        {
            if str_eq(keys[i].as_str(), key) {
                assert(self.deep_view().api_keys[i as int] == key@);
                return true;
            }
            i += 1;
        }
        false
    }

    /// Check if the path is excluded from authentication
    pub fn is_excluded_path(&self, path: &str) -> (skip: bool)
        ensures
            skip == excluded(self.deep_view().exclude_paths, path@),
    {
        let patterns = &self.config.exclude_paths;
        let mut i: usize = 0;
        while i < patterns.len()
            invariant
                i <= patterns.len(),
                *patterns == self.config.exclude_paths,
                forall|j: int| 0 <= j < i ==> !pattern_admits(#[trigger] patterns.deep_view()[j], path@),
            decreases patterns.len() - i,
        {
            if matches_pattern(patterns[i].as_str(), path) {
                assert(pattern_admits(self.deep_view().exclude_paths[i as int], path@));
                return true;
            }
            i += 1;
        }
        false
    }
}

/// Decides one request from its path and the key it carried, if any.
///
/// A request passes exactly when `admitted` holds. A rejected request is
/// answered with status 401 and a body that tells a wrong key from a missing
/// one.
pub fn api_key_auth(auth_state: &AuthState, path: &str, api_key: Option<&str>) -> (verdict: Result<
    (),
    AuthError,
>)
    ensures
        verdict is Ok == admitted(auth_state.deep_view(), path@, api_key.deep_view()),
        verdict matches Err(e) ==> {
            &&& e.error@ == "unauthorized"@
            &&& e.message@ == if api_key is Some {
                "Invalid API key"@
            } else {
                "Missing X-API-Key header"@
            }
        },
{
    if !auth_state.config.enabled {
        return Ok(());
    }
    if auth_state.is_excluded_path(path) {
        return Ok(());
    }
    match api_key {
        Some(key) => {
            if auth_state.is_valid_key(key) {
                Ok(())
            } else {
                Err(
                    AuthError {
                        error: "unauthorized".to_string(),
                        message: "Invalid API key".to_string(),
                    },
                )
            }
        },
        None => Err(
            AuthError {
                error: "unauthorized".to_string(),
                message: "Missing X-API-Key header".to_string(),
            },
        ),
    }
}

} // verus!
