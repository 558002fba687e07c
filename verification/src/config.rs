//! Where the API lives and the key that opens it.

use crate::error::PeriscopeError;
use vstd::prelude::*;

verus! {

/// The environment variable that holds the API key; it must be set.
pub const API_KEY_VAR: &'static str = "MASSIVE_API_KEY";

/// The environment variable that may hold another base URL.
pub const BASE_URL_VAR: &'static str = "MASSIVE_BASE_URL";

/// The base URL used where none is given.
pub const DEFAULT_BASE_URL: &'static str = "https://api.massive.com/v3";

/// The settings of a client.
#[derive(Debug, Clone)]
pub struct Config {
    pub massive_api_key: String,
    pub massive_base_url: String,
}

/// What the error says when the key is missing: the variable's name, then
/// `must be set`.
pub open spec fn missing_key_message() -> Seq<char> {
    API_KEY_VAR@ + " must be set"@
}

impl Config {
    /// Builds the settings from the values of the two variables, each `None`
    /// where the variable is unset or unreadable.
    ///
    /// The key is required; the base URL falls back to [`DEFAULT_BASE_URL`].
    pub fn from_vars(api_key: Option<String>, base_url: Option<String>) -> (r: Result<
        Config,
        PeriscopeError,
    >)
        ensures
            r is Ok <==> api_key is Some,
            r matches Ok(config) ==> {
                &&& config.massive_api_key@ == api_key->Some_0@
                &&& config.massive_base_url@ == match base_url {
                    Some(url) => url@,
                    None => DEFAULT_BASE_URL@,
                }
            },
            r matches Err(e) ==> e matches PeriscopeError::Config(m) && m@
                == missing_key_message(),
    {
        match api_key {
            Some(massive_api_key) => {
                let massive_base_url = match base_url {
                    Some(url) => url,
                    None => String::from_str(DEFAULT_BASE_URL),
                };
                Ok(Config { massive_api_key, massive_base_url })
            },
            None => {
                let message = String::from_str(API_KEY_VAR).concat(" must be set");
                Err(PeriscopeError::Config(message))
            },
        }
    }
}

} // verus!
