//! Where the API key comes from, and the file it is kept in.

use vstd::prelude::*;
use vstd::string::*;
use crate::json::{json_member_text, json_object_text, object_text, string_member};
use crate::models::text_of;

verus! {

/// Name of the directory, below the user's configuration directory, that
/// holds the configuration file.
pub const CONFIG_DIR: &'static str = "hevy-bridge";

/// Name of the configuration file.
pub const CONFIG_FILE: &'static str = "config.json";

/// Name of the member of the configuration file that holds the API key.
pub const API_KEY_MEMBER: &'static str = "api_key";

/// No API key was given on the command line, none in the environment and
/// none is stored.
#[derive(Clone, Copy, Debug, PartialEq, Eq, Structural)]
pub struct MissingApiKey;

/// The key that a command runs with: the one from the command line if there
/// is one, else the one from the environment unless it is empty, else the
/// stored one.
pub open spec fn chosen_key(
    cli_key: Option<Seq<char>>,
    env_key: Option<Seq<char>>,
    stored_key: Option<Seq<char>>,
) -> Option<Seq<char>> {
    if cli_key is Some {
        cli_key
    } else if env_key is Some && env_key->0.len() > 0 {
        env_key
    } else {
        stored_key
    }
}

/// The key that a result holds, if it holds one.
pub open spec fn key_of(r: Result<String, MissingApiKey>) -> Option<Seq<char>> {
    match r {
        Ok(k) => Some(k@),
        Err(_) => None,
    }
}

impl MissingApiKey {
    /// What to tell the user.
    pub fn message(&self) -> (m: String)
        ensures
            m@ == "No API key provided. Supply one via:\n  1. --api-key <KEY>\n  2. HEVY_API_KEY environment variable\n  3. `hevy-bridge config set-key <KEY>` to persist it"@,
    {
        "No API key provided. Supply one via:\n  1. --api-key <KEY>\n  2. HEVY_API_KEY environment variable\n  3. `hevy-bridge config set-key <KEY>` to persist it".to_owned()
    }
}

/// Chooses the API key among the three places it can come from. Fails
/// exactly where none of them has one.
pub fn resolve_api_key(
    cli_key: &Option<String>,
    env_key: &Option<String>,
    stored_key: &Option<String>,
) -> (r: Result<String, MissingApiKey>)
    ensures
        key_of(r) == chosen_key(text_of(*cli_key), text_of(*env_key), text_of(*stored_key)),
{
    if let Some(k) = cli_key {
        return Ok(k.clone());
    }
    if let Some(k) = env_key {
        if !k.as_str().is_empty() {
            return Ok(k.clone());
        }
    }
    match stored_key {
        Some(k) => Ok(k.clone()),
        None => Err(MissingApiKey),
    }
}

/// The API key that a configuration file holds, given the file's text.
pub fn stored_api_key(config_text: &str) -> (key: Option<String>)
    ensures
        text_of(key) == json_member_text(config_text@, API_KEY_MEMBER@),
{
    string_member(config_text, API_KEY_MEMBER)
}

/// The text of a configuration file that holds `key`.
pub fn config_document(key: &str) -> (text: Option<String>)
    ensures
        text_of(text) == json_object_text(API_KEY_MEMBER@, key@),
{
    object_text(API_KEY_MEMBER, key)
}

} // verus!
