//! Choosing the API key and model for language-model calls.

use vstd::prelude::*;
use vstd::string::*;

verus! {

/// The model used when neither the configuration nor the environment
/// names one.
pub open spec fn default_model() -> Seq<char> {
    "xiaomi/mimo-v2-flash"@
}

/// The API key to use: the configured one when it is not empty, else the
/// one from the environment (`OPENROUTER_API_KEY`), if any.
pub fn resolve_api_key(configured: &String, from_env: Option<String>) -> (r: Option<String>)
    ensures
        configured@.len() > 0 ==> (r matches Some(k) && k@ == configured@),
        configured@.len() == 0 ==> r == from_env,
{
    if configured.as_str().unicode_len() > 0 {
        Some(configured.clone())
    } else {
        from_env
    }
}

/// The model to use: the configured one when it is not empty, else the
/// one from the environment (`OPENROUTER_MODEL`), else the default.
pub fn resolve_model(configured: &String, from_env: Option<String>) -> (r: String)
    ensures
        configured@.len() > 0 ==> r@ == configured@,
        configured@.len() == 0 ==> match from_env {
            Some(m) => r@ == m@,
            None => r@ == default_model(),
        },
{
    if configured.as_str().unicode_len() > 0 {
        configured.clone()
    } else {
        match from_env {
            Some(m) => m,
            None => "xiaomi/mimo-v2-flash".to_owned(),
        }
    }
}

/// Whether the model is available: enabled, with a key to call it.
pub fn is_available(enabled: bool, api_key: &Option<String>) -> (r: bool)
    ensures
        r == (enabled && api_key is Some),
{
    enabled && api_key.is_some()
}

} // verus!
