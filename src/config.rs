//! The persisted settings the core reads, and credential resolution.
use vstd::prelude::*;

verus! {

/// Persisted settings: an optional credential for the remote backend.
#[derive(Debug)]
pub struct Config {
    pub openrouter_api_key: Option<String>,
}

impl Default for Config {
    fn default() -> (r: Config)
        ensures
            r.openrouter_api_key is None,
    {
        Config { openrouter_api_key: None }
    }
}

/// The view of an optional string.
pub open spec fn opt_view(o: Option<String>) -> Option<Seq<char>> {
    match o {
        Some(s) => Some(s@),
        None => None,
    }
}

/// The credential in effect: the one from the environment when present, else
/// the persisted one.
pub open spec fn resolve(env_key: Option<Seq<char>>, config_key: Option<Seq<char>>) -> Option<
    Seq<char>,
> {
    if env_key is Some {
        env_key
    } else {
        config_key
    }
}

/// A copy of an optional string.
pub fn copy_opt(o: &Option<String>) -> (r: Option<String>)
    ensures
        opt_view(r) == opt_view(*o),
{
    match o {
        Some(s) => Some(s.clone()),
        None => None,
    }
}

/// The credential in effect: the one from the environment when present, else
/// the persisted one.
pub fn resolve_credential(env_key: &Option<String>, config_key: &Option<String>) -> (r: Option<
    String,
>)
    ensures
        opt_view(r) == resolve(opt_view(*env_key), opt_view(*config_key)),
{
    if env_key.is_some() {
        copy_opt(env_key)
    } else {
        copy_opt(config_key)
    }
}

impl Config {
    /// A copy of these settings.
    pub fn duplicate(&self) -> (r: Config)
        ensures
            opt_view(r.openrouter_api_key) == opt_view(self.openrouter_api_key),
    {
        Config { openrouter_api_key: copy_opt(&self.openrouter_api_key) }
    }
}

} // verus!
