//! Configuration values, resolved from what the environment offered with
//! fixed defaults. The lookup itself belongs to the caller; this module
//! only decides what each value becomes.

use vstd::prelude::*;
use vstd::string::*;

verus! {

/// The service's configuration.
#[derive(Debug, Clone)]
pub struct Variables {
    pub nats_url: String,
    /// SQLite path or URL.
    pub database_url: String,
}

/// The looked-up value where one was found, the default otherwise.
pub fn var_or_default(value: Option<String>, default: &str) -> (r: String)
    ensures
        match value {
            Some(v) => r@ == v@,
            None => r@ == default@,
        },
{
    match value {
        Some(v) => v,
        None => String::from_str(default),
    }
}

/// Resolves the configuration from the optional environment lookups.
pub fn resolve(nats_url: Option<String>, database_url: Option<String>) -> (v: Variables)
    ensures
        match nats_url {
            Some(u) => v.nats_url@ == u@,
            None => v.nats_url@ == "nats://localhost:4222"@,
        },
        match database_url {
            Some(u) => v.database_url@ == u@,
            None => v.database_url@ == "sqlite::memory:"@,
        },
{
    Variables {
        nats_url: var_or_default(nats_url, "nats://localhost:4222"),
        database_url: var_or_default(database_url, "sqlite::memory:"),
    }
}

} // verus!
