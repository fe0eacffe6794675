//! Settings read once at start-up.
use vstd::prelude::*;

verus! {

/// The port served when the environment names none.
pub const DEFAULT_BACKEND_PORT: u16 = 8080;

/// Connection string of the backing store and the port to listen on.
pub struct Config {
    pub postgres_db: String,
    pub port: u16,
}

/// The port served when the environment names none.
pub fn default_backend_port() -> (r: u16)
    ensures
        r == DEFAULT_BACKEND_PORT,
{
    DEFAULT_BACKEND_PORT
}

impl Config {
    /// Builds a configuration, taking the default port where none is given.
    pub fn new(postgres_db: String, port: Option<u16>) -> (r: Config)
        ensures
            r.postgres_db == postgres_db,
            r.port == match port {
                Some(p) => p,
                None => DEFAULT_BACKEND_PORT,
            },
    {
        let port = match port {
            Some(p) => p,
            None => default_backend_port(),
        };
        Config { postgres_db, port }
    }
}

} // verus!
