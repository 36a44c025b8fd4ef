//! The settings a service starts with.

use vstd::prelude::*;

verus! {

/// Where the service listens and which database it uses.
pub struct Config {
    pub server_address: String,
    pub db_url: String,
}

impl Config {
    /// A configuration from its two settings.
    pub fn new(server_address: String, db_url: String) -> (r: Config)
        ensures
            r.server_address@ == server_address@,
            r.db_url@ == db_url@,
    {
        Config { server_address, db_url }
    }
}

} // verus!
