//! Plain configuration data. Loading it from a file or from the environment
//! is the host program's business; the library only fixes the shape of the
//! values and the rule that picks the configuration path.

use vstd::prelude::*;
use vstd::string::StringExecFns;

verus! {

pub struct Config {
    // example
    pub message: String,
    pub cat: Cat,
    // app
    pub api: Api,
    // db
    pub db: Db,
}

// example nested config
pub struct Cat {
    pub colour: String,
}

pub struct Api {
    /// IPv4 address, one octet per entry.
    pub ip: [u8; 4],
    pub port: u16,
}

pub struct Db {
    pub db_str: String,
}

/// The path the configuration file is read from: the value of the path
/// environment variable when it is set, the fixed default otherwise.
pub fn path_or_default(env_value: Option<String>) -> (r: String)
    ensures
        match env_value {
            Some(p) => r@ == p@,
            None => r@ == "/etc/neko/config.yaml"@,
        },
{
    match env_value {
        Some(p) => p,
        None => "/etc/neko/config.yaml".to_owned(),
    }
}

} // verus!
