//! The static, startup-only part of the configuration: listen address and
//! log level. (`static` is a keyword, hence this module's name.)

use vstd::prelude::*;
use vstd::string::StringExecFns;

use crate::config::view_opt_string;

verus! {

/// Startup configuration: server settings and logging settings.
pub struct StaticConfig {
    pub server: Option<Server>,
    pub logging: Option<Logging>,
}

/// The server settings of the startup configuration.
pub struct Server {
    pub address: Option<String>,
}

/// The logging settings of the startup configuration.
pub struct Logging {
    pub level: Option<String>,
}

/// The address the server listens on: the configured one, or the default.
pub open spec fn effective_address_of(c: StaticConfig) -> Seq<char> {
    match c.server {
        Option::Some(s) => match s.address {
            Option::Some(a) => a@,
            Option::None => "0.0.0.0:8080"@,
        },
        Option::None => "0.0.0.0:8080"@,
    }
}

/// The configured log level name, if any.
pub open spec fn level_name_of(c: StaticConfig) -> Option<Seq<char>> {
    match c.logging {
        Option::Some(l) => view_opt_string(l.level),
        Option::None => Option::None,
    }
}

impl StaticConfig {
    /// The listen address, with the default filled in.
    pub fn effective_address(&self) -> (r: String)
        ensures
            r@ == effective_address_of(*self),
    {
        match &self.server {
            Some(s) => match &s.address {
                Some(a) => a.clone(),
                None => String::from_str("0.0.0.0:8080"),
            },
            None => String::from_str("0.0.0.0:8080"),
        }
    }
}

} // verus!
