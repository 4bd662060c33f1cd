//! The plugin-hosted service's configuration and warning board.

use vstd::prelude::*;
use vstd::string::StringExecFns;
use crate::service::{private_api_msg, public_api_msg};

verus! {

/// Configuration consumed at construction time: the public API endpoint
/// and the data directory. Paths are carried as plain strings.
pub struct ServiceConfig {
    pub api_port: u16,
    pub api_ca_crt: String,
    pub api_crt: String,
    pub api_key: String,
    pub data_dir: String,
}

impl ServiceConfig {
    /// The port is non-zero.
    pub open spec fn wf(self) -> bool {
        self.api_port != 0
    }
}

/// The latest warning of each API server, kept for health checks.
pub struct ServiceWarnings {
    pub private_api_server: Option<String>,
    pub public_api_server: Option<String>,
}

impl Default for ServiceWarnings {
    /// A board with no warnings recorded.
    fn default() -> (r: ServiceWarnings)
        ensures
            r.private_api_server is None,
            r.public_api_server is None,
    {
        ServiceWarnings { private_api_server: None, public_api_server: None }
    }
}

impl ServiceWarnings {
    /// Records, or clears, the private API server's error.
    pub fn set_private_api_error(&mut self, e: Option<String>)
        ensures
            final(self).private_api_server == e,
            final(self).public_api_server == old(self).public_api_server,
    {
        self.private_api_server = e;
    }

    /// Records, or clears, the public API server's error.
    pub fn set_public_api_error(&mut self, e: Option<String>)
        ensures
            final(self).public_api_server == e,
            final(self).private_api_server == old(self).private_api_server,
    {
        self.public_api_server = e;
    }

    /// The health-check outcome: success when no API server holds an
    /// error, else one message per failing server, private first.
    pub fn check(&self) -> (r: Result<(), Vec<String>>)
        ensures
            match (self.private_api_server, self.public_api_server) {
                (None, None) => r is Ok,
                (Some(p), None) => r matches Err(v) && v@.len() == 1 && v@[0]@ == private_api_msg(
                    p@,
                ),
                (None, Some(q)) => r matches Err(v) && v@.len() == 1 && v@[0]@ == public_api_msg(
                    q@,
                ),
                (Some(p), Some(q)) => r matches Err(v) && v@.len() == 2 && v@[0]@
                    == private_api_msg(p@) && v@[1]@ == public_api_msg(q@),
            },
    {
        let mut errors: Vec<String> = Vec::new();
        if let Some(e) = &self.private_api_server {
            let mut m = String::new();
            m.append("private api server: ");
            m.append(e.as_str());
            errors.push(m);
        }
        if let Some(e) = &self.public_api_server {
            let mut m = String::new();
            m.append("public api server: ");
            m.append(e.as_str());
            errors.push(m);
        }
        if errors.len() == 0 {
            return Ok(());
        }
        Err(errors)
    }
}

} // verus!
