//! Service-level configuration and the shared error board that health
//! checks consult.

use vstd::prelude::*;
use vstd::string::StringExecFns;

verus! {

/// Configuration consumed at construction time: the data directory and
/// the two TLS-fronted API endpoints. Paths are carried as plain strings.
pub struct ServiceConfig {
    pub data_dir: String,
    pub private_api_port: u16,
    pub private_api_ca: String,
    pub private_api_crt: String,
    pub private_api_key: String,
    pub public_api_port: u16,
    pub public_api_ca: String,
    pub public_api_crt: String,
    pub public_api_key: String,
}

impl ServiceConfig {
    /// Ports are non-zero.
    pub open spec fn wf(self) -> bool {
        self.private_api_port != 0 && self.public_api_port != 0
    }
}

/// The health-check message for a failing private API server.
pub open spec fn private_api_msg(e: Seq<char>) -> Seq<char> {
    "private api server: "@ + e
}

/// The health-check message for a failing public API server.
pub open spec fn public_api_msg(e: Seq<char>) -> Seq<char> {
    "public api server: "@ + e
}

/// The latest error of each API server, kept for health checks.
pub struct SharedServiceErrors {
    pub private_api_server: Option<String>,
    pub public_api_server: Option<String>,
}

impl Default for SharedServiceErrors {
    /// A board with no errors recorded.
    fn default() -> (r: SharedServiceErrors)
        ensures
            r.private_api_server is None,
            r.public_api_server is None,
    {
        SharedServiceErrors { private_api_server: None, public_api_server: None }
    }
}

impl SharedServiceErrors {
    /// Records, or clears, the private API server's error.
    pub fn set_private_api_error(&mut self, e: Option<String>)
        ensures
            final(self).private_api_server == e,
            final(self).public_api_server == old(self).public_api_server,
    {
        self.private_api_server = e;
    }

    /// Records, or clears, the public API server's error.
    pub fn set_public_api_error(&mut self, e: Option<String>)
        ensures
            final(self).public_api_server == e,
            final(self).private_api_server == old(self).private_api_server,
    {
        self.public_api_server = e;
    }

    /// The health-check outcome: success when no API server holds an
    /// error, else one message per failing server, private first.
    pub fn check(&self) -> (r: Result<(), Vec<String>>)
        ensures
            match (self.private_api_server, self.public_api_server) {
                (None, None) => r is Ok,
                (Some(p), None) => r matches Err(v) && v@.len() == 1 && v@[0]@ == private_api_msg(
                    p@,
                ),
                (None, Some(q)) => r matches Err(v) && v@.len() == 1 && v@[0]@ == public_api_msg(
                    q@,
                ),
                (Some(p), Some(q)) => r matches Err(v) && v@.len() == 2 && v@[0]@
                    == private_api_msg(p@) && v@[1]@ == public_api_msg(q@),
            },
    {
        let mut errors: Vec<String> = Vec::new();
        if let Some(e) = &self.private_api_server {
            let mut m = String::new();
            m.append("private api server: ");
            m.append(e.as_str());
            errors.push(m);
        }
        if let Some(e) = &self.public_api_server {
            let mut m = String::new();
            m.append("public api server: ");
            m.append(e.as_str());
            errors.push(m);
        }
        if errors.len() == 0 {
            return Ok(());
        }
        Err(errors)
    }
}

} // verus!
