//! The RPC routes that proxied requests can address.

use vstd::prelude::*;

verus! {

/// The route a proxied request addresses.
#[derive(Debug, Clone, Copy)]
pub enum Path {
    Insert,
}

impl Path {
    /// The route's path string.
    pub fn as_str(&self) -> (r: &'static str)
        ensures
            r@ == "/insert"@,
    {
        "/insert"
    }
}

} // verus!
