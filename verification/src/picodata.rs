//! The host-runtime side of the service: the proxied RPC route model and
//! the plugin service configuration.

pub mod rpc;
pub mod service;
