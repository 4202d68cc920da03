//! Plain data exchanged with the backends, and the error values of the proxy.

pub mod errors;
pub mod http;
pub mod kavita;
pub mod komga;
