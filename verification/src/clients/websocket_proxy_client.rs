//! Where the realtime channel connects upstream.

use vstd::prelude::*;

verus! {

/// The upstream WebSocket address.
pub struct WebsocketProxyClient {
    pub base_url: String,
}

impl WebsocketProxyClient {
    pub fn new(base_url: String) -> (r: Self)
        ensures
            r.base_url == base_url,
    {
        Self { base_url }
    }

    /// The address to connect to for an upgrade request: the base URL
    /// followed by the request's path and query.
    pub fn upstream_url(&self, path_and_query: &str) -> (r: String)
        ensures
            r@ == self.base_url@ + path_and_query@,
    {
        let mut url = self.base_url.clone();
        url.append(path_and_query);
        url
    }
}

} // verus!
