//! The forwarding rules: destination rewriting and hop-by-hop header removal.

use vstd::prelude::*;
use crate::models::http::{Header, Request, Response, UpstreamRequest};
use crate::text::{ascii_eq, eq_ignore_ascii_case};

verus! {

/// A header name that is meaningful for one network hop only:
/// Connection, Keep-Alive, Proxy-Authenticate, Proxy-Authorization, TE,
/// Trailers, Transfer-Encoding or Upgrade, in any letter case.
pub open spec fn is_hop_name(name: Seq<char>) -> bool {
    ||| eq_ignore_ascii_case(name, "Connection"@)
    ||| eq_ignore_ascii_case(name, "Keep-Alive"@)
    ||| eq_ignore_ascii_case(name, "Proxy-Authenticate"@)
    ||| eq_ignore_ascii_case(name, "Proxy-Authorization"@)
    ||| eq_ignore_ascii_case(name, "Te"@)
    ||| eq_ignore_ascii_case(name, "Trailers"@)
    ||| eq_ignore_ascii_case(name, "Transfer-Encoding"@)
    ||| eq_ignore_ascii_case(name, "Upgrade"@)
}

/// The headers that survive forwarding.
pub open spec fn end_to_end() -> spec_fn(Header) -> bool {
    |h: Header| !is_hop_name(h.name@)
}

/// The upstream address and the rules applied to everything sent to it.
#[derive(Debug, Clone)]
pub struct ProxyClient {
    pub base_url: String,
}

impl ProxyClient {
    pub fn new(base_url: String) -> (r: Self)
        ensures
            r.base_url == base_url,
    {
        Self { base_url }
    }

    /// Whether `header_name` names a hop-by-hop header.
    pub fn is_hop_header(&self, header_name: &str) -> (r: bool)
        ensures
            r == is_hop_name(header_name@),
    {
        ascii_eq(header_name, "Connection") || ascii_eq(header_name, "Keep-Alive") || ascii_eq(
            header_name,
            "Proxy-Authenticate",
        ) || ascii_eq(header_name, "Proxy-Authorization") || ascii_eq(header_name, "Te")
            || ascii_eq(header_name, "Trailers") || ascii_eq(header_name, "Transfer-Encoding")
            || ascii_eq(header_name, "Upgrade")
    }

    /// The headers without the hop-by-hop ones, order kept.
    pub fn remove_hop_headers(&self, headers: &Vec<Header>) -> (r: Vec<Header>)
        ensures
            r@ == headers@.filter(end_to_end()),
    {
        let mut out: Vec<Header> = Vec::new();
        let mut i: usize = 0;
        while i < headers.len()
            invariant
                i <= headers.len(),
                out@ == headers@.take(i as int).filter(end_to_end()),
            decreases headers.len() - i,
        {
            proof {
                reveal(Seq::filter);
                assert(headers@.take(i + 1).drop_last() =~= headers@.take(i as int));
            }
            if !self.is_hop_header(headers[i].name.as_str()) {
                out.push(headers[i].duplicate());
            }
            i += 1;
        }
        proof {
            assert(headers@.take(headers.len() as int) =~= headers@);
        }
        out
    }

    /// The request as it goes upstream: addressed to the base URL followed by
    /// the request's path and query, method and body untouched, hop-by-hop
    /// headers removed.
    pub fn to_proxy_request(&self, request: Request) -> (r: UpstreamRequest)
        ensures
            r.url@ == self.base_url@ + request.target(),
            r.method == request.method,
            r.body == request.body,
            r.headers@ == request.headers@.filter(end_to_end()),
    {
        let headers = self.remove_hop_headers(&request.headers);
        let mut url = self.base_url.clone();
        match &request.path_and_query {
            Some(pq) => url.append(pq.as_str()),
            None => url.append(request.path.as_str()),
        }
        UpstreamRequest { method: request.method, url, headers, body: request.body }
    }

    /// The upstream response as it goes back to the client: status and body
    /// untouched, hop-by-hop headers removed.
    pub fn response_to_reply(&self, response: Response) -> (r: Response)
        ensures
            r.status == response.status,
            r.body == response.body,
            r.headers@ == response.headers@.filter(end_to_end()),
    {
        let headers = self.remove_hop_headers(&response.headers);
        Response { status: response.status, headers, body: response.body }
    }
}

} // verus!
