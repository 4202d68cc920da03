//! The parts of HTTP messages that the proxy's rules read and rewrite.

use vstd::prelude::*;

verus! {

/// One header line: a name and its value.
#[derive(Debug)]
pub struct Header {
    pub name: String,
    pub value: String,
}

impl View for Header {
    type V = (Seq<char>, Seq<char>);

    open spec fn view(&self) -> (Seq<char>, Seq<char>) {
        (self.name@, self.value@)
    }
}

/// The name / value pairs of a header list, in order.
pub open spec fn header_views(headers: Seq<Header>) -> Seq<(Seq<char>, Seq<char>)> {
    headers.map_values(|h: Header| h@)
}

/// An inbound request as the proxy sees it.
#[derive(Debug)]
pub struct Request {
    pub method: String,
    /// The path alone; used when the URI has no path-and-query part.
    pub path: String,
    pub path_and_query: Option<String>,
    pub headers: Vec<Header>,
    pub body: Vec<u8>,
}

impl Request {
    /// The part of the URI that is appended to the upstream base URL.
    pub open spec fn target(&self) -> Seq<char> {
        match self.path_and_query {
            Some(pq) => pq@,
            None => self.path@,
        }
    }

    /// The key under which the call history remembers this request.
    pub open spec fn history_key(&self) -> Seq<char> {
        match self.path_and_query {
            Some(pq) => pq@,
            None => seq!['/'],
        }
    }
}

/// A request addressed to the upstream server.
#[derive(Debug)]
pub struct UpstreamRequest {
    pub method: String,
    pub url: String,
    pub headers: Vec<Header>,
    pub body: Vec<u8>,
}

/// A response, from upstream or to the client.
#[derive(Debug)]
pub struct Response {
    pub status: u16,
    pub headers: Vec<Header>,
    pub body: Vec<u8>,
}

impl Header {
    /// A copy of this header.
    pub fn duplicate(&self) -> (r: Header)
        ensures
            r == *self,
    {
        Header { name: self.name.clone(), value: self.value.clone() }
    }
}

} // verus!
