//! The upstream address in the two forms the proxy uses it.

use vstd::prelude::*;

verus! {

/// Where requests are forwarded to.
#[derive(Debug)]
pub struct ProxyTarget {
    /// The upstream URL without its trailing slash.
    pub base_url: String,
    /// The same address under the WebSocket scheme.
    pub ws_url: String,
}

/// `text` without its trailing slash; none where it does not end in one.
pub open spec fn without_trailing_slash(text: Seq<char>) -> Option<Seq<char>> {
    if text.len() > 0 && text.last() == '/' {
        Some(text.drop_last())
    } else {
        None
    }
}

/// Removes the slash that ends `text`; `None` where there is none.
pub fn strip_trailing_slash(text: &str) -> (r: Option<String>)
    ensures
        match r {
            Some(s) => without_trailing_slash(text@) == Some(s@),
            None => without_trailing_slash(text@) is None,
        },
{
    let n = text.unicode_len();
    if n == 0 {
        return None;
    }
    if text.get_char(n - 1) != '/' {
        return None;
    }
    let head = text.substring_char(0, n - 1);
    assert(text@.subrange(0, n - 1) =~= text@.drop_last());
    Some(String::from_str(head))
}

impl ProxyTarget {
    /// The target for an upstream URL, given as the URL's full text (which
    /// ends in a slash) and its authority and path. The WebSocket address is
    /// `ws://`, the authority and the path, again without the trailing
    /// slash. `None` where one of the two does not end in a slash.
    pub fn new(upstream_url: &str, authority: &str, path: &str) -> (r: Option<Self>)
        ensures
            match r {
                Some(target) => {
                    &&& without_trailing_slash(upstream_url@) == Some(target.base_url@)
                    &&& without_trailing_slash("ws://"@ + authority@ + path@) == Some(
                        target.ws_url@,
                    )
                },
                None => without_trailing_slash(upstream_url@) is None || without_trailing_slash(
                    "ws://"@ + authority@ + path@,
                ) is None,
            },
    {
        let base_url = match strip_trailing_slash(upstream_url) {
            Some(base_url) => base_url,
            None => {
                return None;
            },
        };
        let mut ws = String::from_str("ws://");
        ws.append(authority);
        ws.append(path);
        match strip_trailing_slash(ws.as_str()) {
            Some(ws_url) => Some(ProxyTarget { base_url, ws_url }),
            None => None,
        }
    }
}

} // verus!
