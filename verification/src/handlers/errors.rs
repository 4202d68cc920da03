//! How a request that no route could serve is answered.

use vstd::prelude::*;

verus! {

/// Why a request was turned down.
#[derive(Debug)]
pub enum Rejection {
    /// No route matched.
    NotFound,
    /// A route matched, but not for this method; with the text to show.
    MethodNotAllowed(String),
    /// The body was not the JSON that the route expects; with the text to show.
    BodyDeserializeError(String),
    /// A handler failed with this status and message.
    Api { code: u16, message: String },
    /// Anything else.
    Other,
}

/// The status and message that answer a rejection. A request that matched no
/// route is handed back, to be served elsewhere; an unknown rejection is
/// answered with 500.
pub fn handle_rejection(err: Rejection) -> (r: Result<(u16, String), Rejection>)
    ensures
        match err {
            Rejection::NotFound => r == Err::<(u16, String), Rejection>(err),
            Rejection::MethodNotAllowed(message) => r == Ok::<(u16, String), Rejection>(
                (405u16, message),
            ),
            Rejection::BodyDeserializeError(message) => r == Ok::<(u16, String), Rejection>(
                (400u16, message),
            ),
            Rejection::Api { code, message } => r == Ok::<(u16, String), Rejection>((code, message)),
            Rejection::Other => r is Ok && r->Ok_0.0 == 500 && r->Ok_0.1@
                == "INTERNAL_SERVER_ERROR"@,
        },
{
    match err {
        Rejection::NotFound => Err(Rejection::NotFound),
        Rejection::MethodNotAllowed(message) => Ok((405, message)),
        Rejection::BodyDeserializeError(message) => Ok((400, message)),
        Rejection::Api { code, message } => Ok((code, message)),
        Rejection::Other => Ok((500, String::from_str("INTERNAL_SERVER_ERROR"))),
    }
}

} // verus!
