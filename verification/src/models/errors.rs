//! Error values. Each carries the message that is logged or sent back.

use vstd::prelude::*;

verus! {

/// The transcode pipeline or the upscale worker failed.
#[derive(Debug, Clone)]
pub struct UpscaleError {
    pub message: String,
}

/// Forwarding a request upstream failed.
#[derive(Debug, Clone)]
pub struct ProxyError {
    pub message: String,
}

/// A backend metadata call failed, or no credential was at hand for it.
#[derive(Debug, Clone)]
pub struct HttpError {
    pub message: String,
}

impl UpscaleError {
    /// The message, as the text shown for this error.
    pub fn to_text(&self) -> (r: String)
        ensures
            r@ == self.message@,
    {
        self.message.clone()
    }
}

impl ProxyError {
    /// The message, as the text shown for this error.
    pub fn to_text(&self) -> (r: String)
        ensures
            r@ == self.message@,
    {
        self.message.clone()
    }
}

} // verus!
