//! What each route does with a request and with the upstream's answer.

pub mod content_disposition;
pub mod errors;
pub mod komga;
pub mod proxy;
pub mod upscale;
