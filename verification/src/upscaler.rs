//! The upscale worker: the engine interface, the image step of the transcode
//! pipeline, and the supervisor that owns the worker.

pub mod upscale_actor;
pub mod upscaler;
