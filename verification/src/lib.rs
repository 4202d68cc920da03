//! A transparent reverse proxy for comic servers that upscales image pages on
//! the way through. This crate holds the proxy's rules: header sanitising,
//! the transcode pipeline, the tag check, the worker supervisor's state
//! machine and the WebSocket frame mapping.

pub mod text;
pub mod models;
pub mod clients;
pub mod http_compression;
pub mod cache;
pub mod call_history;
pub mod config;
pub mod upscaler;
pub mod handlers;
pub mod tags_provider;
pub mod server;
pub mod proxy_target;
