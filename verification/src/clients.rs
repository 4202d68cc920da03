//! What the proxy sends upstream and how it cleans what comes back.

pub mod kavita_client;
pub mod komga_client;
pub mod proxy_client;
pub mod websocket_proxy_client;
