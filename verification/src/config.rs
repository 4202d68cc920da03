//! The configuration surface.

pub mod app_config;
