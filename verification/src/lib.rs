//! Validation, storage decisions and request outcomes of a URL shortener.

pub mod clock;
pub mod config;
pub mod expiration;
pub mod http;
pub mod long_url;
pub mod repository;
pub mod short_id;
pub mod short_url;
pub mod text;
pub mod timestamp;
