//! The speech service reached through an assertion-based token exchange.

pub mod auth;
pub mod session_laws;
pub mod streaming_stt;
pub mod stt;
