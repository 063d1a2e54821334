//! The services reached with a service-account token: logging, speech,
//! tasks, text to speech and spreadsheets.

pub mod logging;
pub mod spreadsheets;
pub mod stt;
pub mod tasks;
pub mod tts;
