//! Client-side logic for a set of cloud speech, logging, task and spreadsheet
//! services: request construction, credential caching and the streaming
//! recognition session, each with a machine-checked contract.

pub mod business;
pub mod clock;
pub mod google;
pub mod health;
pub mod json;
pub mod labels;
pub mod logging;
pub mod rest;
pub mod rpc;
pub mod systemstat;
pub mod text;
pub mod yandex;
