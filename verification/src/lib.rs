//! The Airwallex webhook receiver of the firm wallet gateway: signature checks, request
//! routing, and the bounded, deduplicating record of authenticated events.

pub mod config;
pub mod event;
pub mod headers;
pub mod laws;
pub mod meaning;
pub mod recorder;
pub mod response;
pub mod server;
pub mod signature;
pub mod text;
