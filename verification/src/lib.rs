//! Verified core of an asynchronous client for the Esplora HTTP API.
pub mod address;
pub mod broadcast;
pub mod builder;
pub mod client;
pub mod decimal;
pub mod endpoints;
pub mod error;
pub mod ext;
pub mod hex;
pub mod laws;
pub mod log;
pub mod reply;
pub mod request;
pub mod response;
pub mod retry;
pub mod segment;
pub mod sleeper;

pub use address::Address;
pub use builder::Builder;
pub use client::AsyncClient;
pub use error::Error;
pub use sleeper::{DefaultSleeper, Sleeper};
