//! The outside functions that the library calls, each behind a contract that is
//! taken on trust.
pub mod chain;
pub mod http;
pub mod json;
pub mod text;
pub mod time;
