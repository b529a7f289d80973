//! What holds of the calls of this library: laws over the arguments and results
//! of its functions, one call or several together.
//!
//! `call_ensures(f, args, r)` says that a call of `f` with `args` can return `r`.
pub mod replies;
pub mod requests;
pub mod setup;
