//! A minimal JSON-RPC client core for a Bitcoin Core daemon.
//!
//! The library prepares requests and interprets replies; moving the bytes
//! over HTTP is left to the caller. Every request carries the same envelope
//! and, when credentials are configured, HTTP Basic Authentication.

pub mod auth;
pub mod client;
pub mod json;
pub mod raw_tx;
pub mod reply;
pub mod request;

pub use crate::auth::Auth;
pub use crate::client::RpcClient;
pub use crate::json::Json;
pub use crate::raw_tx::RawTx;
pub use crate::reply::{Reply, RpcError};
pub use crate::request::{BasicAuth, Request};
