//! A client of the Betfair RPC API: how its requests are built and shown, and
//! how its answers are read.
//!
//! Nothing here does input or output. What is to be sent is handed out as plain
//! values, and what was received is handed in.

pub mod client;
pub mod error;
pub mod fault;
pub mod http;
pub mod json;
pub mod request;
pub mod response;
