//! A client for the JSON-RPC 2.0 protocol: request framing, nonce allocation,
//! and validation of single and batched replies against the requests sent.

pub mod error;
pub mod message;
pub mod client;

pub use error::{Error, Id, RpcError};
pub use client::{Client, Transport};
pub use message::{Payload, Request, Response};
