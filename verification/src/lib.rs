//! Client-side core of the Qwery payment facilitator protocol.
//!
//! A payment takes four steps: the client asks the facilitator to create it,
//! signs the transaction that the facilitator hands back, sends the signed
//! transaction to be settled, and may later ask whether it went through. The
//! private key never leaves the client.
//!
//! This crate holds everything of that which is computation:
//!
//! - [`codec`] reads a transaction envelope from its text and writes it back;
//! - [`signer`] puts the signature of a key pair into the slot of an envelope
//!   that belongs to it;
//! - [`client`] says which request each operation sends, and
//!   [`protocol`] what the caller gets for what came back.
//!
//! Nothing here touches the network. A transport sends the [`ApiRequest`]
//! that an operation returns, reports what happened as an [`Outcome`], and
//! hands the caller what [`Outcome::into_result`] makes of it.
//!
//! Every function is verified against its contract, except those of
//! [`trusted`], which call base64, bincode and the Solana SDK and state what
//! those calls are taken to do.

pub mod client;
pub mod codec;
pub mod error;
pub mod protocol;
pub mod signer;
pub mod transaction;
pub mod trusted;
pub mod types;

pub use client::QweryClient;
pub use codec::{decode, encode};
pub use error::{FailureKind, QweryError, RequestFailure};
pub use protocol::{ApiRequest, Body, Method, Outcome, Payload};
pub use signer::{sign, Keypair};
pub use transaction::{CompiledInstruction, Message, MessageHeader, Transaction};
pub use types::{
    Amount, HealthResponse, Network, PaymentRequest, PaymentResponse, QweryConfig, SettleRequest,
    SettleResponse, VerifyRequest, VerifyResponse,
};
