//! Marshaling for the `sendTransaction` call of a Solana node: from a signed
//! transaction and its options to the parameters of the call, and from the
//! node's reply to the signature that identifies the transaction.

pub mod config;
pub mod encoding;
pub mod error;
pub mod json;
pub mod request;
pub mod response;
pub mod signature;
pub mod transaction;

pub use crate::config::{CommitmentLevel, RpcSendTransactionConfig};
pub use crate::encoding::Encoding;
pub use crate::error::ClientError;
pub use crate::json::{JsonNumber, JsonValue};
pub use crate::request::{
    build_send_transaction_request, ClientRequest, SendVersionedTransactionRequest,
};
pub use crate::response::{
    parse_send_transaction_response, ClientResponse, SendVersionedTransactionResponse,
};
pub use crate::signature::Signature;
