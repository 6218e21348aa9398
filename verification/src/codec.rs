//! The codec of the transaction envelope: between the text in which the
//! facilitator and the client hand a transaction to each other, and the
//! envelope itself. The text is the base64 of the envelope's binary form.

use crate::error::QweryError;
use crate::transaction::{Transaction, TransactionView};
use crate::trusted::{
    base64_bytes, base64_decode, base64_encode, base64_text, parse_transaction,
    serialize_transaction, transaction_bytes, transaction_parsed,
};
use vstd::prelude::*;
use vstd::string::StringExecFns;

verus! {

/// Why a text holds no envelope.
pub enum Malformed {
    /// The text is not base64.
    Encoding,
    /// The text is base64, but its bytes are not an envelope.
    Structure,
}

/// The envelope that a text holds, or why it holds none.
pub open spec fn decoded(text: Seq<char>) -> Result<TransactionView, Malformed> {
    match base64_bytes(text) {
        None => Err(Malformed::Encoding),
        Some(bytes) => match transaction_parsed(bytes) {
            None => Err(Malformed::Structure),
            Some(tx) => Ok(tx),
        },
    }
}

/// The text of an envelope.
pub open spec fn encoded(tx: TransactionView) -> Seq<char> {
    base64_text(transaction_bytes(tx))
}

/// The envelope has a text: each of its sequences is short enough for the
/// binary form, and the length of the text fits in `usize`.
pub open spec fn encodable(tx: TransactionView) -> bool {
    tx.fits() && transaction_bytes(tx).len() / 3 * 4 + 4 <= usize::MAX
}

/// The envelope that `text` holds.
///
/// Fails with `Base64Error` where `text` is not base64, and with
/// `SolanaError` where it is, but its bytes are not an envelope. Nothing is
/// returned of a text that holds only part of one. Bytes after the envelope
/// are ignored. Every envelope returned fits the binary form.
pub fn decode(text: &str) -> (r: Result<Transaction, QweryError>)
    ensures
        match decoded(text@) {
            Ok(tx) => r matches Ok(t) && t@ == tx && tx.fits(),
            Err(Malformed::Encoding) => r matches Err(QweryError::Base64Error(_)),
            Err(Malformed::Structure) => r matches Err(QweryError::SolanaError(_)),
        },
{
    match base64_decode(text) {
        Err(e) => Err(QweryError::from(e)),
        Ok(bytes) => match parse_transaction(bytes.as_slice()) {
            Err(e) => Err(QweryError::SolanaError(e)),
            Ok(tx) => Ok(tx),
        },
    }
}

/// The text of an envelope.
///
/// Succeeds on every envelope that has a text, and fails with `SolanaError`
/// on every other. The text it returns holds the envelope it was given:
/// `decode` gives that envelope back, and `encode` of what `decode` gives
/// back is the same text again.
pub fn encode(tx: &Transaction) -> (r: Result<String, QweryError>)
    ensures
        match r {
            Ok(text) => {
                &&& encodable(tx@)
                &&& text@ == encoded(tx@)
                &&& decoded(text@) == Ok::<TransactionView, Malformed>(tx@)
                &&& decoded(text@) matches Ok(back) && encoded(back) == text@
            },
            Err(e) => !encodable(tx@) && e is SolanaError,
        },
{
    match serialize_transaction(tx) {
        Err(e) => Err(QweryError::SolanaError(e)),
        Ok(bytes) => {
            if bytes.len() / 3 <= (usize::MAX - 4) / 4 {
                Ok(base64_encode(bytes.as_slice()))
            } else {
                Err(
                    QweryError::SolanaError(
                        String::from_str("the transaction is too long for a text"),
                    ),
                )
            }
        },
    }
}

} // verus!
