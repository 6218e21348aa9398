//! The calls into other crates: base64, the ledger's binary form of an
//! envelope, and Ed25519 signing. Nothing in this file is proved: each
//! contract says what the function called is taken to do, and the rest of the
//! crate is proved from these contracts.

use base64::engine::general_purpose::STANDARD;
use base64::Engine;
use crate::transaction::{
    CompiledInstruction, Message, MessageHeader, MessageView, Transaction, TransactionView,
};
use solana_sdk::instruction::CompiledInstruction as LedgerInstruction;
use solana_sdk::message::Message as LedgerMessage;
use solana_sdk::pubkey::Pubkey;
use solana_sdk::signature::Keypair as LedgerKeypair;
use solana_sdk::signature::Signature as LedgerSignature;
use solana_sdk::signer::Signer;
use solana_sdk::transaction::Transaction as LedgerTransaction;
use vstd::prelude::*;

verus! {

/// `base64::DecodeError`: why a text is not base64. Nothing is stated of its
/// content; it is carried to the caller as it came.
#[verifier::external_type_specification]
#[verifier::external_body]
pub struct ExDecodeError(base64::DecodeError);

/// The text that the standard base64 engine, with padding, writes for `bytes`:
/// what `Engine::encode` returns on `STANDARD`.
pub uninterp spec fn base64_text(bytes: Seq<u8>) -> Seq<char>;

/// The bytes that the same engine reads from `text`, or `None` where `text`
/// is not base64: what `Engine::decode` returns on `STANDARD`.
pub uninterp spec fn base64_bytes(text: Seq<char>) -> Option<Seq<u8>>;

/// The envelope that `bincode::deserialize` reads from the front of `bytes`
/// as a `solana_sdk::transaction::Transaction`, or `None` where it reads none.
pub uninterp spec fn transaction_parsed(bytes: Seq<u8>) -> Option<TransactionView>;

/// The bytes that `bincode::serialize` writes for an envelope that fits.
pub uninterp spec fn transaction_bytes(tx: TransactionView) -> Seq<u8>;

/// The bytes of a message that are signed: what
/// `solana_sdk::message::Message::serialize` returns.
pub uninterp spec fn message_bytes(message: MessageView) -> Seq<u8>;

/// The public key of the key pair that `solana_sdk::signature::Keypair::from_bytes`
/// recovers from 64 bytes, or `None` where it recovers none.
pub uninterp spec fn keypair_public(keypair: [u8; 64]) -> Option<[u8; 32]>;

/// The Ed25519 signature of `message` under a key pair:
/// what `Keypair::sign_message` returns.
pub uninterp spec fn keypair_signature(keypair: [u8; 64], message: Seq<u8>) -> [u8; 64];

/// `Engine::encode` on `base64::engine::general_purpose::STANDARD`. What it
/// writes, `Engine::decode` reads back as the same bytes. It panics where the
/// length of the text does not fit in `usize`, which `requires` leaves out.
#[verifier::external_body]
pub(crate) fn base64_encode(bytes: &[u8]) -> (text: String)
    requires
        bytes@.len() / 3 * 4 + 4 <= usize::MAX,
    ensures
        text@ == base64_text(bytes@),
        base64_bytes(text@) == Some(bytes@),
{
    STANDARD.encode(bytes)
}

/// `Engine::decode` on `base64::engine::general_purpose::STANDARD`: the
/// bytes, or the engine's error where the text is not base64.
#[verifier::external_body]
pub(crate) fn base64_decode(text: &str) -> (r: Result<Vec<u8>, base64::DecodeError>)
    ensures
        match r {
            Ok(bytes) => base64_bytes(text@) == Some(bytes@),
            Err(_) => base64_bytes(text@) is None,
        },
{
    STANDARD.decode(text)
}

/// `bincode::deserialize` at `solana_sdk::transaction::Transaction`, with the
/// fields of the result copied out one for one. Bytes after the transaction
/// are ignored. The length of each sequence is read as a number of 16 bits,
/// so what is read fits. The error is bincode's, as text.
#[verifier::external_body]
pub(crate) fn parse_transaction(bytes: &[u8]) -> (r: Result<Transaction, String>)
    ensures
        match r {
            Ok(tx) => transaction_parsed(bytes@) == Some(tx@) && tx@.fits(),
            Err(_) => transaction_parsed(bytes@) is None,
        },
{
    let t: LedgerTransaction = bincode::deserialize(bytes).map_err(|e| e.to_string())?;
    let m = t.message;
    let header = MessageHeader {
        num_required_signatures: m.header.num_required_signatures,
        num_readonly_signed_accounts: m.header.num_readonly_signed_accounts,
        num_readonly_unsigned_accounts: m.header.num_readonly_unsigned_accounts,
    };
    let account_keys = m.account_keys.into_iter().map(|k| k.to_bytes()).collect();
    let instructions = m.instructions.into_iter().map(|i| CompiledInstruction {
        program_id_index: i.program_id_index, accounts: i.accounts, data: i.data,
    }).collect();
    let recent_blockhash = m.recent_blockhash.to_bytes();
    let message = Message { header, account_keys, recent_blockhash, instructions };
    Ok(Transaction { signatures: t.signatures.into_iter().map(|s| s.into()).collect(), message })
}

/// `bincode::serialize` at `solana_sdk::transaction::Transaction`, built from
/// the envelope field by field. It fails exactly where a sequence is longer
/// than 65535; what it writes, `bincode::deserialize` reads back as the same
/// transaction.
#[verifier::external_body]
pub(crate) fn serialize_transaction(tx: &Transaction) -> (r: Result<Vec<u8>, String>)
    ensures
        r is Ok <==> tx@.fits(),
        r matches Ok(bytes) ==> bytes@ == transaction_bytes(tx@) && transaction_parsed(bytes@)
            == Some(tx@),
{
    let m = &tx.message;
    let keys = m.account_keys.iter().map(|k| Pubkey::from(*k)).collect();
    let code = m.instructions.iter().map(|i| LedgerInstruction {
        program_id_index: i.program_id_index, accounts: i.accounts.clone(), data: i.data.clone(),
    }).collect();
    let h = m.header;
    let blockhash = solana_sdk::hash::Hash::from(m.recent_blockhash);
    let message = LedgerMessage::new_with_compiled_instructions(
        h.num_required_signatures, h.num_readonly_signed_accounts,
        h.num_readonly_unsigned_accounts, keys, blockhash, code,
    );
    let signatures = tx.signatures.iter().map(|s| LedgerSignature::from(*s)).collect();
    bincode::serialize(&LedgerTransaction { signatures, message }).map_err(|e| e.to_string())
}

/// `solana_sdk::message::Message::serialize`, on a message built from `m`
/// field by field: the bytes that a signer signs. It panics where a sequence
/// is longer than 65535, which `requires` leaves out.
#[verifier::external_body]
pub(crate) fn serialize_message(m: &Message) -> (r: Vec<u8>)
    requires
        m@.fits(),
    ensures
        r@ == message_bytes(m@),
{
    let keys = m.account_keys.iter().map(|k| Pubkey::from(*k)).collect();
    let code = m.instructions.iter().map(|i| LedgerInstruction {
        program_id_index: i.program_id_index, accounts: i.accounts.clone(), data: i.data.clone(),
    }).collect();
    let h = m.header;
    let blockhash = solana_sdk::hash::Hash::from(m.recent_blockhash);
    LedgerMessage::new_with_compiled_instructions(
        h.num_required_signatures, h.num_readonly_signed_accounts,
        h.num_readonly_unsigned_accounts, keys, blockhash, code,
    ).serialize()
}

/// `Keypair::from_bytes`, then `Signer::pubkey` on the key pair it recovers:
/// the public key, or `None` where the bytes are no key pair.
#[verifier::external_body]
pub(crate) fn public_key(keypair: &[u8; 64]) -> (r: Option<[u8; 32]>)
    ensures
        r == keypair_public(*keypair),
{
    LedgerKeypair::from_bytes(keypair).ok().map(|k| k.pubkey().to_bytes())
}

/// `Signer::sign_message` of the key pair that `Keypair::from_bytes` recovers:
/// its Ed25519 signature of `message`, which depends on the key pair and the
/// message alone; `None` exactly where the bytes are no key pair.
#[verifier::external_body]
pub(crate) fn sign_message(keypair: &[u8; 64], message: &[u8]) -> (r: Option<[u8; 64]>)
    ensures
        match r {
            Some(signature) => keypair_public(*keypair) is Some && signature == keypair_signature(
                *keypair,
                message@,
            ),
            None => keypair_public(*keypair) is None,
        },
{
    LedgerKeypair::from_bytes(keypair).ok().map(|k| k.sign_message(message).into())
}

} // verus!
