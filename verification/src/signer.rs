//! The signer: puts the signature of one key pair into the slot of an
//! envelope that belongs to it.

use crate::error::QweryError;
use crate::transaction::{Message, MessageView, Transaction, TransactionView};
use crate::trusted::{
    keypair_public, keypair_signature, message_bytes, public_key, serialize_message, sign_message,
};
use vstd::prelude::*;
use vstd::string::StringExecFns;

verus! {

/// An Ed25519 key pair: 64 bytes, of which the first 32 are the secret key.
/// Every value of this type is a key pair that the ledger's library accepts.
pub struct Keypair {
    bytes: [u8; 64],
    public: [u8; 32],
}

impl View for Keypair {
    type V = [u8; 64];

    /// The 64 bytes of the key pair.
    closed spec fn view(&self) -> [u8; 64] {
        self.bytes
    }
}

impl Keypair {
    #[verifier::type_invariant]
    spec fn accepted(self) -> bool {
        keypair_public(self.bytes) == Some(self.public)
    }

    /// The key pair that 64 bytes hold. Fails with `SigningError` where the
    /// bytes are no key pair.
    pub fn from_bytes(bytes: [u8; 64]) -> (r: Result<Self, QweryError>)
        ensures
            match r {
                Ok(keypair) => keypair@ == bytes && keypair_public(bytes) is Some,
                Err(e) => keypair_public(bytes) is None && e is SigningError,
            },
    {
        match public_key(&bytes) {
            Some(public) => Ok(Keypair { bytes, public }),
            None => Err(QweryError::SigningError(String::from_str("the bytes are no key pair"))),
        }
    }

    /// The 64 bytes of the key pair.
    pub fn to_bytes(&self) -> (bytes: [u8; 64])
        ensures
            bytes == self@,
    {
        self.bytes
    }

    /// The public key: the identity under which the key pair signs.
    pub fn pubkey(&self) -> (public: [u8; 32])
        ensures
            keypair_public(self@) == Some(public),
    {
        proof {
            use_type_invariant(self);
        }
        self.public
    }
}

/// Whether two arrays hold the same bytes.
fn same_bytes<const N: usize>(a: &[u8; N], b: &[u8; N]) -> (same: bool)
    ensures
        same == (*a == *b),
{
    let mut i: usize = 0;
    while i < N
        invariant
            i <= N,
            forall|k: int| 0 <= k < i ==> a[k] == b[k],
        decreases N - i,
    {
        if a[i] != b[i] {
            return false;
        }
        i += 1;
    }
    assert(*a =~= *b);
    true
}

/// `slot` is the signature slot of `public` in an envelope with this
/// message: the first place among the signers' keys that holds `public`. The
/// signers' keys are the first `num_required_signatures` account keys.
pub open spec fn is_signer_slot(message: MessageView, public: [u8; 32], slot: int) -> bool {
    &&& 0 <= slot < message.header.num_required_signatures
    &&& message.header.num_required_signatures <= message.account_keys.len()
    &&& message.account_keys[slot] == public
    &&& forall|j: int| 0 <= j < slot ==> message.account_keys[j] != public
}

/// The signature slot of `public`, if it has one.
pub open spec fn signer_slot(message: MessageView, public: [u8; 32]) -> Option<int> {
    if exists|slot: int| is_signer_slot(message, public, slot) {
        Some(choose|slot: int| is_signer_slot(message, public, slot))
    } else {
        None
    }
}

/// The envelope that signing `tx` with the key pair `keypair` gives, or
/// `None` where it cannot be signed with it: the bytes are no key pair, the
/// key pair has no signature slot, the envelope has fewer slots than that,
/// or a sequence of the message is too long for the message to have bytes.
///
/// The signature is that of the message's bytes, and goes into the key
/// pair's slot. Nothing else differs.
pub open spec fn signed(tx: TransactionView, keypair: [u8; 64]) -> Option<TransactionView> {
    match keypair_public(keypair) {
        None => None,
        Some(public) => match signer_slot(tx.message, public) {
            None => None,
            Some(slot) => if slot < tx.signatures.len() && tx.message.fits() {
                Some(
                    TransactionView {
                        signatures: tx.signatures.update(
                            slot,
                            keypair_signature(keypair, message_bytes(tx.message)),
                        ),
                        message: tx.message,
                    },
                )
            } else {
                None
            },
        },
    }
}

/// The signature slot of a key pair in an envelope, if it has one.
pub open spec fn slot_of(tx: TransactionView, keypair: [u8; 64]) -> Option<int> {
    match keypair_public(keypair) {
        Some(public) => signer_slot(tx.message, public),
        None => None,
    }
}

/// Signing changes one signature slot, that of the key pair, and nothing
/// else: the message, and with it the blockhash, the number of slots, and
/// what every other slot holds stay as they are. An envelope that fits the
/// binary form still fits it when signed.
pub proof fn lemma_sign_changes_one_slot(tx: TransactionView, keypair: [u8; 64])
    requires
        signed(tx, keypair) is Some,
    ensures
        slot_of(tx, keypair) matches Some(slot) && signed(tx, keypair) matches Some(out) && {
            &&& 0 <= slot < tx.signatures.len()
            &&& out.message == tx.message
            &&& out.signatures.len() == tx.signatures.len()
            &&& out.signatures[slot] == keypair_signature(keypair, message_bytes(tx.message))
            &&& forall|i: int|
                0 <= i < tx.signatures.len() && i != slot ==> out.signatures[i] == tx.signatures[i]
            &&& tx.fits() ==> out.fits()
        },
{
}

/// Two key pairs with different signature slots may sign in either order:
/// the envelope that results is the same, and it holds both signatures, each
/// in the slot of its key pair.
pub proof fn lemma_sign_order(tx: TransactionView, a: [u8; 64], b: [u8; 64])
    requires
        signed(tx, a) is Some,
        signed(tx, b) is Some,
        slot_of(tx, a) != slot_of(tx, b),
    ensures
        signed(signed(tx, a).unwrap(), b) == signed(signed(tx, b).unwrap(), a),
        slot_of(tx, a) matches Some(slot_a) && slot_of(tx, b) matches Some(slot_b) && signed(
            signed(tx, a).unwrap(),
            b,
        ) matches Some(both) && {
            &&& both.signatures[slot_a] == keypair_signature(a, message_bytes(tx.message))
            &&& both.signatures[slot_b] == keypair_signature(b, message_bytes(tx.message))
            &&& both.message == tx.message
        },
{
}

impl Message {
    /// The signature slot of a public key, if it has one.
    pub fn signer_slot(&self, public: &[u8; 32]) -> (r: Option<usize>)
        ensures
            match r {
                Some(slot) => signer_slot(self@, *public) == Some(slot as int),
                None => signer_slot(self@, *public) is None,
            },
    {
        let signers = self.header.num_required_signatures as usize;
        if self.account_keys.len() < signers {
            return None;
        }
        let mut i: usize = 0;
        while i < signers
            invariant
                i <= signers <= self.account_keys.len(),
                signers == self.header.num_required_signatures,
                forall|j: int| 0 <= j < i ==> self@.account_keys[j] != *public,
            decreases signers - i,
        {
            if same_bytes(&self.account_keys[i], public) {
                assert(is_signer_slot(self@, *public, i as int));
                return Some(i);
            }
            i += 1;
        }
        None
    }
}

impl Transaction {
    /// A copy of the envelope in which slot `slot` holds `signature`, or
    /// `None` where the envelope has no such slot.
    pub fn with_signature(&self, slot: usize, signature: [u8; 64]) -> (r: Option<Transaction>)
        ensures
            match r {
                Some(out) => slot < self@.signatures.len() && out@ == (TransactionView {
                    signatures: self@.signatures.update(slot as int, signature),
                    message: self@.message,
                }),
                None => slot >= self@.signatures.len(),
            },
    {
        if slot >= self.signatures.len() {
            return None;
        }
        let mut out = self.clone();
        out.signatures.set(slot, signature);
        Some(out)
    }
}

/// The envelope with one more signature: that of `keypair`, in its slot.
///
/// The envelope given is left as it is, so that a caller may sign it again
/// with another key pair. Fails with `SigningError` where `keypair` has no
/// signature slot in the envelope, where the envelope has fewer slots than
/// that, and where a sequence of the message is too long for the message to
/// have bytes.
pub fn sign(tx: &Transaction, keypair: &Keypair) -> (r: Result<Transaction, QweryError>)
    ensures
        match r {
            Ok(out) => signed(tx@, keypair@) == Some(out@),
            Err(e) => signed(tx@, keypair@) is None && e is SigningError,
        },
{
    let public = keypair.pubkey();
    let slot = match tx.message.signer_slot(&public) {
        Some(slot) => slot,
        None => {
            return Err(
                QweryError::SigningError(
                    String::from_str("the key pair is no signer of the transaction"),
                ),
            );
        },
    };
    if slot >= tx.signatures.len() {
        return Err(
            QweryError::SigningError(
                String::from_str("the transaction has no signature slot for the key pair"),
            ),
        );
    }
    if !tx.message.fits() {
        return Err(
            QweryError::SigningError(String::from_str("the message is too long to be signed")),
        );
    }
    let message = serialize_message(&tx.message);
    let signature = match sign_message(&keypair.bytes, message.as_slice()) {
        Some(signature) => signature,
        None => {
            return Err(QweryError::SigningError(String::from_str("the bytes are no key pair")));
        },
    };
    match tx.with_signature(slot, signature) {
        Some(out) => Ok(out),
        None => Err(
            QweryError::SigningError(
                String::from_str("the transaction has no signature slot for the key pair"),
            ),
        ),
    }
}

} // verus!
