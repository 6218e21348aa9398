//! The transaction envelope: signature slots and the message they sign.
//!
//! Every type here holds plain bytes and integers. Its view is the value that
//! contracts speak of; two envelopes with equal views are the same envelope.

use vstd::prelude::*;

verus! {

/// Largest number of elements that a sequence inside an envelope may hold
/// and still have a binary form.
pub const MAX_SEQUENCE_LEN: usize = 65535;

/// Says how the account keys of a message are divided into signers and
/// read-only accounts.
#[derive(Debug, Clone, Copy, PartialEq, Eq, Structural)]
pub struct MessageHeader {
    /// Number of signatures the message needs; their signers are the first
    /// keys of the account list.
    pub num_required_signatures: u8,
    /// How many of the signing accounts, counted from the last, are read-only.
    pub num_readonly_signed_accounts: u8,
    /// How many of the other accounts, counted from the last, are read-only.
    pub num_readonly_unsigned_accounts: u8,
}

/// One instruction, with accounts given by their index in the account list.
#[derive(Debug)]
pub struct CompiledInstruction {
    /// Index of the account of the program that runs the instruction.
    pub program_id_index: u8,
    /// Indices of the accounts handed to the program, in order.
    pub accounts: Vec<u8>,
    /// Input of the program.
    pub data: Vec<u8>,
}

/// What a `CompiledInstruction` holds.
#[verifier::ext_equal]
pub struct InstructionView {
    pub program_id_index: u8,
    pub accounts: Seq<u8>,
    pub data: Seq<u8>,
}

impl View for CompiledInstruction {
    type V = InstructionView;

    open spec fn view(&self) -> InstructionView {
        InstructionView {
            program_id_index: self.program_id_index,
            accounts: self.accounts@,
            data: self.data@,
        }
    }
}

impl Clone for CompiledInstruction {
    fn clone(&self) -> (copy: Self)
        ensures
            copy@ == self@,
    {
        let accounts = self.accounts.clone();
        let data = self.data.clone();
        CompiledInstruction { program_id_index: self.program_id_index, accounts, data }
    }
}

impl CompiledInstruction {
    /// Whether both sequences are short enough to have a binary form.
    pub fn fits(&self) -> (fits: bool)
        ensures
            fits == self@.fits(),
    {
        self.accounts.len() <= MAX_SEQUENCE_LEN && self.data.len() <= MAX_SEQUENCE_LEN
    }
}

impl InstructionView {
    /// Both sequences are short enough to have a binary form.
    pub open spec fn fits(self) -> bool {
        self.accounts.len() <= MAX_SEQUENCE_LEN && self.data.len() <= MAX_SEQUENCE_LEN
    }
}

/// The part of an envelope that is signed.
#[derive(Debug)]
pub struct Message {
    /// How the account keys are divided.
    pub header: MessageHeader,
    /// Every account the instructions use; the signers come first.
    pub account_keys: Vec<[u8; 32]>,
    /// Identifier of a recent ledger entry.
    pub recent_blockhash: [u8; 32],
    /// The instructions, in the order in which they run.
    pub instructions: Vec<CompiledInstruction>,
}

/// What a `Message` holds.
#[verifier::ext_equal]
pub struct MessageView {
    pub header: MessageHeader,
    pub account_keys: Seq<[u8; 32]>,
    pub recent_blockhash: [u8; 32],
    pub instructions: Seq<InstructionView>,
}

impl View for Message {
    type V = MessageView;

    open spec fn view(&self) -> MessageView {
        MessageView {
            header: self.header,
            account_keys: self.account_keys@,
            recent_blockhash: self.recent_blockhash,
            instructions: self.instructions@.map_values(|i: CompiledInstruction| i@),
        }
    }
}

impl Clone for Message {
    fn clone(&self) -> (copy: Self)
        ensures
            copy@ == self@,
    {
        let mut account_keys: Vec<[u8; 32]> = Vec::new();
        let mut i: usize = 0;
        while i < self.account_keys.len()
            invariant
                i <= self.account_keys.len(),
                account_keys@ == self.account_keys@.subrange(0, i as int),
            decreases self.account_keys.len() - i,
        {
            account_keys.push(self.account_keys[i]);
            i += 1;
        }
        let mut instructions: Vec<CompiledInstruction> = Vec::new();
        let mut j: usize = 0;
        while j < self.instructions.len()
            invariant
                j <= self.instructions.len(),
                instructions.len() == j,
                forall|k: int|
                    0 <= k < j ==> (#[trigger] instructions[k])@ == self.instructions[k]@,
            decreases self.instructions.len() - j,
        {
            instructions.push(self.instructions[j].clone());
            j += 1;
        }
        Message {
            header: self.header,
            account_keys,
            recent_blockhash: self.recent_blockhash,
            instructions,
        }
    }
}

impl Message {
    /// Whether every sequence of the message is short enough to have a
    /// binary form.
    pub fn fits(&self) -> (fits: bool)
        ensures
            fits == self@.fits(),
    {
        if self.account_keys.len() > MAX_SEQUENCE_LEN || self.instructions.len()
            > MAX_SEQUENCE_LEN {
            return false;
        }
        let mut j: usize = 0;
        while j < self.instructions.len()
            invariant
                j <= self.instructions.len(),
                forall|k: int| 0 <= k < j ==> (#[trigger] self@.instructions[k]).fits(),
            decreases self.instructions.len() - j,
        {
            if !self.instructions[j].fits() {
                assert(!self@.instructions[j as int].fits());
                return false;
            }
            j += 1;
        }
        true
    }
}

impl MessageView {
    /// Every sequence of the message is short enough to have a binary form.
    pub open spec fn fits(self) -> bool {
        &&& self.account_keys.len() <= MAX_SEQUENCE_LEN
        &&& self.instructions.len() <= MAX_SEQUENCE_LEN
        &&& forall|i: int|
            0 <= i < self.instructions.len() ==> (#[trigger] self.instructions[i]).fits()
    }
}

/// A transaction envelope: one signature slot per signer, and the message.
#[derive(Debug)]
pub struct Transaction {
    /// The signature slots. Slot `i` belongs to account key `i` of the message.
    pub signatures: Vec<[u8; 64]>,
    /// The message to sign.
    pub message: Message,
}

/// What a `Transaction` holds.
#[verifier::ext_equal]
pub struct TransactionView {
    pub signatures: Seq<[u8; 64]>,
    pub message: MessageView,
}

impl View for Transaction {
    type V = TransactionView;

    open spec fn view(&self) -> TransactionView {
        TransactionView { signatures: self.signatures@, message: self.message@ }
    }
}

impl Clone for Transaction {
    fn clone(&self) -> (copy: Self)
        ensures
            copy@ == self@,
    {
        let mut signatures: Vec<[u8; 64]> = Vec::new();
        let mut i: usize = 0;
        while i < self.signatures.len()
            invariant
                i <= self.signatures.len(),
                signatures@ == self.signatures@.subrange(0, i as int),
            decreases self.signatures.len() - i,
        {
            signatures.push(self.signatures[i]);
            i += 1;
        }
        Transaction { signatures, message: self.message.clone() }
    }
}

impl TransactionView {
    /// Every sequence of the envelope is short enough to have a binary form.
    pub open spec fn fits(self) -> bool {
        self.signatures.len() <= MAX_SEQUENCE_LEN && self.message.fits()
    }
}

} // verus!
