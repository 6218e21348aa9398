//! Data carried between the caller, the client and the facilitator.

use std::collections::HashMap;
use vstd::prelude::*;
use vstd::string::StringExecFns;

verus! {

/// Address of the facilitator that a client talks to unless told otherwise.
pub const DEFAULT_FACILITATOR_URL: &'static str = "https://facilitator.qwery.xyz";

/// Ledger environment a client talks to.
#[derive(Debug, Clone, Copy, PartialEq, Eq, Structural)]
pub enum Network {
    /// Solana Mainnet
    Mainnet,
    /// Solana Devnet (for testing)
    Devnet,
}

impl Network {
    /// The identifier of the network on the wire.
    pub open spec fn name(self) -> Seq<char> {
        match self {
            Network::Mainnet => "solana"@,
            Network::Devnet => "solana-devnet"@,
        }
    }

    /// Get the network name as a string
    pub fn as_str(&self) -> (s: &'static str)
        ensures
            s@ == self.name(),
    {
        match self {
            Network::Mainnet => "solana",
            Network::Devnet => "solana-devnet",
        }
    }
}

/// Configuration for the Qwery client
#[derive(Debug, Clone)]
pub struct QweryConfig {
    /// Facilitator API URL
    pub facilitator_url: String,
    /// Network to use
    pub network: Network,
    /// Optional API key
    pub api_key: Option<String>,
}

impl Default for QweryConfig {
    /// The public facilitator, on Mainnet, without a key.
    fn default() -> (config: Self)
        ensures
            config.facilitator_url@ == DEFAULT_FACILITATOR_URL@,
            config.network == Network::Mainnet,
            config.api_key is None,
    {
        QweryConfig {
            facilitator_url: String::from_str(DEFAULT_FACILITATOR_URL),
            network: Network::Mainnet,
            api_key: None,
        }
    }
}

/// An amount of a token, held as the 64 bits of the IEEE 754 double that
/// stands for it on the wire. The client carries amounts and never computes
/// with them.
#[derive(Debug, Clone, Copy, PartialEq, Eq, Structural)]
pub struct Amount {
    /// The bits of the double.
    pub bits: u64,
}

impl Amount {
    /// The amount whose double has these bits.
    pub fn from_bits(bits: u64) -> (amount: Self)
        ensures
            amount.bits == bits,
    {
        Amount { bits }
    }

    /// The bits of the double that stands for the amount.
    pub fn to_bits(&self) -> (bits: u64)
        ensures
            bits == self.bits,
    {
        self.bits
    }
}

/// Request to create a payment
#[derive(Debug, Clone)]
pub struct PaymentRequest {
    /// Amount to pay
    pub amount: Amount,
    /// Token to use (SOL, USDC, USDT)
    pub token: String,
    /// Recipient wallet address
    pub recipient: String,
    /// Optional metadata
    pub metadata: Option<HashMap<String, String>>,
}

/// Response from creating a payment
#[derive(Debug, Clone)]
pub struct PaymentResponse {
    /// Unique payment ID
    pub payment_id: String,
    /// Base64 encoded transaction to sign
    pub transaction: String,
    /// Amount in token
    pub amount: Amount,
    /// Token used
    pub token: String,
    /// Recipient address
    pub recipient: String,
    /// Network used
    pub network: String,
    /// Payment status
    pub status: String,
    /// Expiration timestamp
    pub expires_at: Option<String>,
}

/// Request to settle a payment
#[derive(Debug, Clone)]
pub struct SettleRequest {
    /// Payment ID to settle
    pub payment_id: String,
    /// Base64 encoded signed transaction
    pub signed_transaction: String,
}

/// Response from settling a payment
#[derive(Debug, Clone)]
pub struct SettleResponse {
    /// Whether settlement was successful
    pub success: bool,
    /// Transaction signature
    pub signature: Option<String>,
    /// Payment status
    pub status: String,
    /// Error message if failed
    pub error: Option<String>,
}

/// Request to verify a payment
#[derive(Debug, Clone)]
pub struct VerifyRequest {
    /// Transaction signature to verify
    pub signature: String,
    /// Network to verify on
    pub network: String,
}

/// Response from verifying a payment
#[derive(Debug, Clone)]
pub struct VerifyResponse {
    /// Whether the payment is verified
    pub verified: bool,
    /// Payment status
    pub status: String,
    /// Confirmation count
    pub confirmations: Option<u64>,
}

/// Health status of the facilitator
#[derive(Debug, Clone)]
pub struct HealthResponse {
    /// Overall status
    pub status: String,
    /// API version
    pub version: String,
    /// Network statuses
    pub networks: HashMap<String, String>,
}

} // verus!
