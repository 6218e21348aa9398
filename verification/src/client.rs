//! The client: which request each operation of the protocol sends.

use crate::codec::{decode, decoded, encodable, encode, encoded, Malformed};
use crate::error::QweryError;
use crate::protocol::{
    text_of, ApiRequest, Method, Payload, BEARER_PREFIX, CREATE_PATH, HEALTH_PATH,
    REQUEST_TIMEOUT_SECS, SETTLE_PATH, VERIFY_PATH,
};
use crate::signer::{sign, signed, Keypair};
use crate::transaction::TransactionView;
use crate::types::{
    Network, PaymentRequest, PaymentResponse, QweryConfig, SettleRequest, VerifyRequest,
};
use vstd::prelude::*;
use vstd::string::StringExecFns;

verus! {

/// Main client for interacting with the Qwery API. It holds its
/// configuration and nothing else: no operation changes it.
#[derive(Debug, Clone)]
pub struct QweryClient {
    config: QweryConfig,
}

impl View for QweryClient {
    type V = QweryConfig;

    /// The configuration that the client was made with.
    closed spec fn view(&self) -> QweryConfig {
        self.config
    }
}

/// Value of the `Authorization` header under a configuration: the bearer
/// scheme and the key, where a key is configured.
pub open spec fn authorization(config: QweryConfig) -> Option<Seq<char>> {
    match config.api_key {
        Some(key) => Some(BEARER_PREFIX@ + key@),
        None => None,
    }
}

impl QweryClient {
    /// Create a new Qwery client with the specified network, and the default
    /// configuration otherwise.
    pub fn new(network: Network) -> (r: Result<Self, QweryError>)
        ensures
            r matches Ok(client) && client@.network == network && client@.facilitator_url@
                == crate::types::DEFAULT_FACILITATOR_URL@ && client@.api_key is None,
    {
        let defaults = QweryConfig::default();
        let config = QweryConfig {
            network,
            facilitator_url: defaults.facilitator_url,
            api_key: defaults.api_key,
        };
        Self::with_config(config)
    }

    /// Create a new Qwery client with custom configuration. No configuration
    /// is refused: the address is taken as it is written.
    pub fn with_config(config: QweryConfig) -> (r: Result<Self, QweryError>)
        ensures
            r matches Ok(client) && client@ == config,
    {
        Ok(QweryClient { config })
    }

    /// Get the current configuration
    pub fn config(&self) -> (config: &QweryConfig)
        ensures
            *config == self@,
    {
        &self.config
    }

    /// Seconds that the transport allows for each request of this client.
    pub fn timeout_secs(&self) -> (secs: u64)
        ensures
            secs == REQUEST_TIMEOUT_SECS,
    {
        REQUEST_TIMEOUT_SECS
    }

    /// Address of an endpoint: the facilitator's address, then the path.
    fn endpoint(&self, path: &str) -> (url: String)
        ensures
            url@ == self@.facilitator_url@ + path@,
    {
        self.config.facilitator_url.clone().concat(path)
    }

    /// Value of the `Authorization` header of this client's requests.
    fn bearer(&self) -> (header: Option<String>)
        ensures
            text_of(header) == authorization(self@),
    {
        match &self.config.api_key {
            Some(key) => Some(String::from_str(BEARER_PREFIX).concat(key.as_str())),
            None => None,
        }
    }

    /// The request that creates a payment: a POST to the create endpoint,
    /// with the key where one is configured, whose body holds the request
    /// and the client's network.
    pub fn create_payment(&self, request: PaymentRequest) -> (call: ApiRequest)
        ensures
            call.method == Method::Post,
            call.url@ == self@.facilitator_url@ + CREATE_PATH@,
            text_of(call.authorization) == authorization(self@),
            call.body matches Payload::Create { request: sent, network } && sent == request
                && network@ == self@.network.name(),
    {
        ApiRequest {
            method: Method::Post,
            url: self.endpoint(CREATE_PATH),
            authorization: self.bearer(),
            body: Payload::Create {
                request,
                network: String::from_str(self.config.network.as_str()),
            },
        }
    }

    /// Signs the transaction of a payment and gives the request that
    /// settles the payment with it: the transaction is decoded, signed with
    /// `keypair`, encoded again, and put into a settlement request under the
    /// payment's identifier.
    ///
    /// All of this is local. Where the transaction text holds no envelope the
    /// result is `Base64Error` or `SolanaError`, where the envelope cannot be
    /// signed with `keypair` it is `SigningError`, and where the signed
    /// envelope has no text it is `SolanaError`; in each of these cases there
    /// is no request, so nothing is sent. The payment given is left as it is.
    pub fn sign_and_settle(&self, payment: &PaymentResponse, keypair: &Keypair) -> (r: Result<
        ApiRequest,
        QweryError,
    >)
        ensures
            match decoded(payment.transaction@) {
                Err(Malformed::Encoding) => r matches Err(QweryError::Base64Error(_)),
                Err(Malformed::Structure) => r matches Err(QweryError::SolanaError(_)),
                Ok(tx) => match signed(tx, keypair@) {
                    None => r matches Err(QweryError::SigningError(_)),
                    Some(out) => if encodable(out) {
                        &&& r matches Ok(call)
                        &&& call.method == Method::Post
                        &&& call.url@ == self@.facilitator_url@ + SETTLE_PATH@
                        &&& text_of(call.authorization) == authorization(self@)
                        &&& call.body matches Payload::Settle(sent)
                        &&& sent.payment_id == payment.payment_id
                        &&& sent.signed_transaction@ == encoded(out)
                        &&& decoded(sent.signed_transaction@) == Ok::<TransactionView, Malformed>(
                            out,
                        )
                    } else {
                        r matches Err(QweryError::SolanaError(_))
                    },
                },
            },
    {
        let transaction = match decode(payment.transaction.as_str()) {
            Ok(transaction) => transaction,
            Err(e) => {
                return Err(e);
            },
        };
        let signed_transaction = match sign(&transaction, keypair) {
            Ok(signed_transaction) => signed_transaction,
            Err(e) => {
                return Err(e);
            },
        };
        let signed_base64 = match encode(&signed_transaction) {
            Ok(signed_base64) => signed_base64,
            Err(e) => {
                return Err(e);
            },
        };
        Ok(
            self.settle_payment(
                SettleRequest {
                    payment_id: payment.payment_id.clone(),
                    signed_transaction: signed_base64,
                },
            ),
        )
    }

    /// The request that settles a payment with a transaction signed
    /// elsewhere: a POST to the settle endpoint, with the key where one is
    /// configured, whose body is `request`.
    pub fn settle_payment(&self, request: SettleRequest) -> (call: ApiRequest)
        ensures
            call.method == Method::Post,
            call.url@ == self@.facilitator_url@ + SETTLE_PATH@,
            text_of(call.authorization) == authorization(self@),
            call.body == Payload::Settle(request),
    {
        ApiRequest {
            method: Method::Post,
            url: self.endpoint(SETTLE_PATH),
            authorization: self.bearer(),
            body: Payload::Settle(request),
        }
    }

    /// The request that verifies a payment by the signature of its
    /// transaction: a POST to the verify endpoint, with the key where one is
    /// configured, whose body holds the signature and the client's network.
    /// It depends on the client and the signature alone, and leaves both as
    /// they are.
    pub fn verify_payment(&self, signature: &str) -> (call: ApiRequest)
        ensures
            call.method == Method::Post,
            call.url@ == self@.facilitator_url@ + VERIFY_PATH@,
            text_of(call.authorization) == authorization(self@),
            call.body matches Payload::Verify(sent) && sent.signature@ == signature@
                && sent.network@ == self@.network.name(),
    {
        ApiRequest {
            method: Method::Post,
            url: self.endpoint(VERIFY_PATH),
            authorization: self.bearer(),
            body: Payload::Verify(
                VerifyRequest {
                    signature: String::from_str(signature),
                    network: String::from_str(self.config.network.as_str()),
                },
            ),
        }
    }

    /// The request that asks for the facilitator's health: a GET of the
    /// health endpoint, without a key and without a body.
    pub fn health(&self) -> (call: ApiRequest)
        ensures
            call.method == Method::Get,
            call.url@ == self@.facilitator_url@ + HEALTH_PATH@,
            call.authorization is None,
            call.body is Empty,
    {
        ApiRequest {
            method: Method::Get,
            url: self.endpoint(HEALTH_PATH),
            authorization: None,
            body: Payload::Empty,
        }
    }
}

} // verus!
