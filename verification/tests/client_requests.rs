use qwery_sdk::protocol::{
    BEARER_PREFIX, CREATE_PATH, HEALTH_PATH, REQUEST_TIMEOUT_SECS, SETTLE_PATH, VERIFY_PATH,
};
use qwery_sdk::types::DEFAULT_FACILITATOR_URL;
use qwery_sdk::{
    Amount, Method, Network, Payload, PaymentRequest, QweryClient, QweryConfig, SettleRequest,
};
use std::collections::HashMap;

fn devnet_with_key() -> QweryClient {
    QweryClient::with_config(QweryConfig {
        facilitator_url: "http://localhost:8080".to_string(),
        network: Network::Devnet,
        api_key: Some("k-123".to_string()),
    })
    .unwrap()
}

fn one_cent_of_sol() -> PaymentRequest {
    PaymentRequest {
        amount: Amount::from_bits(0.01f64.to_bits()),
        token: "SOL".to_string(),
        recipient: "R".to_string(),
        metadata: None,
    }
}

#[test]
fn the_words_of_the_wire() {
    assert_eq!(CREATE_PATH, "/payments/create");
    assert_eq!(SETTLE_PATH, "/payments/settle");
    assert_eq!(VERIFY_PATH, "/payments/verify");
    assert_eq!(HEALTH_PATH, "/health");
    assert_eq!(BEARER_PREFIX, "Bearer ");
    assert_eq!(REQUEST_TIMEOUT_SECS, 30);
    assert_eq!(DEFAULT_FACILITATOR_URL, "https://facilitator.qwery.xyz");
}

#[test]
fn default_config_is_the_public_facilitator_on_mainnet() {
    let config = QweryConfig::default();
    assert_eq!(config.facilitator_url, "https://facilitator.qwery.xyz");
    assert_eq!(config.network, Network::Mainnet);
    assert_eq!(config.api_key, None);
}

#[test]
fn new_takes_the_network_and_the_defaults() {
    let client = QweryClient::new(Network::Devnet).unwrap();
    assert_eq!(client.config().network, Network::Devnet);
    assert_eq!(client.config().facilitator_url, "https://facilitator.qwery.xyz");
    assert_eq!(client.config().api_key, None);
    let client = QweryClient::new(Network::Mainnet).unwrap();
    assert_eq!(client.config().network, Network::Mainnet);
}

#[test]
fn with_config_keeps_the_configuration() {
    let client = devnet_with_key();
    assert_eq!(client.config().facilitator_url, "http://localhost:8080");
    assert_eq!(client.config().network, Network::Devnet);
    assert_eq!(client.config().api_key, Some("k-123".to_string()));
    assert_eq!(client.timeout_secs(), 30);
}

#[test]
fn with_config_refuses_no_configuration() {
    let client = QweryClient::with_config(QweryConfig {
        facilitator_url: String::new(),
        network: Network::Mainnet,
        api_key: Some(String::new()),
    })
    .unwrap();
    let call = client.health();
    assert_eq!(call.url, "/health");
    assert_eq!(client.verify_payment("s").authorization, Some("Bearer ".to_string()));
}

#[test]
fn amount_keeps_the_bits_of_the_double() {
    let amount = Amount::from_bits(0.01f64.to_bits());
    assert_eq!(amount.to_bits(), 0x3f84_7ae1_47ae_147b);
    assert_eq!(f64::from_bits(amount.to_bits()), 0.01);
    assert_eq!(amount, Amount { bits: 0x3f84_7ae1_47ae_147b });
}

#[test]
fn create_payment_posts_the_request_and_the_network() {
    let call = devnet_with_key().create_payment(one_cent_of_sol());
    assert_eq!(call.method, Method::Post);
    assert_eq!(call.url, "http://localhost:8080/payments/create");
    assert_eq!(call.authorization, Some("Bearer k-123".to_string()));
    match call.body {
        Payload::Create { request, network } => {
            assert_eq!(f64::from_bits(request.amount.to_bits()), 0.01);
            assert_eq!(request.token, "SOL");
            assert_eq!(request.recipient, "R");
            assert_eq!(request.metadata, None);
            assert_eq!(network, "solana-devnet");
        }
        other => panic!("unexpected body: {:?}", other),
    }
}

#[test]
fn create_payment_carries_the_metadata() {
    let mut metadata = HashMap::new();
    metadata.insert("order".to_string(), "17".to_string());
    let mut request = one_cent_of_sol();
    request.metadata = Some(metadata.clone());
    let call = QweryClient::new(Network::Mainnet).unwrap().create_payment(request);
    assert_eq!(call.url, "https://facilitator.qwery.xyz/payments/create");
    assert_eq!(call.authorization, None);
    match call.body {
        Payload::Create { request, network } => {
            assert_eq!(request.metadata, Some(metadata));
            assert_eq!(network, "solana");
        }
        other => panic!("unexpected body: {:?}", other),
    }
}

#[test]
fn settle_payment_posts_the_request_as_it_is() {
    let call = devnet_with_key().settle_payment(SettleRequest {
        payment_id: "pay-17".to_string(),
        signed_transaction: "AAAA".to_string(),
    });
    assert_eq!(call.method, Method::Post);
    assert_eq!(call.url, "http://localhost:8080/payments/settle");
    assert_eq!(call.authorization, Some("Bearer k-123".to_string()));
    match call.body {
        Payload::Settle(request) => {
            assert_eq!(request.payment_id, "pay-17");
            assert_eq!(request.signed_transaction, "AAAA");
        }
        other => panic!("unexpected body: {:?}", other),
    }
}

#[test]
fn verify_payment_posts_the_signature_and_the_network() {
    let call = devnet_with_key().verify_payment("abc");
    assert_eq!(call.method, Method::Post);
    assert_eq!(call.url, "http://localhost:8080/payments/verify");
    assert_eq!(call.authorization, Some("Bearer k-123".to_string()));
    match call.body {
        Payload::Verify(request) => {
            assert_eq!(request.signature, "abc");
            assert_eq!(request.network, "solana-devnet");
        }
        other => panic!("unexpected body: {:?}", other),
    }
}

#[test]
fn verify_payment_asks_the_same_each_time() {
    let client = devnet_with_key();
    let first = client.verify_payment("abc");
    for _ in 0..5 {
        let next = client.verify_payment("abc");
        assert_eq!(next.method, first.method);
        assert_eq!(next.url, first.url);
        assert_eq!(next.authorization, first.authorization);
        match (&next.body, &first.body) {
            (Payload::Verify(a), Payload::Verify(b)) => {
                assert_eq!(a.signature, b.signature);
                assert_eq!(a.network, b.network);
            }
            other => panic!("unexpected bodies: {:?}", other),
        }
    }
    assert_eq!(client.config().api_key, Some("k-123".to_string()));
}

#[test]
fn health_gets_without_key_and_body() {
    let call = devnet_with_key().health();
    assert_eq!(call.method, Method::Get);
    assert_eq!(call.url, "http://localhost:8080/health");
    assert_eq!(call.authorization, None);
    assert!(matches!(call.body, Payload::Empty));
}

#[test]
fn no_key_means_no_authorization() {
    let client = QweryClient::new(Network::Mainnet).unwrap();
    assert_eq!(client.create_payment(one_cent_of_sol()).authorization, None);
    assert_eq!(client.verify_payment("abc").authorization, None);
    let settle = client.settle_payment(SettleRequest {
        payment_id: "p".to_string(),
        signed_transaction: "t".to_string(),
    });
    assert_eq!(settle.authorization, None);
}
