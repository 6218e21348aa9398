use base64::Engine;
use qwery_sdk::{FailureKind, QweryError, RequestFailure};

#[test]
fn a_failure_of_the_transport_becomes_a_request_error() {
    let failure = RequestFailure { kind: FailureKind::Connect, detail: "refused".to_string() };
    match QweryError::from(failure) {
        QweryError::RequestError(f) => {
            assert_eq!(f.kind, FailureKind::Connect);
            assert_eq!(f.detail, "refused");
        }
        other => panic!("unexpected error: {:?}", other),
    }
}

#[test]
fn an_error_of_the_base64_engine_becomes_a_base64_error() {
    let error = base64::engine::general_purpose::STANDARD.decode("a").unwrap_err();
    match QweryError::from(error.clone()) {
        QweryError::Base64Error(e) => assert_eq!(e, error),
        other => panic!("unexpected error: {:?}", other),
    }
}

#[test]
fn the_kinds_of_failure_are_told_apart() {
    let kinds =
        [FailureKind::Timeout, FailureKind::Connect, FailureKind::Decode, FailureKind::Other];
    for (i, a) in kinds.iter().enumerate() {
        for (j, b) in kinds.iter().enumerate() {
            assert_eq!(a == b, i == j);
        }
    }
}

#[test]
fn every_error_says_what_it_is() {
    let shown = format!("{:?}", QweryError::ApiError("no funds".to_string()));
    assert!(shown.contains("ApiError") && shown.contains("no funds"));
    let shown = format!("{:?}", QweryError::ConfigError("no address".to_string()));
    assert!(shown.contains("ConfigError") && shown.contains("no address"));
    let shown = format!("{:?}", QweryError::JsonError("bad number".to_string()));
    assert!(shown.contains("JsonError") && shown.contains("bad number"));
    let shown = format!("{:?}", QweryError::SigningError("no slot".to_string()));
    assert!(shown.contains("SigningError") && shown.contains("no slot"));
    let shown = format!("{:?}", QweryError::SolanaError("cut short".to_string()));
    assert!(shown.contains("SolanaError") && shown.contains("cut short"));
}
