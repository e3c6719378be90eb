use binance_client::client::Client;
use binance_client::query::{canonical, decimal, Param};
use binance_client::signature::signature;

fn param(key: &str, value: &str) -> Param {
    Param { key: key.to_string(), value: value.to_string() }
}

#[test]
fn signature_matches_rfc4231_vector() {
    assert_eq!(
        signature("what do ya want for nothing?", "Jefe"),
        "5bdcc146bf60754e6a042426089575c75a003f089d2739839dec58b964ec3843"
    );
}

#[test]
fn signature_of_empty_message_and_key() {
    assert_eq!(
        signature("", ""),
        "b613679a0814d9ec772f95d778c35fc5ff1697c493715653c6c712144292c5ad"
    );
}

#[test]
fn signature_matches_order_query_vector() {
    let params = "symbol=LTCBTC&side=BUY&type=LIMIT&timeInForce=GTC&quantity=1&price=0.1&recvWindow=5000&timestamp=1499827319559";
    assert_eq!(
        Client::signature(params, "my-test-secret"),
        "db81aab6d0f21901b649edcb3f51e31ccc28716bd75ea085de2a27a661cc0614"
    );
}

#[test]
fn signature_is_deterministic_and_fixed_length() {
    let messages = ["", "a", "timestamp=1", "symbol=BTCUSDT&timestamp=1499827319559"];
    for m in messages.iter() {
        let a = signature(m, "key");
        let b = signature(m, "key");
        assert_eq!(a, b);
        assert_eq!(a.len(), 64);
        assert!(a.chars().all(|c| c.is_ascii_digit() || ('a'..='f').contains(&c)));
    }
}

#[test]
fn signature_changes_with_one_byte_of_message() {
    let base = signature("symbol=BTCUSDT&timestamp=1000", "key");
    assert_ne!(base, signature("symbol=BTCUSDT&timestamp=1001", "key"));
    assert_ne!(base, signature("symbol=BTCUSDS&timestamp=1000", "key"));
    assert_ne!(base, signature("symbol=BTCUSDT&timestamp=1000", "kez"));
}

#[test]
fn decimal_texts() {
    assert_eq!(decimal(0), "0");
    assert_eq!(decimal(7), "7");
    assert_eq!(decimal(10), "10");
    assert_eq!(decimal(-42), "-42");
    assert_eq!(decimal(1499827319559), "1499827319559");
    assert_eq!(decimal(i64::MAX), "9223372036854775807");
    assert_eq!(decimal(i64::MIN), "-9223372036854775808");
}

#[test]
fn canonical_keeps_declared_order() {
    assert_eq!(canonical(&vec![]), "");
    assert_eq!(canonical(&vec![param("symbol", "BTCUSDT")]), "symbol=BTCUSDT");
    assert_eq!(
        canonical(&vec![param("symbol", "BTCUSDT"), param("limit", "5"), param("interval", "1m")]),
        "symbol=BTCUSDT&limit=5&interval=1m"
    );
}
