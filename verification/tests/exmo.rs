use exmo_exchange::exmo::error::{Error, ErrorContext, ErrorKind, ErrorSource};
use exmo_exchange::exmo::request::{
    order_book_query, order_create_message, order_trades_message, user_trades_message, ExmoCreateOrderResponse,
};
use exmo_exchange::exmo::sign::{sign, to_hex_lower};
use exmo_exchange::order_type::OrderType;

#[test]
fn hex_encoding() {
    assert_eq!(to_hex_lower(&[]), "");
    assert_eq!(to_hex_lower(&[0x00, 0x0f, 0xa5, 0xff]), "000fa5ff");
}

#[test]
fn sign_matches_hmac_sha512_test_vector() {
    // RFC 4231, test case 2
    let s = sign("Jefe", "what do ya want for nothing?");
    assert_eq!(
        s,
        "164b7a7bfcf819e2e395fbe73b56e0a387bd64222e831fd610270cd7ea2505549758bf75c05a994a6d034f65f8f0e6fdcaeab1a34d4a6b4b636e070a38bce737"
    );
    assert_eq!(s.len(), 128);
}

#[test]
fn sign_depends_on_key_and_message() {
    let a = sign("secret", "nonce=1");
    assert_ne!(a, sign("secret", "nonce=2"));
    assert_ne!(a, sign("secret2", "nonce=1"));
    assert_eq!(a, sign("secret", "nonce=1"));
}

#[test]
fn request_bodies() {
    assert_eq!(
        order_create_message(1500, "ETH_BTC", "0.5", OrderType::Sell),
        "nonce=1500&pair=ETH_BTC&quantity=0.5&price=0&type=market_sell"
    );
    assert_eq!(order_trades_message(12, 345), "nonce=12&order_id=345");
    assert_eq!(user_trades_message(-3, "STQ_USD"), "nonce=-3&pair=STQ_USD");
    assert_eq!(order_book_query("BTC_RUB"), "/order_book/?pair=BTC_RUB");
}

#[test]
fn create_order_reply() {
    let ok = ExmoCreateOrderResponse { result: true, error: String::new(), order_id: 77 };
    assert_eq!(ok.order_id_or_error().unwrap(), 77);
    let refused = ExmoCreateOrderResponse { result: false, error: "no funds".to_string(), order_id: 0 };
    match refused.order_id_or_error() {
        Err(Error { kind: ErrorKind::Internal, source: Some(ErrorSource::Json), context: None }) => {}
        other => panic!("unexpected {:?}", other),
    }
}

#[test]
fn exmo_error_texts() {
    assert_eq!(ErrorSource::Utf8.message(), "exmo client source - error parsing bytes to utf8");
    assert_eq!(ErrorContext::NotEnoughAmount.message(), "exmo client context - not enough amount on market");
    let e = Error::new(ErrorKind::Unauthorized, None, Some(ErrorContext::Delay));
    assert!(matches!(e.kind(), ErrorKind::Unauthorized));
}
