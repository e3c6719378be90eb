use binance_client::client::{Client, Method};
use binance_client::error::{ApiError, Error};
use binance_client::response::{decode, Response};

/// The body read as the exchange's error object, if it has that shape.
fn error_attempt(body: &str) -> Option<ApiError> {
    let v: serde_json::Value = serde_json::from_str(body).ok()?;
    let code = v.get("code")?.as_i64()?;
    let msg = v.get("msg")?.as_str()?.to_string();
    Some(ApiError { code, msg })
}

/// The body read as the server-time payload, if it has that shape.
fn server_time_attempt(body: &str) -> Option<i64> {
    let v: serde_json::Value = serde_json::from_str(body).ok()?;
    v.get("serverTime")?.as_i64()
}

/// The body read as an empty payload, if it is an empty object.
fn empty_attempt(body: &str) -> Option<()> {
    let v: serde_json::Value = serde_json::from_str(body).ok()?;
    if v.as_object()?.is_empty() {
        Some(())
    } else {
        None
    }
}

#[test]
fn decode_success_payload() {
    let body = r#"{"serverTime":1499827319559}"#;
    let r = decode(body.to_string(), server_time_attempt(body), error_attempt(body));
    assert_eq!(r.unwrap(), 1499827319559);
}

#[test]
fn decode_error_object() {
    let body = r#"{"code": -1021, "msg": "Timestamp for this request is outside of the recvWindow."}"#;
    let r = decode(body.to_string(), server_time_attempt(body), error_attempt(body));
    match r {
        Err(Error::ResponseError(e)) => {
            assert_eq!(e.code, -1021);
            assert_eq!(e.msg, "Timestamp for this request is outside of the recvWindow.");
        },
        other => panic!("unexpected {:?}", other),
    }
}

#[test]
fn decode_invalid_body_keeps_raw_text() {
    let body = "<html>502 Bad Gateway";
    let r = decode(body.to_string(), server_time_attempt(body), error_attempt(body));
    match r {
        Err(Error::ResponseParsing(raw)) => assert_eq!(raw, body),
        other => panic!("unexpected {:?}", other),
    }
}

#[test]
fn decode_json_of_neither_shape() {
    let body = r#"{"unexpected":true}"#;
    let r = decode(body.to_string(), server_time_attempt(body), error_attempt(body));
    assert!(matches!(r, Err(Error::ResponseParsing(raw)) if raw == body));
}

#[test]
fn decode_prefers_payload_shape() {
    let r = decode(
        "{}".to_string(),
        Some(7u8),
        Some(ApiError { code: -1, msg: "boom".to_string() }),
    );
    assert_eq!(r.unwrap(), 7);
}

#[test]
fn ping_empty_object_succeeds() {
    let c = Client::new(0, 0, 0).unwrap();
    let req = c.ping();
    assert_eq!(req.method, Method::Get);
    assert_eq!(req.url, "https://api.binance.com/api/v3/ping");
    let body = "{}";
    let r = decode(body.to_string(), empty_attempt(body), error_attempt(body));
    assert!(matches!(r, Ok(())));
}

#[test]
fn ping_error_object_is_api_error() {
    let body = r#"{"code":-1,"msg":"boom"}"#;
    let r = decode(body.to_string(), empty_attempt(body), error_attempt(body));
    match r {
        Err(Error::ResponseError(e)) => {
            assert_eq!(e.code, -1);
            assert_eq!(e.msg, "boom");
        },
        other => panic!("unexpected {:?}", other),
    }
}

#[test]
fn response_into_result() {
    let ok: Response<u8> = Response::Success(3);
    assert_eq!(ok.into_result().unwrap(), 3);
    let err: Response<u8> = Response::Failure(ApiError { code: -2, msg: "no".to_string() });
    assert!(matches!(err.into_result(), Err(Error::ResponseError(e)) if e.code == -2 && e.msg == "no"));
}
