use tastytrade::client::{endpoint, LoginResponse, Method, TastyTrade, BASE_URL};
use tastytrade::decode::Decode;
use tastytrade::envelope::{receive, unwrap_document, Envelope};
use tastytrade::error::{BrokerError, DecodeError, Error};
use tastytrade::json::Json;
use tastytrade::order::Warning;

fn broker(code: &str, message: &str) -> Error {
    Error::Broker(BrokerError { code: code.to_string(), message: message.to_string() })
}

#[test]
fn error_body_is_a_broker_error() {
    let r = receive::<Warning>(r#"{"error":{"code":"x","message":"y"}}"#);
    assert_eq!(r, Err(broker("x", "y")));
}

#[test]
fn error_member_wins_over_data() {
    let r = receive::<Warning>(r#"{"data":{"code":"a","message":"b"},"error":{"code":"x","message":"y","extra":1}}"#);
    assert_eq!(r, Err(broker("x", "y")));
}

#[test]
fn success_body_gives_the_payload() {
    let r = receive::<Warning>(r#"{"data":{"code":"a","message":"b"}}"#);
    assert_eq!(r, Ok(Warning { code: "a".to_string(), message: "b".to_string() }));
}

#[test]
fn bodies_of_neither_shape_are_decode_errors() {
    assert_eq!(receive::<Warning>("not json"), Err(Error::Decode(DecodeError::Malformed)));
    assert_eq!(receive::<Warning>(""), Err(Error::Decode(DecodeError::Malformed)));
    assert_eq!(receive::<Warning>("{}"), Err(Error::Decode(DecodeError::NoEnvelope)));
    assert_eq!(receive::<Warning>("[1]"), Err(Error::Decode(DecodeError::NoEnvelope)));
    assert_eq!(receive::<Warning>(r#"{"error":{"code":"x"}}"#), Err(Error::Decode(DecodeError::Field { key: "message" })));
    assert_eq!(receive::<Warning>(r#"{"error":"x"}"#), Err(Error::Decode(DecodeError::Field { key: "code" })));
    assert_eq!(receive::<Warning>(r#"{"data":{"code":"a"}}"#), Err(Error::Decode(DecodeError::Field { key: "message" })));
    assert_eq!(receive::<String>(r#"{"data":5}"#), Err(Error::Decode(DecodeError::Field { key: "data" })));
}

#[test]
fn envelope_has_two_shapes() {
    let j = Json::parse(r#"{"data":true}"#).unwrap();
    assert_eq!(Envelope::<bool>::decode(&j), Ok(Envelope::Success(true)));
    assert_eq!(Envelope::Success(true).into_result(), Ok(true));
    let j = Json::parse(r#"{"error":{"code":"x","message":"y"}}"#).unwrap();
    let e = Envelope::<bool>::decode(&j).unwrap();
    assert_eq!(e, Envelope::Failure(BrokerError { code: "x".to_string(), message: "y".to_string() }));
    assert_eq!(e.into_result(), Err(broker("x", "y")));
    assert_eq!(unwrap_document::<bool>(&j), Err(broker("x", "y")));
}

#[test]
fn json_reads_and_writes() {
    let j = Json::parse(r#"{"b":[1,2.50,"x",null,true],"a":{}}"#).unwrap();
    assert_eq!(
        j.get("b"),
        Some(&Json::Array(vec![
            Json::Number("1".to_string()),
            Json::Number("2.50".to_string()),
            Json::Text("x".to_string()),
            Json::Null,
            Json::Bool(true)
        ]))
    );
    assert_eq!(j.get("a"), Some(&Json::Object(vec![])));
    assert_eq!(j.get("c"), None);
    assert_eq!(Json::Null.get("a"), None);
    assert_eq!(j.to_text(), r#"{"a":{},"b":[1,2.50,"x",null,true]}"#);
    assert_eq!(Json::Text("a\"b".to_string()).to_text(), r#""a\"b""#);
    assert_eq!(Json::parse("{"), None);
}

#[test]
fn login_request_posts_the_credentials() {
    let q = TastyTrade::login("me", "secret", true);
    assert_eq!(q.method, Method::Post);
    assert_eq!(q.url, "https://api.cert.tastyworks.com/sessions");
    assert!(q.headers.is_empty());
    assert_eq!(
        q.body,
        Some(Json::Object(vec![
            ("login".to_string(), Json::Text("me".to_string())),
            ("password".to_string(), Json::Text("secret".to_string())),
            ("remember-me".to_string(), Json::Bool(true)),
        ]))
    );
    assert_eq!(q.body.unwrap().to_text(), r#"{"login":"me","password":"secret","remember-me":true}"#);
}

#[test]
fn login_response_opens_a_session() {
    let s = TastyTrade::from_login(r#"{"data":{"session-token":"tok","user":{"email":"e"}}}"#).unwrap();
    assert_eq!(s.session_token, "tok");
    assert_eq!(
        LoginResponse::decode(&Json::parse(r#"{"session-token":"t"}"#).unwrap()),
        Ok(LoginResponse { session_token: "t".to_string() })
    );
    assert_eq!(
        TastyTrade::from_login(r#"{"error":{"code":"invalid_credentials","message":"Invalid login"}}"#),
        Err(broker("invalid_credentials", "Invalid login"))
    );
    assert_eq!(TastyTrade::from_login("<html>"), Err(Error::Decode(DecodeError::Malformed)));
    assert_eq!(TastyTrade::from_login(r#"{"data":{}}"#), Err(Error::Decode(DecodeError::Field { key: "session-token" })));
}

#[test]
fn session_requests_carry_the_credential() {
    let s = TastyTrade { session_token: "tok".to_string() };
    let want = vec![
        ("authorization".to_string(), "tok".to_string()),
        ("content-type".to_string(), "application/json".to_string()),
        ("user-agent".to_string(), "tastytrade-rs".to_string()),
    ];
    assert_eq!(s.headers(), want);
    let q = s.get("/customers/me/accounts");
    assert_eq!(q.method, Method::Get);
    assert_eq!(q.url, format!("{}{}", BASE_URL, "/customers/me/accounts"));
    assert_eq!(q.headers, want);
    assert_eq!(q.body, None);
    let q = s.post("/accounts/5WU44237/orders", Json::Bool(false));
    assert_eq!(q.method, Method::Post);
    assert_eq!(q.url, "https://api.cert.tastyworks.com/accounts/5WU44237/orders");
    assert_eq!(q.headers, want);
    assert_eq!(q.body, Some(Json::Bool(false)));
    assert_eq!(endpoint(""), BASE_URL);
}

#[test]
fn many_responses_from_one_session_do_not_mix() {
    let s = TastyTrade { session_token: "tok".to_string() };
    let mut requests = Vec::new();
    let mut results = Vec::new();
    for k in 0..16 {
        requests.push(s.get(&format!("/items/{}", k)));
        results.push(receive::<Warning>(&format!(r#"{{"data":{{"code":"c{}","message":"m{}"}}}}"#, k, k)));
    }
    for k in 0..16 {
        assert_eq!(requests[k].url, format!("{}/items/{}", BASE_URL, k));
        assert_eq!(results[k], Ok(Warning { code: format!("c{}", k), message: format!("m{}", k) }));
    }
    assert_eq!(s.session_token, "tok");
}
