use newsdata_io::newsdata_io::response::{api_error, decode};
use newsdata_io::{deal_response, dispatch, Auth, Error, QueryMap, Request, TransportOutcome};
use serde_json::{Number, Value};

fn pair(key: &str, value: &str) -> (String, String) {
    (key.to_string(), value.to_string())
}

fn success_document() -> Value {
    let mut document = serde_json::Map::new();
    document.insert("status".to_string(), Value::String("success".to_string()));
    document.insert("results".to_string(), Value::Array(Vec::new()));
    Value::Object(document)
}

#[test]
fn success_body_gives_its_document() {
    let outcome =
        TransportOutcome::Success { body: br#"{"status":"success","results":[]}"#.to_vec() };
    match deal_response(outcome) {
        Ok(document) => assert_eq!(document, success_document()),
        Err(error) => panic!("{}", error.to_string()),
    }
}

#[test]
fn success_body_is_parsed_not_passed_through() {
    let outcome = TransportOutcome::Success {
        body: b" { \"totalResults\" : 2 , \"results\" : [ null , true , \"x\" ] } ".to_vec(),
    };
    let mut expected = serde_json::Map::new();
    expected.insert("totalResults".to_string(), Value::Number(Number::from(2)));
    expected.insert(
        "results".to_string(),
        Value::Array(vec![Value::Null, Value::Bool(true), Value::String("x".to_string())]),
    );
    match deal_response(outcome) {
        Ok(document) => assert_eq!(document, Value::Object(expected)),
        Err(error) => panic!("{}", error.to_string()),
    }
}

#[test]
fn error_status_gives_api_error() {
    let outcome = TransportOutcome::Status {
        status: 401,
        body: br#"{"status":"error","message":"Invalid API key"}"#.to_vec(),
    };
    match deal_response(outcome) {
        Err(Error::ApiError(message)) => {
            assert!(message.contains("Invalid API key"));
            let reread: Value = serde_json::from_str(&message).unwrap();
            let mut expected = serde_json::Map::new();
            expected.insert("status".to_string(), Value::String("error".to_string()));
            expected.insert("message".to_string(), Value::String("Invalid API key".to_string()));
            assert_eq!(reread, Value::Object(expected));
        }
        other => panic!("{other:?}"),
    }
}

#[test]
fn api_error_message_is_the_document_in_compact_form() {
    let outcome = TransportOutcome::Status {
        status: 422,
        body: b"{ \"results\" : { \"code\" : \"UnsupportedFilter\" } }\n".to_vec(),
    };
    match deal_response(outcome) {
        Err(Error::ApiError(message)) => {
            assert_eq!(message, r#"{"results":{"code":"UnsupportedFilter"}}"#)
        }
        other => panic!("{other:?}"),
    }
}

#[test]
fn connection_failure_gives_request_error() {
    let outcome = TransportOutcome::Transport {
        message: "Dns Failed: resolve dns name 'newsdata.io:443'".to_string(),
    };
    match deal_response(outcome) {
        Err(Error::RequestError(message)) => {
            assert_eq!(message, "Dns Failed: resolve dns name 'newsdata.io:443'")
        }
        other => panic!("{other:?}"),
    }
}

#[test]
fn malformed_success_body_gives_malformed_response() {
    for body in [&b""[..], b"<html>", b"{\"status\":", b"{} trailing", b"\xff\xfe"] {
        match deal_response(TransportOutcome::Success { body: body.to_vec() }) {
            Err(Error::MalformedResponse(message)) => assert!(!message.is_empty()),
            other => panic!("{other:?}"),
        }
    }
}

#[test]
fn malformed_error_body_gives_malformed_response() {
    let outcome =
        TransportOutcome::Status { status: 502, body: b"<html>Bad Gateway</html>".to_vec() };
    match deal_response(outcome) {
        Err(Error::MalformedResponse(message)) => {
            assert_eq!(message, "expected value at line 1 column 1")
        }
        other => panic!("{other:?}"),
    }
}

#[test]
fn decode_keeps_a_document() {
    match decode(Ok(success_document())) {
        Ok(document) => assert_eq!(document, success_document()),
        Err(error) => panic!("{}", error.to_string()),
    }
}

#[test]
fn decode_turns_a_parse_failure_into_malformed_response() {
    let failure = serde_json::from_str::<Value>("[1,").unwrap_err();
    let said = failure.to_string();
    match decode(Err(failure)) {
        Err(Error::MalformedResponse(message)) => assert_eq!(message, said),
        other => panic!("{other:?}"),
    }
}

#[test]
fn api_error_writes_the_document() {
    match api_error(&success_document()) {
        Error::ApiError(message) => {
            assert_eq!(message, r#"{"results":[],"status":"success"}"#)
        }
        other => panic!("{other:?}"),
    }
    match api_error(&Value::String("plain".to_string())) {
        Error::ApiError(message) => assert_eq!(message, "\"plain\""),
        other => panic!("{other:?}"),
    }
}

#[test]
fn error_lines() {
    assert_eq!(Error::ApiError("x".to_string()).to_string(), "API error: x");
    assert_eq!(
        Error::RequestError("timed out".to_string()).to_string(),
        "Request error: timed out"
    );
    assert_eq!(
        Error::MalformedResponse("expected value".to_string()).to_string(),
        "Malformed response: expected value"
    );
    assert_eq!(Error::ApiError(String::new()).to_string(), "API error: ");
}

#[test]
fn auth_hands_out_its_key() {
    let auth = Auth::new("SECRET-REDACTED".to_string());
    assert_eq!(auth.get_api_key(), "SECRET-REDACTED");
    assert_eq!(auth.clone().get_api_key(), "SECRET-REDACTED");
    assert_eq!(Auth::new(String::new()).get_api_key(), "");
}

#[test]
fn request_without_parameters_carries_the_key_alone() {
    let auth = Auth::new("KEY".to_string());
    let request = Request::get(&auth, "latest", None);
    assert_eq!(request.url, "https://newsdata.io/api/1/latest");
    assert_eq!(request.query, vec![pair("apikey", "KEY")]);
    assert_eq!(request.headers, vec![pair("Content-Type", "application/json")]);
    let request = Request::get(&auth, "sources", Some(QueryMap::new()));
    assert_eq!(request.url, "https://newsdata.io/api/1/sources");
    assert_eq!(request.query, vec![pair("apikey", "KEY")]);
}

#[test]
fn request_attaches_the_key_first_and_the_parameters_in_order() {
    let mut query = QueryMap::new();
    query.insert("q".to_string(), "rust".to_string());
    query.insert("apikey".to_string(), "other".to_string());
    query.insert("size".to_string(), "5".to_string());
    let request = Request::get(&Auth::new("KEY".to_string()), "archive", Some(query));
    assert_eq!(request.url, "https://newsdata.io/api/1/archive");
    assert_eq!(
        request.query,
        vec![pair("apikey", "KEY"), pair("q", "rust"), pair("apikey", "other"), pair("size", "5")]
    );
}

#[test]
fn dispatch_through_a_stub_transport() {
    let mut params = newsdata_io::apis::GetLatestNewsParams::default();
    params.category = Some(vec!["top".to_string(), "world".to_string()]);
    params.language = Some("en".to_string());
    let request = params.request(&Auth::new("KEY".to_string()));
    let seen = std::cell::RefCell::new(Vec::new());
    let transport = |request: &Request| {
        seen.borrow_mut().push((request.url.clone(), request.query.clone()));
        TransportOutcome::Success { body: br#"{"status":"success","results":[]}"#.to_vec() }
    };
    let first = dispatch(&request, &transport);
    let second = dispatch(&request, &transport);
    assert_eq!(first.ok(), Some(success_document()));
    assert_eq!(second.ok(), Some(success_document()));
    let seen = seen.into_inner();
    assert_eq!(seen.len(), 2);
    assert_eq!(seen[0], seen[1]);
    assert_eq!(seen[0].0, "https://newsdata.io/api/1/latest");
    assert_eq!(
        seen[0].1,
        vec![pair("apikey", "KEY"), pair("category", "top,world"), pair("language", "en")]
    );
}

#[test]
fn dispatch_classifies_what_the_transport_hands_back() {
    let request = Request::get(&Auth::new("bad".to_string()), "latest", None);
    let refused = |_: &Request| TransportOutcome::Status {
        status: 401,
        body: br#"{"status":"error","message":"Invalid API key"}"#.to_vec(),
    };
    match dispatch(&request, refused) {
        Err(Error::ApiError(message)) => assert!(message.contains("Invalid API key")),
        other => panic!("{other:?}"),
    }
    let unreachable =
        |_: &Request| TransportOutcome::Transport { message: "Dns Failed".to_string() };
    match dispatch(&request, unreachable) {
        Err(Error::RequestError(message)) => assert_eq!(message, "Dns Failed"),
        other => panic!("{other:?}"),
    }
}
