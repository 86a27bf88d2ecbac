//! Dispatcher classification, JSON field access and decimal text.

use neolite::client::interpret_response;
use neolite::error::Error;
use neolite::json::JsonValue;
use neolite::numstr::{parse_u32, u16_to_string, u32_to_string};

fn s(text: &str) -> String {
    text.to_string()
}

fn envelope(data: JsonValue) -> JsonValue {
    JsonValue::Obj(vec![
        (s("success"), JsonValue::Bool(true)),
        (s("code"), JsonValue::Num(200)),
        (s("data"), data),
    ])
}

#[test]
fn ok_envelope_yields_data() {
    let data = JsonValue::Str(s("payload"));
    let body = "{\"success\":true,\"code\":200,\"data\":\"payload\"}";
    let r = interpret_response(200, body, Ok(envelope(data)));
    assert_eq!(r.unwrap(), JsonValue::Str(s("payload")));
}

#[test]
fn created_envelope_yields_data() {
    let data = JsonValue::Num(7);
    let r = interpret_response(201, "{}", Ok(envelope(data)));
    assert_eq!(r.unwrap(), JsonValue::Num(7));
}

#[test]
fn ok_without_data_is_invalid_argument() {
    let body = "{\"success\":true,\"code\":200}";
    let decoded = JsonValue::Obj(vec![
        (s("success"), JsonValue::Bool(true)),
        (s("code"), JsonValue::Num(200)),
    ]);
    let r = interpret_response(200, body, Ok(decoded));
    match r {
        Err(Error::InvalidArgument(m)) => {
            assert_eq!(
                m,
                format!("Incomplete response. Status: 200. Body: {}", body)
            );
        }
        other => panic!("expected InvalidArgument, got {:?}", other.is_ok()),
    }
}

#[test]
fn created_without_data_is_invalid_argument() {
    let body = "[1,2,3]";
    let decoded = JsonValue::Arr(vec![
        JsonValue::Num(1),
        JsonValue::Num(2),
        JsonValue::Num(3),
    ]);
    let r = interpret_response(201, body, Ok(decoded));
    match r {
        Err(Error::InvalidArgument(m)) => {
            assert_eq!(m, format!("Incomplete response. Status: 201. Body: {}", body));
        }
        _ => panic!("expected InvalidArgument"),
    }
}

#[test]
fn not_found_whatever_the_body() {
    let r = interpret_response(404, "{\"data\": 1}", Ok(envelope(JsonValue::Null)));
    match r {
        Err(Error::NotFound(m)) => assert_eq!(m, "Resource not found"),
        _ => panic!("expected NotFound"),
    }
    let r = interpret_response(404, "garbage", Err(s("expected value at line 1")));
    match r {
        Err(Error::NotFound(m)) => assert_eq!(m, "Resource not found"),
        _ => panic!("expected NotFound"),
    }
}

#[test]
fn other_status_reports_status_and_body() {
    let r = interpret_response(500, "boom", Err(s("expected value")));
    match r {
        Err(Error::InvalidArgument(m)) => {
            assert_eq!(m, "Request failed. Status: 500. Body: boom");
        }
        _ => panic!("expected InvalidArgument"),
    }
}

#[test]
fn undecodable_ok_body_is_decode_failure() {
    let r = interpret_response(200, "not json", Err(s("expected value at line 1 column 1")));
    match r {
        Err(Error::InvalidArgument(m)) => {
            assert_eq!(m, "failed to parse json: expected value at line 1 column 1");
        }
        _ => panic!("expected InvalidArgument"),
    }
}

#[test]
fn envelope_without_success_is_malformed() {
    let decoded = JsonValue::Obj(vec![(s("data"), JsonValue::Num(1))]);
    let r = interpret_response(200, "{}", Ok(decoded));
    match r {
        Err(Error::InvalidArgument(m)) => {
            assert_eq!(m, "failed to parse json: response envelope is malformed");
        }
        _ => panic!("expected InvalidArgument"),
    }
}

#[test]
fn envelope_code_out_of_range_is_malformed() {
    let decoded = JsonValue::Obj(vec![
        (s("success"), JsonValue::Bool(true)),
        (s("code"), JsonValue::Num(3000000000)),
        (s("data"), JsonValue::Null),
    ]);
    let r = interpret_response(200, "{}", Ok(decoded));
    match r {
        Err(Error::InvalidArgument(m)) => {
            assert_eq!(m, "failed to parse json: response envelope is malformed");
        }
        _ => panic!("expected InvalidArgument"),
    }
}

#[test]
fn error_messages_are_reachable() {
    assert_eq!(Error::Internal(s("a")).message().as_str(), "a");
    assert_eq!(Error::PermissionDenied(s("b")).message().as_str(), "b");
    assert_eq!(Error::AlreadyExists(s("c")).message().as_str(), "c");
    assert_eq!(Error::NotFound(s("d")).message().as_str(), "d");
    assert_eq!(Error::InvalidArgument(s("e")).message().as_str(), "e");
}

#[test]
fn decimal_rendering_is_exact() {
    assert_eq!(u32_to_string(0), "0");
    assert_eq!(u32_to_string(7), "7");
    assert_eq!(u32_to_string(1538), "1538");
    assert_eq!(u32_to_string(4294967295), "4294967295");
    assert_eq!(u16_to_string(404), "404");
}

#[test]
fn url_is_base_plus_path() {
    let config = neolite::client::Config::new(s("https://api.example.org/v1/neolites"), "tok");
    let client = neolite::client::Client::new(config);
    assert_eq!(
        client.url_for("/products/1538/oss"),
        "https://api.example.org/v1/neolites/products/1538/oss"
    );
    assert_eq!(client.url_for(""), "https://api.example.org/v1/neolites");
    assert_eq!(client.token().as_str(), "tok");
}

#[test]
fn decimal_parsing_is_exact() {
    assert_eq!(parse_u32("0"), Some(0));
    assert_eq!(parse_u32("1538"), Some(1538));
    assert_eq!(parse_u32("4294967295"), Some(4294967295));
    assert_eq!(parse_u32("4294967296"), None);
    assert_eq!(parse_u32(""), None);
    assert_eq!(parse_u32("12a"), None);
    assert_eq!(parse_u32("-3"), None);
}
