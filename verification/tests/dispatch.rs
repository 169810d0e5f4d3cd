use std::collections::BTreeMap;
use std::time::Duration;

use posthog_rs::body::merge_key;
use posthog_rs::client::connection_outcome;
use posthog_rs::{Client, ClientBuilder, Error, Method, PrivateClient, PublicClient, Request};
use serde_json::Value;

fn public_client(key: &str) -> Client<PublicClient> {
    ClientBuilder::new()
        .set_public_api_key(key.to_string())
        .set_endpoint("https://api.example.com".to_string())
        .build()
        .unwrap()
}

fn private_client(key: &str) -> Client<PrivateClient> {
    ClientBuilder::new().set_private_api_key(key.to_string()).build().unwrap()
}

fn text(payload: &str) -> Result<String, serde_json::Error> {
    Ok(payload.to_string())
}

fn body_of(request: &Request) -> serde_json::Map<String, Value> {
    let body = request.body.as_ref().expect("the request has no body");
    match serde_json::from_str::<Value>(body).expect("the body is not JSON") {
        Value::Object(fields) => fields,
        _ => panic!("the body is not an object"),
    }
}

#[test]
fn capture_post_carries_the_key_beside_the_payload() {
    let mut payload = serde_json::Map::new();
    payload.insert("event".to_string(), Value::String("test".to_string()));
    payload.insert("distinct_id".to_string(), Value::String("1234".to_string()));
    let request = public_client("pub_123")
        .post_request_with_body("/capture/".to_string(), serde_json::to_string(&payload))
        .unwrap();

    let mut expected = serde_json::Map::new();
    expected.insert("api_key".to_string(), Value::String("pub_123".to_string()));
    expected.insert("event".to_string(), Value::String("test".to_string()));
    expected.insert("distinct_id".to_string(), Value::String("1234".to_string()));
    assert_eq!(body_of(&request), expected);
    assert_eq!(body_of(&request).len(), 3);
    assert_eq!(request.method, Method::Post);
    assert_eq!(request.url, "https://api.example.com/capture/");
}

#[test]
fn capture_post_body_is_exact() {
    let request = public_client("pub_123")
        .post_request_with_body(
            "/capture/".to_string(),
            text("{\"event\":\"test\",\"distinct_id\":\"1234\"}"),
        )
        .unwrap();
    assert_eq!(
        request.body.as_deref(),
        Some("{\"api_key\":\"pub_123\",\"event\":\"test\",\"distinct_id\":\"1234\"}")
    );
}

#[test]
fn flags_get_carries_the_key_as_bearer_token() {
    let request = private_client("priv_456").get_request("/flags/".to_string());
    assert_eq!(request.method, Method::Get);
    assert_eq!(request.header("Authorization"), Some("Bearer priv_456"));
    assert_eq!(request.body, None);
    assert_eq!(request.url, "https://app.posthog.com/flags/");
}

#[test]
fn private_request_has_two_headers_and_no_body() {
    let request = private_client("priv_456").get_request("/api/projects/".to_string());
    assert_eq!(request.headers.len(), 2);
    assert_eq!(request.headers[0].name, "Content-Type");
    assert_eq!(request.headers[0].value, "application/json");
    assert_eq!(request.headers[1].name, "Authorization");
    assert_eq!(request.headers[1].value, "Bearer priv_456");
    assert!(request.body.is_none());
}

#[test]
fn public_request_has_no_authorization_header() {
    let request = public_client("pub_123")
        .post_request_with_body("/capture/".to_string(), text("{\"event\":\"test\"}"))
        .unwrap();
    assert_eq!(request.header("Authorization"), None);
    assert_eq!(request.headers.len(), 1);
    assert_eq!(request.header("Content-Type"), Some("application/json"));
    assert_eq!(body_of(&request).get("api_key"), Some(&Value::String("pub_123".to_string())));
}

#[test]
fn header_lookup_finds_nothing_under_another_name() {
    let request = private_client("priv_456").get_request("/flags/".to_string());
    assert_eq!(request.header("Accept"), None);
    assert_eq!(request.header(""), None);
}

#[test]
fn requests_carry_the_timeout_of_the_client() {
    let public = ClientBuilder::new()
        .set_public_api_key("pub_123".to_string())
        .set_timeout(Duration::from_secs(7))
        .build()
        .unwrap();
    let posted = public.post_request_with_body("/capture/".to_string(), text("{}")).unwrap();
    assert_eq!(posted.timeout, Duration::from_secs(7));

    let private = ClientBuilder::new()
        .set_private_api_key("priv_456".to_string())
        .set_timeout(Duration::from_secs(9))
        .build()
        .unwrap();
    assert_eq!(private.get_request("/flags/".to_string()).timeout, Duration::from_secs(9));
}

#[test]
fn url_is_the_base_with_the_path_behind_it() {
    let client = ClientBuilder::new()
        .set_private_api_key("priv_456".to_string())
        .set_endpoint("http://localhost:8000".to_string())
        .build()
        .unwrap();
    assert_eq!(client.get_request("/flags/".to_string()).url, "http://localhost:8000/flags/");
    assert_eq!(client.get_request(String::new()).url, "http://localhost:8000");
}

#[test]
fn a_key_with_quotes_is_escaped_in_the_body() {
    let key = "k\"e\\y\n";
    let request = public_client(key)
        .post_request_with_body("/capture/".to_string(), text("{\"event\":\"test\"}"))
        .unwrap();
    assert_eq!(
        request.body.as_deref(),
        Some("{\"api_key\":\"k\\\"e\\\\y\\n\",\"event\":\"test\"}")
    );
    assert_eq!(body_of(&request).get("api_key"), Some(&Value::String(key.to_string())));
}

#[test]
fn a_key_beyond_ascii_stands_in_the_body_as_it_is() {
    let key = "clé-鍵";
    let request = public_client(key)
        .post_request_with_body("/capture/".to_string(), text("{\"a\":\"é\"}"))
        .unwrap();
    assert_eq!(request.body.as_deref(), Some("{\"api_key\":\"clé-鍵\",\"a\":\"é\"}"));
}

#[test]
fn the_empty_object_gets_the_key_as_its_only_field() {
    let request =
        public_client("pub_123").post_request_with_body("/capture/".to_string(), text("{}")).unwrap();
    assert_eq!(request.body.as_deref(), Some("{\"api_key\":\"pub_123\"}"));
}

#[test]
fn a_payload_of_nothing_gets_the_key_as_its_only_field() {
    let nothing: Option<serde_json::Map<String, Value>> = None;
    let request = public_client("pub_123")
        .post_request_with_body("/capture/".to_string(), serde_json::to_string(&nothing))
        .unwrap();
    assert_eq!(request.body.as_deref(), Some("{\"api_key\":\"pub_123\"}"));
}

#[test]
fn a_payload_that_is_no_object_is_a_serialization_error() {
    let client = public_client("pub_123");
    for payload in ["[1,2]", "3", "\"text\"", "true", "", "{", "}", "{ }", " {}", "nul", "{\"a\":1} "] {
        match client.post_request_with_body("/capture/".to_string(), text(payload)) {
            Err(Error::Serialization(message)) => {
                assert_eq!(message, "the payload is not a JSON object")
            }
            _ => panic!("accepted the payload {:?}", payload),
        }
    }
}

#[test]
fn an_encoder_error_is_a_serialization_error_with_its_text() {
    let mut keyed_by_pairs = BTreeMap::new();
    keyed_by_pairs.insert((1, 2), 3);
    let encoded = serde_json::to_string(&keyed_by_pairs);
    let expected = encoded.as_ref().unwrap_err().to_string();
    match public_client("pub_123").post_request_with_body("/capture/".to_string(), encoded) {
        Err(Error::Serialization(message)) => assert_eq!(message, expected),
        _ => panic!("an encoder error did not come through"),
    }
}

#[test]
fn nested_payload_fields_are_kept_as_they_stand() {
    let payload = "{\"event\":\"e\",\"properties\":{\"distinct_id\":\"1\",\"props\":{\"k\":[1,2]}},\"timestamp\":null}";
    let request =
        public_client("pub_123").post_request_with_body("/capture/".to_string(), text(payload)).unwrap();
    let body = request.body.unwrap();
    assert_eq!(body, format!("{{\"api_key\":\"pub_123\",{}", &payload[1..]));
    let parsed = serde_json::from_str::<Value>(&body).unwrap();
    assert_eq!(parsed.get("timestamp"), Some(&Value::Null));
    assert_eq!(
        parsed.get("properties").and_then(|p| p.get("distinct_id")),
        Some(&Value::String("1".to_string()))
    );
}

#[test]
fn merge_key_joins_the_key_and_the_fields() {
    assert_eq!(
        merge_key("\"k\"", "{\"a\":1}"),
        Some("{\"api_key\":\"k\",\"a\":1}".to_string())
    );
    assert_eq!(merge_key("\"k\"", "{}"), Some("{\"api_key\":\"k\"}".to_string()));
    assert_eq!(merge_key("\"k\"", "null"), Some("{\"api_key\":\"k\"}".to_string()));
    assert_eq!(merge_key("\"\"", "{\"é\":\"ü\"}"), Some("{\"api_key\":\"\",\"é\":\"ü\"}".to_string()));
}

#[test]
fn merge_key_refuses_what_is_no_object() {
    for payload in ["", "{", "[]", "[{}]", "0", "nulll", "{a}", "{\"a\":1}]", "{1}"] {
        assert_eq!(merge_key("\"k\"", payload), None, "payload {:?}", payload);
    }
}

#[test]
fn a_client_serves_any_number_of_requests() {
    let client = public_client("pub_123");
    let first = client.post_request_with_body("/capture/".to_string(), text("{\"n\":1}")).unwrap();
    let failed = client.post_request_with_body("/capture/".to_string(), text("[]"));
    let second = client.post_request_with_body("/capture/".to_string(), text("{\"n\":1}")).unwrap();
    assert!(failed.is_err());
    assert_eq!(first, second);

    let private = private_client("priv_456");
    assert_eq!(private.get_request("/flags/".to_string()), private.get_request("/flags/".to_string()));
}

#[test]
fn a_response_comes_through_as_it_is() {
    let sent: Result<u16, String> = Ok(404);
    assert_eq!(connection_outcome(sent), Ok(404));
}

#[test]
fn a_transport_failure_is_a_connection_error_with_its_text() {
    let sent: Result<u16, String> = Err("operation timed out".to_string());
    assert_eq!(
        connection_outcome(sent),
        Err(Error::Connection("operation timed out".to_string()))
    );
}

fn shared_between_threads<T: Send + Sync>(_: &T) {}

#[test]
fn a_client_can_be_shared_between_threads() {
    let public = public_client("pub_123");
    let private = private_client("priv_456");
    shared_between_threads(&public);
    shared_between_threads(&private);
    let request = private.get_request("/flags/".to_string());
    shared_between_threads(&request);
}

#[test]
fn a_payload_with_an_api_key_of_its_own_keeps_it_behind_the_key_of_the_client() {
    let request = public_client("pub_123")
        .post_request_with_body("/capture/".to_string(), text("{\"api_key\":\"other\",\"a\":1}"))
        .unwrap();
    assert_eq!(
        request.body.as_deref(),
        Some("{\"api_key\":\"pub_123\",\"api_key\":\"other\",\"a\":1}")
    );
}
