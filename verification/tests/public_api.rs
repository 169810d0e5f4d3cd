use posthog_rs::public_api::{capture_batch_step, capture_outcome, decide_outcome};
use posthog_rs::{APIResult, BatchStep, Client, ClientBuilder, Decide, Error, Method, PublicClient};
use serde_json::Value;

fn client() -> Client<PublicClient> {
    ClientBuilder::new()
        .set_public_api_key("pub_123".to_string())
        .set_endpoint("https://api.example.com".to_string())
        .build()
        .unwrap()
}

fn run_batch(outcomes: &[APIResult<()>]) -> (Vec<usize>, APIResult<()>) {
    let total = outcomes.len();
    let mut captured = Vec::new();
    let mut last = Ok(());
    loop {
        match capture_batch_step(total, captured.len(), last) {
            BatchStep::Capture(index) => {
                captured.push(index);
                last = outcomes[index].clone();
            }
            BatchStep::Done(outcome) => return (captured, outcome),
        }
    }
}

#[test]
fn capture_request_posts_to_the_capture_path() {
    let event: Result<String, serde_json::Error> =
        Ok("{\"event\":\"test\",\"timestamp\":null}".to_string());
    let request = client().capture_request(event).unwrap();
    assert_eq!(request.method, Method::Post);
    assert_eq!(request.url, "https://api.example.com/capture/");
    assert_eq!(
        request.body.as_deref(),
        Some("{\"api_key\":\"pub_123\",\"event\":\"test\",\"timestamp\":null}")
    );
    assert_eq!(request.header("Authorization"), None);
}

#[test]
fn capture_request_refuses_what_is_no_object() {
    let event: Result<String, serde_json::Error> = Ok("[]".to_string());
    assert_eq!(
        client().capture_request(event),
        Err(Error::Serialization("the payload is not a JSON object".to_string()))
    );
}

#[test]
fn capture_request_hands_on_the_encoder_error() {
    let event: Result<String, String> = Err("key must be a string".to_string());
    assert_eq!(
        client().capture_request(event),
        Err(Error::Serialization("key must be a string".to_string()))
    );
}

#[test]
fn decide_request_asks_for_the_user() {
    let request = client().decide_request("1234").unwrap();
    assert_eq!(request.method, Method::Post);
    assert_eq!(request.url, "https://api.example.com/decide?v=3");
    assert_eq!(
        request.body.as_deref(),
        Some("{\"api_key\":\"pub_123\",\"distinct_id\":\"1234\"}")
    );
    assert_eq!(request.header("Authorization"), None);
    assert_eq!(request.header("Content-Type"), Some("application/json"));
}

#[test]
fn decide_request_escapes_the_user() {
    let user = "a \"quoted\" \\ user\t";
    let request = client().decide_request(user).unwrap();
    let mut expected = serde_json::Map::new();
    expected.insert("api_key".to_string(), Value::String("pub_123".to_string()));
    expected.insert("distinct_id".to_string(), Value::String(user.to_string()));
    let body = serde_json::from_str::<Value>(request.body.as_deref().unwrap()).unwrap();
    assert_eq!(body, Value::Object(expected));
}

#[test]
fn decide_payload_is_an_object_with_the_user() {
    assert_eq!(Decide::new("1234"), Decide { distinct_id: "1234".to_string() });
    assert_eq!(Decide::new("1234").to_json(), Ok("{\"distinct_id\":\"1234\"}".to_string()));
    assert_eq!(Decide::new("").to_json(), Ok("{\"distinct_id\":\"\"}".to_string()));
    assert_eq!(
        Decide::new("a\"b").to_json(),
        Ok("{\"distinct_id\":\"a\\\"b\"}".to_string())
    );
}

#[test]
fn empty_batch_is_done_at_once() {
    assert_eq!(capture_batch_step(0, 0, Ok(())), BatchStep::Done(Ok(())));
    assert_eq!(run_batch(&[]), (vec![], Ok(())));
}

#[test]
fn batch_captures_every_event_in_order() {
    assert_eq!(capture_batch_step(3, 0, Ok(())), BatchStep::Capture(0));
    assert_eq!(capture_batch_step(3, 1, Ok(())), BatchStep::Capture(1));
    assert_eq!(capture_batch_step(3, 2, Ok(())), BatchStep::Capture(2));
    assert_eq!(capture_batch_step(3, 3, Ok(())), BatchStep::Done(Ok(())));
    assert_eq!(run_batch(&[Ok(()), Ok(()), Ok(())]), (vec![0, 1, 2], Ok(())));
}

#[test]
fn batch_stops_at_the_first_failure() {
    let failure = Error::Connection("connection refused".to_string());
    assert_eq!(
        capture_batch_step(3, 2, Err(failure.clone())),
        BatchStep::Done(Err(failure.clone()))
    );
    assert_eq!(
        capture_batch_step(3, 3, Err(failure.clone())),
        BatchStep::Done(Err(failure.clone()))
    );
    let later = Error::Serialization("never reached".to_string());
    assert_eq!(
        run_batch(&[Ok(()), Err(failure.clone()), Err(later), Ok(())]),
        (vec![0, 1], Err(failure))
    );
}

#[test]
fn capture_is_done_whatever_the_answer() {
    let answered: APIResult<u16> = Ok(500);
    assert_eq!(capture_outcome(answered), Ok(()));
    let failed: APIResult<u16> = Err(Error::Connection("timed out".to_string()));
    assert_eq!(capture_outcome(failed), Err(Error::Connection("timed out".to_string())));
}

#[test]
fn decoded_flags_come_through_and_decoder_errors_are_serialization_errors() {
    let decoded: Result<Vec<(String, bool)>, String> = Ok(vec![("beta".to_string(), true)]);
    assert_eq!(decide_outcome(decoded), Ok(vec![("beta".to_string(), true)]));
    let broken = serde_json::from_str::<Value>("{\"featureFlags\":");
    let expected = broken.as_ref().unwrap_err().to_string();
    assert_eq!(decide_outcome(broken), Err(Error::Serialization(expected)));
}
