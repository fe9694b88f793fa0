use tachyon::ResponseState;
use tachyon::TachyonResponse;

#[test]
fn fresh_response_is_empty_200() {
    let state = ResponseState::new();
    assert_eq!(state.get_status(), 200);
    assert!(state.get_data().is_none());
    let shared = TachyonResponse::new();
    assert_eq!(shared.get_status(), 200);
    assert!(shared.get_data().is_none());
}

#[test]
fn second_send_wins() {
    let mut state = ResponseState::new();
    state.send(String::from("first"));
    state.send(String::from("second"));
    assert_eq!(state.take_data(), Some(String::from("second")));
}

#[test]
fn take_is_one_shot() {
    let mut state = ResponseState::new();
    state.send(String::from("payload"));
    assert_eq!(state.take_data(), Some(String::from("payload")));
    assert_eq!(state.take_data(), None);
    assert_eq!(state.get_status(), 200);
}

#[test]
fn peek_does_not_drain() {
    let mut state = ResponseState::new();
    state.send(String::from("x"));
    assert_eq!(state.get_data(), Some(String::from("x")));
    assert_eq!(state.get_data(), Some(String::from("x")));
    assert_eq!(state.take_data(), Some(String::from("x")));
    assert_eq!(state.get_data(), None);
}

#[test]
fn status_writes_last_wins() {
    let mut state = ResponseState::new();
    state.set_status(301);
    state.set_status(204);
    assert_eq!(state.get_status(), 204);
}

#[test]
fn shared_handles_see_one_state() {
    let response = TachyonResponse::new();
    let handler_side = response.clone();
    handler_side.send(Some(serde_json::Value::Bool(true)));
    assert_eq!(response.get_data(), Some(String::from("true")));
    let chained = response.status(418);
    assert_eq!(handler_side.get_status(), 418);
    chained.status(200);
    assert_eq!(response.get_status(), 200);
}

#[test]
fn shared_second_send_wins_and_take_drains() {
    let response = TachyonResponse::new();
    let writer = response.handle();
    writer.send(Some(serde_json::Value::String(String::from("a"))));
    writer.send(Some(serde_json::Value::String(String::from("b"))));
    assert_eq!(response.take_data(), Some(String::from("\"b\"")));
    assert_eq!(response.take_data(), None);
}

#[test]
fn send_json_stores_the_serialized_value() {
    let response = TachyonResponse::new();
    response.send_json(serde_json::Value::Array(vec![
        serde_json::Value::Bool(true),
        serde_json::Value::Null,
    ]));
    assert_eq!(response.take_data(), Some(String::from("[true,null]")));
}

#[test]
fn send_none_encodes_null() {
    let response = TachyonResponse::new();
    response.send(None);
    assert_eq!(response.take_data(), Some(String::from("null")));
}

#[test]
fn late_write_lands_on_drained_response_only() {
    let response = TachyonResponse::new();
    let slow_handler = response.clone();
    // the dispatcher gives up and drains the (empty) response
    assert_eq!(response.take_data(), None);
    // the handler's late write lands on the old response...
    slow_handler.send(Some(serde_json::Value::Bool(false)));
    // ...and a fresh response for the next cycle is untouched
    let fresh = TachyonResponse::new();
    assert_eq!(fresh.get_data(), None);
    assert_eq!(fresh.get_status(), 200);
    assert_eq!(response.take_data(), Some(String::from("false")));
}
