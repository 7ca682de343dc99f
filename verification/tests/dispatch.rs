use frame::error::BridgeError;
use frame::event_loop::{LoopAction, LoopEvent, NativeLoop};
use frame::ipc_req::{
    handle_ipc_req, interpret_reply, CallbackReply, Dispatch, HeaderField, InboundRequest,
    SerdeRequest,
};
use frame::RuntimeMessage;
use std::cell::RefCell;

fn ping_request() -> InboundRequest<String> {
    InboundRequest {
        method: "POST".to_string(),
        uri: "/api/call".to_string(),
        version: "HTTP/1.1".to_string(),
        headers: vec![HeaderField {
            name: "content-type".to_string(),
            value: b"text/plain".to_vec(),
        }],
        body: "ping".to_string(),
    }
}

const PING_JSON: &str = "{\n  \"body\": \"ping\",\n  \"headers\": {\n    \"content-type\": \"text/plain\"\n  },\n  \"method\": \"POST\",\n  \"uri\": \"/api/call\",\n  \"version\": \"HTTP/1.1\"\n}";

#[test]
fn dispatch_of_post_request_posts_exactly_one_eval() {
    let seen: RefCell<Vec<String>> = RefCell::new(Vec::new());
    let handler = |text: String| {
        seen.borrow_mut().push(text);
        CallbackReply::Script("document.title='x'".to_string())
    };
    let outcome = handle_ipc_req(&handler, ping_request());
    assert_eq!(seen.borrow().len(), 1);
    assert_eq!(seen.borrow()[0], PING_JSON);
    assert_eq!(
        outcome,
        Dispatch::Forward(RuntimeMessage::Eval("document.title='x'".to_string()))
    );

    let mut event_loop = NativeLoop::new();
    let mut delivered = Vec::new();
    if let Some(instruction) = outcome.instruction() {
        delivered.push(event_loop.handle(LoopEvent::UserEvent(instruction)));
    }
    assert_eq!(delivered, vec![LoopAction::Evaluate("document.title='x'".to_string())]);
}

#[test]
fn dispatch_with_silent_callback_posts_nothing() {
    let handler = |_text: String| CallbackReply::Nothing;
    let outcome = handle_ipc_req(&handler, ping_request());
    assert_eq!(outcome, Dispatch::Idle);
    assert_eq!(outcome.failure(), None);
    assert_eq!(outcome.instruction(), None);
}

#[test]
fn dispatch_with_script_posts_that_exact_script() {
    let script = "window.alert(\"a\\nb\"); // ünïcode ✓";
    let handler = |_text: String| CallbackReply::Script(script.to_string());
    let outcome = handle_ipc_req(&handler, ping_request());
    assert_eq!(outcome.instruction(), Some(RuntimeMessage::Eval(script.to_string())));
}

#[test]
fn dispatch_with_empty_script_still_posts_eval() {
    let handler = |_text: String| CallbackReply::Script(String::new());
    let outcome = handle_ipc_req(&handler, ping_request());
    assert_eq!(outcome, Dispatch::Forward(RuntimeMessage::Eval(String::new())));
}

#[test]
fn dispatch_swallows_callback_failure() {
    let handler = |_text: String| CallbackReply::Failed("TypeError: boom".to_string());
    let outcome = handle_ipc_req(&handler, ping_request());
    assert_eq!(
        outcome,
        Dispatch::Swallowed(BridgeError::CallbackFailure("TypeError: boom".to_string()))
    );
    assert_eq!(
        outcome.failure(),
        Some(&BridgeError::CallbackFailure("TypeError: boom".to_string()))
    );
    assert_eq!(outcome.instruction(), None);
}

#[test]
fn dispatch_calls_the_callback_once_per_request() {
    let calls = RefCell::new(0u32);
    let handler = |_text: String| {
        *calls.borrow_mut() += 1;
        CallbackReply::Nothing
    };
    handle_ipc_req(&handler, ping_request());
    handle_ipc_req(&handler, ping_request());
    handle_ipc_req(&handler, ping_request());
    assert_eq!(*calls.borrow(), 3);
}

#[test]
fn dispatch_hands_the_callback_normalized_headers() {
    let seen: RefCell<Vec<String>> = RefCell::new(Vec::new());
    let handler = |text: String| {
        seen.borrow_mut().push(text);
        CallbackReply::Nothing
    };
    let mut request = ping_request();
    request.headers = vec![
        HeaderField { name: "X-Token".to_string(), value: vec![0xff] },
        HeaderField { name: "Accept".to_string(), value: b"a".to_vec() },
        HeaderField { name: "accept".to_string(), value: b"b".to_vec() },
    ];
    handle_ipc_req(&handler, request);
    let expected = "{\n  \"body\": \"ping\",\n  \"headers\": {\n    \"accept\": \"b\",\n    \"x-token\": \"\"\n  },\n  \"method\": \"POST\",\n  \"uri\": \"/api/call\",\n  \"version\": \"HTTP/1.1\"\n}";
    assert_eq!(seen.borrow()[0], expected);
}

#[test]
fn interpret_reply_maps_each_reply() {
    assert_eq!(
        interpret_reply(CallbackReply::Script("go()".to_string())),
        Dispatch::Forward(RuntimeMessage::Eval("go()".to_string()))
    );
    assert_eq!(interpret_reply(CallbackReply::Nothing), Dispatch::Idle);
    assert_eq!(
        interpret_reply(CallbackReply::Failed("x".to_string())),
        Dispatch::Swallowed(BridgeError::CallbackFailure("x".to_string()))
    );
}

#[test]
fn request_json_is_pretty_printed_object() {
    let normalized = SerdeRequest::from(ping_request());
    assert_eq!(normalized.to_json(), PING_JSON);
}

#[test]
fn request_json_escapes_text_and_prints_empty_headers() {
    let normalized = SerdeRequest::from(InboundRequest {
        method: "GET".to_string(),
        uri: "/q?x=\"1\"".to_string(),
        version: "HTTP/1.1".to_string(),
        headers: Vec::new(),
        body: "line1\nline2".to_string(),
    });
    let expected = "{\n  \"body\": \"line1\\nline2\",\n  \"headers\": {},\n  \"method\": \"GET\",\n  \"uri\": \"/q?x=\\\"1\\\"\",\n  \"version\": \"HTTP/1.1\"\n}";
    assert_eq!(normalized.to_json(), expected);
}

#[test]
fn request_json_reads_back_as_the_same_document() {
    let normalized = SerdeRequest::from(ping_request());
    let value: serde_json::Value = serde_json::from_str(&normalized.to_json()).unwrap();
    assert_eq!(value["method"], serde_json::Value::String("POST".to_string()));
    assert_eq!(value["uri"], serde_json::Value::String("/api/call".to_string()));
    assert_eq!(value["version"], serde_json::Value::String("HTTP/1.1".to_string()));
    assert_eq!(value["body"], serde_json::Value::String("ping".to_string()));
    assert_eq!(
        value["headers"]["content-type"],
        serde_json::Value::String("text/plain".to_string())
    );
    assert_eq!(value.as_object().unwrap().len(), 5);
}

#[test]
fn runtime_message_carries_its_script() {
    let message = RuntimeMessage::Eval("run()".to_string());
    assert_eq!(message.clone(), RuntimeMessage::Eval("run()".to_string()));
    assert_ne!(message, RuntimeMessage::Eval("other()".to_string()));
}
