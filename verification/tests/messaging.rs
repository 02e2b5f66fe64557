use scalelm::amqp::{AckPlan, ack_single, check_declared_queue, decimal_text, EXCHANGE};
use scalelm::frontend::{
    GenerateError, GenerateResponse, RequestOutcome, finish_request, generate_reply,
    new_correlation_id, queue_setups, request_publish_plan, response_consume_plan,
};
use scalelm::json::json_string;
use scalelm::ollama::{GENERATE_PATH, OllamaConfig, RequestBody, generate_request};
use scalelm::producer::{producer_generate_reply, producer_request_plan_at, root_reply};
use scalelm::{RequestMessage, ResponseMessage};

#[test]
fn json_string_escapes() {
    assert_eq!(json_string("plain"), "\"plain\"");
    assert_eq!(json_string("a\"b\\c"), "\"a\\\"b\\\\c\"");
    assert_eq!(json_string("\n\t\r\u{8}\u{c}"), "\"\\n\\t\\r\\b\\f\"");
    assert_eq!(json_string("\u{1}\u{1f}"), "\"\\u0001\\u001f\"");
    assert_eq!(json_string("/é\u{7f}"), "\"/é\u{7f}\"");
    for text in ["", "a\"b", "\\", "\u{0}\u{1b}x", "tab\there", "日本"] {
        let quoted = json_string(text);
        assert_eq!(serde_json::from_str::<String>(&quoted).unwrap(), text);
    }
}

#[test]
fn request_message_json() {
    let m = RequestMessage::new("Why is the sky \"blue\"?");
    let json = m.to_json();
    assert_eq!(json, "{\"prompt\":\"Why is the sky \\\"blue\\\"?\"}");
    let value: serde_json::Value = serde_json::from_str(&json).unwrap();
    assert_eq!(value["prompt"].as_str(), Some("Why is the sky \"blue\"?"));
}

#[test]
fn response_message_json() {
    let m = ResponseMessage::new("line1\nline2");
    assert_eq!(m.to_json(), "{\"response\":\"line1\\nline2\"}");
    let value: serde_json::Value = serde_json::from_str(&m.to_json()).unwrap();
    assert_eq!(value["response"].as_str(), Some("line1\nline2"));
}

#[test]
fn request_body_new_and_json() {
    let body = RequestBody::new("llama3", "hi");
    assert_eq!(body.model, "llama3");
    assert_eq!(body.prompt, "hi");
    assert!(!body.stream);
    assert_eq!(body.to_json(), "{\"model\":\"llama3\",\"prompt\":\"hi\",\"stream\":false}");
    let streaming = RequestBody { model: "m".to_string(), prompt: "p".to_string(), stream: true };
    assert_eq!(streaming.to_json(), "{\"model\":\"m\",\"prompt\":\"p\",\"stream\":true}");
}

#[test]
fn ollama_generate_request() {
    let cfg = OllamaConfig { host: "http://ollama:11434".to_string(), model: "llama3".to_string(), timeout_secs: 30 };
    let req = generate_request(&cfg, "tell me");
    assert_eq!(GENERATE_PATH, "/api/generate");
    assert_eq!(req.url, "http://ollama:11434/api/generate");
    assert_eq!(req.body, "{\"model\":\"llama3\",\"prompt\":\"tell me\",\"stream\":false}");
}

#[test]
fn declared_queue_checked() {
    let bind = check_declared_queue("jobs", "jobs").unwrap();
    assert_eq!(bind.queue, "jobs");
    assert_eq!(bind.exchange, "amq.topic");
    assert_eq!(bind.routing_key, "jobs");
    let err = check_declared_queue("jobs", "amq.gen-123").unwrap_err();
    assert_eq!(err.configured, "jobs");
    assert_eq!(err.created, "amq.gen-123");
}

#[test]
fn decimal_text_values() {
    assert_eq!(decimal_text(0), "0");
    assert_eq!(decimal_text(15000), "15000");
    assert_eq!(decimal_text(u64::MAX), u64::MAX.to_string());
}

#[test]
fn single_ack() {
    assert_eq!(ack_single(42), AckPlan { delivery_tag: 42, multiple: false });
}

#[test]
fn correlation_id_is_uuid_v4() {
    let id = new_correlation_id();
    assert_eq!(id.len(), 36);
    for (i, c) in id.chars().enumerate() {
        if i == 8 || i == 13 || i == 18 || i == 23 {
            assert_eq!(c, '-');
        } else {
            assert!(c.is_ascii_digit() || ('a'..='f').contains(&c));
        }
    }
    assert_eq!(id.chars().nth(14), Some('4'));
    assert!(matches!(id.chars().nth(19), Some('8' | '9' | 'a' | 'b')));
    assert_ne!(new_correlation_id(), id);
}

#[test]
fn frontend_request_plan() {
    let plan = request_publish_plan("id-1", "hello", "responses", "jobs", 1234);
    assert_eq!(plan.exchange, EXCHANGE);
    assert_eq!(plan.routing_key, "jobs");
    assert_eq!(plan.content_type, "application/json");
    assert_eq!(plan.correlation_id, "id-1");
    assert_eq!(plan.expiration.as_deref(), Some("15000"));
    assert!(plan.persistent);
    assert_eq!(plan.reply_to.as_deref(), Some("responses"));
    assert_eq!(plan.timestamp, 1234);
    assert_eq!(plan.body, "{\"prompt\":\"hello\"}");
}

#[test]
fn frontend_queues_and_consumer() {
    let (jobs, responses) = queue_setups("jobs", "responses");
    assert_eq!(jobs.name, "jobs");
    assert!(!jobs.exclusive);
    assert_eq!(responses.name, "responses");
    assert!(responses.exclusive);
    let plan = response_consume_plan("responses");
    assert_eq!(plan.queue, "responses");
    assert!(plan.exclusive);
    assert!(plan.auto_ack);
    assert_eq!(plan.prefetch_count, None);
}

#[test]
fn finish_request_outcomes() {
    assert_eq!(finish_request(RequestOutcome::Received(b"{\"response\":\"ok\"}".to_vec())).unwrap(), "{\"response\":\"ok\"}");
    assert_eq!(finish_request(RequestOutcome::Received("héllo".as_bytes().to_vec())).unwrap(), "héllo");
    assert_eq!(finish_request(RequestOutcome::Received(vec![0xff, 0xfe])).unwrap_err(), GenerateError::InvalidUtf8);
    assert_eq!(finish_request(RequestOutcome::TimedOut).unwrap_err(), GenerateError::TimedOut);
    assert_eq!(finish_request(RequestOutcome::ResponseDropped).unwrap_err(), GenerateError::ResponseDropped);
    assert_eq!(finish_request(RequestOutcome::PublishFailed).unwrap_err(), GenerateError::PublishFailed);
}

#[test]
fn generate_reply_success_and_failure() {
    let (status, body) = generate_reply(Ok("answer".to_string()), 77);
    assert_eq!(status, 200);
    assert!(matches!(body, GenerateResponse::Success { ref response, duration: 77 } if response == "answer"));
    let (status, body) = generate_reply(Err(GenerateError::TimedOut), 77);
    assert_eq!(status, 500);
    assert!(matches!(body, GenerateResponse::Error(ref e) if e == "Error generating llm response\n"));
}

#[test]
fn producer_replies() {
    let (status, text) = producer_generate_reply::<()>(Ok("x".to_string()));
    assert_eq!((status, text.as_str()), (200, "x"));
    let (status, text) = producer_generate_reply(Err(()));
    assert_eq!((status, text.as_str()), (502, "Error generating response"));
    let (status, text) = root_reply();
    assert_eq!((status, text.as_str()), (200, "Make request to /api/generate"));
    let plan = producer_request_plan_at("c", "raw prompt", "r", "j", 9);
    assert_eq!(plan.expiration.as_deref(), Some("30000"));
    assert_eq!(plan.body, "raw prompt");
    assert_eq!(plan.routing_key, "j");
    assert_eq!(plan.reply_to.as_deref(), Some("r"));
}

use scalelm::frontend::{GenerateRequest, RequestAction, RequestEvent, RequestPhase};
use scalelm::pending::{PendingResponses, Routing};

#[test]
fn request_registered_before_publish_and_withdrawn_after_reply() {
    let mut table: PendingResponses<u8> = PendingResponses::new();
    let (request, action) = GenerateRequest::begin(&mut table, "id-9", 1, "hi", "responses", "jobs");
    assert!(table.contains("id-9"));
    match &action {
        RequestAction::Publish(plan) => {
            assert_eq!(plan.correlation_id, "id-9");
            assert_eq!(plan.routing_key, "jobs");
            assert_eq!(plan.body, "{\"prompt\":\"hi\"}");
        }
        _ => panic!("expected a publish"),
    }
    let (request, action) = request.step(&mut table, RequestEvent::Published(true));
    assert!(matches!(action, RequestAction::Wait));
    assert!(table.contains("id-9"));
    // The reply arrives and the consumer routes it to the waiter.
    assert!(matches!(table.route(Some("id-9")), Routing::Matched(1)));
    let (request, action) =
        request.step(&mut table, RequestEvent::Waited(RequestOutcome::Received(b"answer".to_vec())));
    assert_eq!(request.phase(), RequestPhase::Finished);
    assert!(!table.contains("id-9"));
    match action {
        RequestAction::Finish(result) => assert_eq!(result.unwrap(), "answer"),
        _ => panic!("expected the end"),
    }
}

#[test]
fn request_withdrawn_when_publish_fails_or_wait_times_out() {
    let mut table: PendingResponses<u8> = PendingResponses::new();
    table.register("other", 5);
    let (request, _) = GenerateRequest::begin(&mut table, "a", 1, "p", "r", "j");
    let (_, action) = request.step(&mut table, RequestEvent::Published(false));
    assert!(!table.contains("a"));
    assert!(table.contains("other"));
    assert!(matches!(action, RequestAction::Finish(Err(GenerateError::PublishFailed))));

    let (request, _) = GenerateRequest::begin(&mut table, "b", 2, "p", "r", "j");
    assert!(!request.accepts(&RequestEvent::Waited(RequestOutcome::TimedOut)));
    let (request, _) = request.step(&mut table, RequestEvent::Published(true));
    let (_, action) = request.step(&mut table, RequestEvent::Waited(RequestOutcome::TimedOut));
    assert!(!table.contains("b"));
    assert!(table.contains("other"));
    assert!(matches!(action, RequestAction::Finish(Err(GenerateError::TimedOut))));
}
