use scalelm::amqp::AckPlan;
use scalelm::job::{Job, JobAction, JobDelivery, JobError, JobEvent, JobPhase, job_consume_plan, job_queue_setup};
use scalelm::pending::{PendingResponses, Routing};
use scalelm::RequestMessage;

fn matched(r: Routing<u32>) -> Option<u32> {
    match r {
        Routing::Matched(w) => Some(w),
        _ => None,
    }
}

#[test]
fn response_reaches_its_waiter() {
    let mut table: PendingResponses<u32> = PendingResponses::new();
    assert!(table.register("a", 1).is_none());
    assert!(table.register("b", 2).is_none());
    assert_eq!(matched(table.route(Some("a"))), Some(1));
    assert!(!table.contains("a"));
    assert!(table.contains("b"));
}

#[test]
fn at_most_one_response_per_request() {
    let mut table: PendingResponses<u32> = PendingResponses::new();
    table.register("a", 1);
    assert_eq!(matched(table.route(Some("a"))), Some(1));
    assert!(matches!(table.route(Some("a")), Routing::Unmatched));
    assert!(table.withdraw("a").is_none());
}

#[test]
fn withdraw_forgets_request() {
    let mut table: PendingResponses<u32> = PendingResponses::new();
    table.register("keep", 9);
    table.register("a", 1);
    assert_eq!(table.withdraw("a"), Some(1));
    assert!(!table.contains("a"));
    assert!(matches!(table.route(Some("a")), Routing::Unmatched));
    assert_eq!(matched(table.route(Some("keep"))), Some(9));
}

#[test]
fn unlabelled_or_unknown_response_ignored() {
    let mut table: PendingResponses<u32> = PendingResponses::new();
    table.register("a", 1);
    assert!(matches!(table.route(None), Routing::NoCorrelationId));
    assert!(matches!(table.route(Some("zzz")), Routing::Unmatched));
    assert!(table.contains("a"));
}

#[test]
fn second_registration_displaces_first() {
    let mut table: PendingResponses<u32> = PendingResponses::new();
    table.register("a", 1);
    assert_eq!(table.register("a", 2), Some(1));
    assert_eq!(matched(table.route(Some("a"))), Some(2));
}

fn delivery(correlation_id: Option<&str>, reply_to: Option<&str>, content: &[u8]) -> JobDelivery {
    JobDelivery {
        delivery_tag: 7,
        correlation_id: correlation_id.map(|s| s.to_string()),
        reply_to: reply_to.map(|s| s.to_string()),
        content: content.to_vec(),
    }
}

fn expect_ack(action: &JobAction, result: Result<(), JobError>) {
    match action {
        JobAction::Ack(ack, r) => {
            assert_eq!(*ack, AckPlan { delivery_tag: 7, multiple: false });
            assert_eq!(*r, result);
        }
        _ => panic!("expected an acknowledgement"),
    }
}

fn finish(job: Job) {
    assert_eq!(job.phase(), JobPhase::Acknowledging);
    let (job, action) = job.step(JobEvent::Acked);
    assert!(matches!(action, JobAction::Done));
    assert_eq!(job.phase(), JobPhase::Finished);
}

#[test]
fn job_without_correlation_id_left_alone() {
    let (job, action) = Job::start(delivery(None, Some("r"), b"{}"));
    assert!(job.is_none());
    assert!(matches!(action, JobAction::Ignore));
}

#[test]
fn job_with_invalid_utf8_acknowledged() {
    let (job, action) = Job::start(delivery(Some("c"), Some("r"), &[0xc3, 0x28]));
    expect_ack(&action, Err(JobError::InvalidUtf8));
    finish(job.unwrap());
}

#[test]
fn job_full_success() {
    let (job, action) = Job::start(delivery(Some("c1"), Some("replies"), b"{\"prompt\":\"hi\"}"));
    let job = job.unwrap();
    assert_eq!(job.correlation_id(), "c1");
    match &action {
        JobAction::ParseRequest(text) => assert_eq!(text, "{\"prompt\":\"hi\"}"),
        _ => panic!("expected a parse"),
    }
    let (job, action) = job.step(JobEvent::Parsed(Some(RequestMessage::new("hi"))));
    match &action {
        JobAction::Generate(prompt) => assert_eq!(prompt, "hi"),
        _ => panic!("expected generation"),
    }
    let (job, action) = job.step_at(JobEvent::Generated(Some("hello there".to_string())), 555);
    match &action {
        JobAction::Publish(plan) => {
            assert_eq!(plan.exchange, "amq.topic");
            assert_eq!(plan.routing_key, "replies");
            assert_eq!(plan.correlation_id, "c1");
            assert_eq!(plan.content_type, "application/json");
            assert_eq!(plan.expiration, None);
            assert!(!plan.persistent);
            assert_eq!(plan.reply_to, None);
            assert_eq!(plan.timestamp, 555);
            assert_eq!(plan.body, "{\"response\":\"hello there\"}");
        }
        _ => panic!("expected a publish"),
    }
    let (job, action) = job.step(JobEvent::Published(true));
    expect_ack(&action, Ok(()));
    finish(job);
}

#[test]
fn job_failures_acknowledged() {
    // Not a request message.
    let (job, _) = Job::start(delivery(Some("c"), Some("r"), b"nonsense"));
    let (job, action) = job.unwrap().step(JobEvent::Parsed(None));
    expect_ack(&action, Err(JobError::InvalidRequest));
    finish(job);

    // No queue for the reply.
    let (job, _) = Job::start(delivery(Some("c"), None, b"{\"prompt\":\"x\"}"));
    let (job, action) = job.unwrap().step(JobEvent::Parsed(Some(RequestMessage::new("x"))));
    expect_ack(&action, Err(JobError::MissingReplyTo));
    finish(job);

    // The model failed.
    let (job, _) = Job::start(delivery(Some("c"), Some("r"), b"{\"prompt\":\"x\"}"));
    let (job, _) = job.unwrap().step(JobEvent::Parsed(Some(RequestMessage::new("x"))));
    let (job, action) = job.step(JobEvent::Generated(None));
    expect_ack(&action, Err(JobError::ModelFailed));
    finish(job);

    // The reply could not be published.
    let (job, _) = Job::start(delivery(Some("c"), Some("r"), b"{\"prompt\":\"x\"}"));
    let (job, _) = job.unwrap().step(JobEvent::Parsed(Some(RequestMessage::new("x"))));
    let (job, _) = job.step(JobEvent::Generated(Some("y".to_string())));
    let (job, action) = job.step(JobEvent::Published(false));
    expect_ack(&action, Err(JobError::PublishFailed));
    finish(job);
}

#[test]
fn job_accepts_only_awaited_event() {
    let (job, _) = Job::start(delivery(Some("c"), Some("r"), b"{}"));
    let job = job.unwrap();
    assert!(job.accepts(&JobEvent::Parsed(None)));
    assert!(!job.accepts(&JobEvent::Acked));
    assert!(!job.accepts(&JobEvent::Published(true)));
}

#[test]
fn job_queue_plans() {
    let setup = job_queue_setup("jobs");
    assert_eq!(setup.name, "jobs");
    assert!(!setup.exclusive);
    let plan = job_consume_plan("jobs");
    assert_eq!(plan.queue, "jobs");
    assert!(!plan.exclusive);
    assert!(!plan.auto_ack);
    assert_eq!(plan.prefetch_count, Some(1));
}

#[test]
fn job_error_messages() {
    assert_eq!(JobError::MissingReplyTo.message(), "Missing 'reply_to' in message");
    assert_eq!(JobError::InvalidUtf8.message(), "Content is not valid UTF-8");
    assert_eq!(JobError::InvalidRequest.message(), "Content is not a request message");
    assert_eq!(JobError::ModelFailed.message(), "Error getting a response from the model");
    assert_eq!(JobError::PublishFailed.message(), "Error publishing the response");
}

#[test]
fn job_without_reply_queue_reports_missing_reply_to() {
    let (job, action) = Job::start(delivery(Some("c1"), None, b"{\"prompt\":\"hi\"}"));
    assert!(matches!(action, JobAction::ParseRequest(_)));
    let (job, action) = job.unwrap().step(JobEvent::Parsed(Some(RequestMessage::new("hi"))));
    match &action {
        JobAction::Ack(_, Err(e)) => assert_eq!(e.message(), "Missing 'reply_to' in message"),
        _ => panic!("expected a failed acknowledgement, with no generation and no publish"),
    }
    finish(job);
}

fn actions_with_tag(tag: u64) -> Vec<String> {
    let d = JobDelivery {
        delivery_tag: tag,
        correlation_id: Some("c".to_string()),
        reply_to: Some("r".to_string()),
        content: b"{\"prompt\":\"p\"}".to_vec(),
    };
    let mut seen = Vec::new();
    let (job, action) = Job::start(d);
    let mut job = job.unwrap();
    let mut action = action;
    loop {
        let event = match action {
            JobAction::ParseRequest(_) => {
                seen.push("parse".to_string());
                JobEvent::Parsed(Some(RequestMessage::new("p")))
            }
            JobAction::Generate(_) => {
                seen.push("generate".to_string());
                JobEvent::Generated(Some("a".to_string()))
            }
            JobAction::Publish(plan) => {
                seen.push(format!("publish {}", plan.routing_key));
                JobEvent::Published(true)
            }
            JobAction::Ack(ack, result) => {
                seen.push(format!("ack {} {:?}", ack.delivery_tag, result));
                JobEvent::Acked
            }
            JobAction::Done => {
                seen.push("done".to_string());
                return seen;
            }
            JobAction::Ignore => panic!("a labelled delivery is not ignored"),
        };
        let (j, a) = job.step_at(event, 1);
        job = j;
        action = a;
    }
}

#[test]
fn handling_acknowledges_last_and_ignores_the_tag() {
    let first = actions_with_tag(3);
    let second = actions_with_tag(99);
    assert_eq!(first, vec!["parse", "generate", "publish r", "ack 3 Ok(())", "done"]);
    assert_eq!(second, vec!["parse", "generate", "publish r", "ack 99 Ok(())", "done"]);
}
