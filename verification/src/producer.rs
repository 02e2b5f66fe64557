//! The decisions of the plain-text producer front end: a job carries the
//! prompt itself as its body, and the HTTP answer is the reply text.
use vstd::prelude::*;
use vstd::string::*;
use crate::pending::{spec_register, spec_route, Routing};
use crate::amqp::{current_timestamp, decimal_text, spec_decimal_text, PublishPlan, PublishPlanView, EXCHANGE, JSON_CONTENT_TYPE};

verus! {

/// How long a job may wait in the jobs queue before the broker drops it.
pub const PRODUCER_MESSAGE_TIMEOUT_MILLIS: u64 = 30000;

pub const HTTP_OK: u16 = 200;

pub const HTTP_BAD_GATEWAY: u16 = 502;

/// The text of every failed generation.
pub const PRODUCER_FAILURE_TEXT: &'static str = "Error generating response";

/// The text served at the root path.
pub const ROOT_TEXT: &'static str = "Make request to /api/generate";

/// The job message for a prompt: the prompt's text itself, persistent,
/// expiring after the producer's message timeout, asking for the reply on
/// the response queue under the request's correlation id.
pub open spec fn spec_producer_request_plan(
    correlation_id: Seq<char>,
    prompt: Seq<char>,
    response_queue: Seq<char>,
    jobs_queue: Seq<char>,
    timestamp: u64,
) -> PublishPlanView {
    PublishPlanView {
        exchange: EXCHANGE@,
        routing_key: jobs_queue,
        content_type: JSON_CONTENT_TYPE@,
        correlation_id,
        expiration: Some(spec_decimal_text(PRODUCER_MESSAGE_TIMEOUT_MILLIS as nat)),
        persistent: true,
        reply_to: Some(response_queue),
        timestamp,
        body: prompt,
    }
}

/// The producer's job goes to the jobs queue with the prompt's text as its
/// body, and names the response queue for the reply; a reply sent under the
/// job's correlation id reaches the waiter that the request registered
/// under its own correlation id.
pub proof fn law_producer_reply_reaches_requester<W>(
    table: Map<Seq<char>, W>,
    waiter: W,
    correlation_id: Seq<char>,
    prompt: Seq<char>,
    response_queue: Seq<char>,
    jobs_queue: Seq<char>,
    timestamp: u64,
)
    ensures
        ({
            let plan = spec_producer_request_plan(correlation_id, prompt, response_queue, jobs_queue, timestamp);
            &&& plan.routing_key == jobs_queue
            &&& plan.reply_to == Some(response_queue)
            &&& plan.body == prompt
            &&& spec_route(spec_register(table, correlation_id, waiter).0, Some(plan.correlation_id)).1
                == Routing::Matched(waiter)
        }),
{
}

/// Builds the job message for a prompt, stamped with `timestamp`.
pub fn producer_request_plan_at(
    correlation_id: &str,
    prompt: &str,
    response_queue: &str,
    jobs_queue: &str,
    timestamp: u64,
) -> (res: PublishPlan)
    ensures
        res@ == spec_producer_request_plan(correlation_id@, prompt@, response_queue@, jobs_queue@, timestamp),
{
    PublishPlan {
        exchange: EXCHANGE.to_owned(),
        routing_key: jobs_queue.to_owned(),
        content_type: JSON_CONTENT_TYPE.to_owned(),
        correlation_id: correlation_id.to_owned(),
        expiration: Some(decimal_text(PRODUCER_MESSAGE_TIMEOUT_MILLIS)),
        persistent: true,
        reply_to: Some(response_queue.to_owned()),
        timestamp,
        body: prompt.to_owned(),
    }
}

/// Builds the job message for a prompt, stamped with the current time.
pub fn producer_request_plan(
    correlation_id: &str,
    prompt: &str,
    response_queue: &str,
    jobs_queue: &str,
) -> (res: PublishPlan)
    ensures
        res@ == spec_producer_request_plan(correlation_id@, prompt@, response_queue@, jobs_queue@, res.timestamp),
{
    let timestamp = current_timestamp();
    producer_request_plan_at(correlation_id, prompt, response_queue, jobs_queue, timestamp)
}

/// The answer to a generation request: the reply text with status 200, or
/// the fixed failure text with status 502.
pub fn producer_generate_reply<E>(result: Result<String, E>) -> (res: (u16, String))
    ensures
        match result {
            Ok(text) => res.0 == HTTP_OK && res.1@ == text@,
            Err(_) => res.0 == HTTP_BAD_GATEWAY && res.1@ == PRODUCER_FAILURE_TEXT@,
        },
{
    match result {
        Ok(text) => (HTTP_OK, text),
        Err(_) => (HTTP_BAD_GATEWAY, PRODUCER_FAILURE_TEXT.to_owned()),
    }
}

/// The answer at the root path: status 200 and a pointer to the generation route.
pub fn root_reply() -> (res: (u16, String))
    ensures
        res.0 == HTTP_OK,
        res.1@ == ROOT_TEXT@,
{
    (HTTP_OK, ROOT_TEXT.to_owned())
}

} // verus!
