//! The HTTP front end: it turns a prompt into a job on the jobs queue, waits
//! for the reply on its own response queue, and answers the HTTP request.
use vstd::prelude::*;
use vstd::utf8::{decode_utf8, valid_utf8};
use crate::amqp::{
    current_timestamp, decimal_text, spec_decimal_text, ConsumePlan, PublishPlan, PublishPlanView, QueueSetup,
    EXCHANGE, JSON_CONTENT_TYPE,
};
use crate::message::{spec_request_message_json, RequestMessage};
use crate::pending::{spec_route, PendingResponses, Routing};

verus! {

/// How long a job may wait in the jobs queue before the broker drops it.
pub const MESSAGE_TIMEOUT_MILLIS: u64 = 15000;

/// How long a request waits for its reply: the time a job may spend in the
/// queue, and as long again to process it.
pub const RESPONSE_WAIT_MILLIS: u64 = 2 * MESSAGE_TIMEOUT_MILLIS;

/// The HTTP path that takes generation requests.
pub const GENERATE_ROUTE: &'static str = "/api/generate";

/// The address the front end listens on.
pub const LISTEN_ADDRESS: &'static str = "0.0.0.0:43196";

pub const HTTP_OK: u16 = 200;

pub const HTTP_INTERNAL_SERVER_ERROR: u16 = 500;

/// The text of every failed generation.
pub const GENERATE_FAILURE_TEXT: &'static str = "Error generating llm response\n";

pub open spec fn is_lower_hex(c: char) -> bool {
    ('0' <= c && c <= '9') || ('a' <= c && c <= 'f')
}

/// A random (version 4) UUID in its hyphenated lower-case form.
pub open spec fn is_uuid_v4_text(s: Seq<char>) -> bool {
    &&& s.len() == 36
    &&& forall|i: int|
        0 <= i < 36 ==> if i == 8 || i == 13 || i == 18 || i == 23 {
            s[i] == '-'
        } else {
            is_lower_hex(#[trigger] s[i])
        }
    &&& s[14] == '4'
    &&& (s[19] == '8' || s[19] == '9' || s[19] == 'a' || s[19] == 'b')
}

/// `uuid::Uuid::new_v4().to_string()`: a fresh random UUID as text. The
/// value is random; what holds of every outcome is its shape.
#[verifier::external_body]
fn random_uuid_text() -> (res: String)
    ensures
        is_uuid_v4_text(res@),
{
    uuid::Uuid::new_v4().to_string()
}

/// A fresh correlation id for a generation request.
pub fn new_correlation_id() -> (res: String)
    ensures
        is_uuid_v4_text(res@),
{
    random_uuid_text()
}

/// The queues the front end declares: the shared jobs queue, then its own
/// exclusive response queue.
pub fn queue_setups(jobs_queue: &str, response_queue: &str) -> (res: (QueueSetup, QueueSetup))
    ensures
        res.0.name@ == jobs_queue@,
        !res.0.exclusive,
        res.1.name@ == response_queue@,
        res.1.exclusive,
{
    (
        QueueSetup { name: jobs_queue.to_owned(), exclusive: false },
        QueueSetup { name: response_queue.to_owned(), exclusive: true },
    )
}

/// How the front end consumes its response queue: alone, and counting each
/// reply as acknowledged once delivered.
pub fn response_consume_plan(response_queue: &str) -> (res: ConsumePlan)
    ensures
        res.queue@ == response_queue@,
        res.exclusive,
        res.auto_ack,
        res.prefetch_count is None,
{
    ConsumePlan { queue: response_queue.to_owned(), exclusive: true, auto_ack: true, prefetch_count: None }
}

/// The job message for a prompt: JSON sent through the exchange to the jobs
/// queue, persistent, expiring after the message timeout, asking for the
/// reply on the response queue under the request's correlation id.
pub open spec fn spec_request_plan(
    correlation_id: Seq<char>,
    prompt: Seq<char>,
    response_queue: Seq<char>,
    jobs_queue: Seq<char>,
    timestamp: u64,
) -> PublishPlanView {
    PublishPlanView {
        exchange: EXCHANGE@,
        routing_key: jobs_queue,
        content_type: JSON_CONTENT_TYPE@,
        correlation_id,
        expiration: Some(spec_decimal_text(MESSAGE_TIMEOUT_MILLIS as nat)),
        persistent: true,
        reply_to: Some(response_queue),
        timestamp,
        body: spec_request_message_json(prompt),
    }
}

/// Builds the job message for a prompt.
pub fn request_publish_plan(
    correlation_id: &str,
    prompt: &str,
    response_queue: &str,
    jobs_queue: &str,
    timestamp: u64,
) -> (res: PublishPlan)
    ensures
        res@ == spec_request_plan(correlation_id@, prompt@, response_queue@, jobs_queue@, timestamp),
{
    let message = RequestMessage::new(prompt);
    PublishPlan {
        exchange: EXCHANGE.to_owned(),
        routing_key: jobs_queue.to_owned(),
        content_type: JSON_CONTENT_TYPE.to_owned(),
        correlation_id: correlation_id.to_owned(),
        expiration: Some(decimal_text(MESSAGE_TIMEOUT_MILLIS)),
        persistent: true,
        reply_to: Some(response_queue.to_owned()),
        timestamp,
        body: message.to_json(),
    }
}

/// Builds the job message for a prompt under a correlation id, stamped
/// with the current time.
pub fn prepare_request(
    correlation_id: &str,
    prompt: &str,
    response_queue: &str,
    jobs_queue: &str,
) -> (res: PublishPlan)
    ensures
        res@ == spec_request_plan(correlation_id@, prompt@, response_queue@, jobs_queue@, res.timestamp),
{
    let timestamp = current_timestamp();
    request_publish_plan(correlation_id, prompt, response_queue, jobs_queue, timestamp)
}

/// What became of a job once published, or why it was not.
#[derive(Debug)]
pub enum RequestOutcome {
    /// The broker did not take the job.
    PublishFailed,
    /// No reply came within the waiting time.
    TimedOut,
    /// The registration was dropped before a reply came.
    ResponseDropped,
    /// The reply's raw content.
    Received(Vec<u8>),
}

/// Why a generation request failed.
#[derive(Clone, Copy, Debug, PartialEq, Eq, Structural)]
pub enum GenerateError {
    PublishFailed,
    TimedOut,
    ResponseDropped,
    /// The reply is not UTF-8 text.
    InvalidUtf8,
}

/// The result of a generation request, given what became of its job.
pub open spec fn spec_finish_request(outcome: RequestOutcome) -> Result<Seq<char>, GenerateError> {
    match outcome {
        RequestOutcome::PublishFailed => Err(GenerateError::PublishFailed),
        RequestOutcome::TimedOut => Err(GenerateError::TimedOut),
        RequestOutcome::ResponseDropped => Err(GenerateError::ResponseDropped),
        RequestOutcome::Received(bytes) => if valid_utf8(bytes@) {
            Ok(decode_utf8(bytes@))
        } else {
            Err(GenerateError::InvalidUtf8)
        },
    }
}

/// The result of a generation request: the reply's text.
pub fn finish_request(outcome: RequestOutcome) -> (res: Result<String, GenerateError>)
    ensures
        match spec_finish_request(outcome) {
            Ok(text) => res matches Ok(s) && s@ == text,
            Err(e) => res == Err::<String, GenerateError>(e),
        },
{
    match outcome {
        RequestOutcome::PublishFailed => Err(GenerateError::PublishFailed),
        RequestOutcome::TimedOut => Err(GenerateError::TimedOut),
        RequestOutcome::ResponseDropped => Err(GenerateError::ResponseDropped),
        RequestOutcome::Received(bytes) => match String::from_utf8(bytes) {
            Ok(text) => Ok(text),
            Err(_) => Err(GenerateError::InvalidUtf8),
        },
    }
}

/// Where a generation request stands.
#[derive(Clone, Copy, Debug, PartialEq, Eq, Structural)]
pub enum RequestPhase {
    /// Registered for its reply; waiting for the job to be published.
    Publishing,
    /// The job is out; waiting for the reply.
    Waiting,
    /// The registration is withdrawn and the result known.
    Finished,
}

/// A generation request in progress.
pub struct GenerateRequest {
    correlation_id: String,
    phase: RequestPhase,
}

pub struct GenerateRequestView {
    pub correlation_id: Seq<char>,
    pub phase: RequestPhase,
}

impl View for GenerateRequest {
    type V = GenerateRequestView;

    closed spec fn view(&self) -> GenerateRequestView {
        GenerateRequestView { correlation_id: self.correlation_id@, phase: self.phase }
    }
}

/// What the outside work on a request returned.
pub enum RequestEvent {
    /// Whether the broker took the job.
    Published(bool),
    /// What became of the wait for the reply.
    Waited(RequestOutcome),
}

/// What to do next for a request.
pub enum RequestAction {
    /// Publish the job.
    Publish(PublishPlan),
    /// Wait for the reply, at most the reply waiting time.
    Wait,
    /// The request is over, with this result.
    Finish(Result<String, GenerateError>),
}

pub enum RequestActionView {
    Publish(PublishPlanView),
    Wait,
    Finish(Result<Seq<char>, GenerateError>),
}

impl View for RequestAction {
    type V = RequestActionView;

    open spec fn view(&self) -> RequestActionView {
        match self {
            RequestAction::Publish(plan) => RequestActionView::Publish(plan@),
            RequestAction::Wait => RequestActionView::Wait,
            RequestAction::Finish(r) => RequestActionView::Finish(
                match r {
                    Ok(text) => Ok(text@),
                    Err(e) => Err(*e),
                },
            ),
        }
    }
}

/// Whether the event answers what the request waits for.
pub open spec fn spec_request_accepts(r: GenerateRequestView, e: RequestEvent) -> bool {
    match e {
        RequestEvent::Published(_) => r.phase == RequestPhase::Publishing,
        RequestEvent::Waited(_) => r.phase == RequestPhase::Waiting,
    }
}

/// The next step of a request, on the table of waiting requests: a job the
/// broker refused, or the end of the wait, withdraws the registration and
/// finishes; a published job is waited for.
pub open spec fn spec_request_step<W>(
    r: GenerateRequestView,
    table: Map<Seq<char>, W>,
    e: RequestEvent,
) -> (GenerateRequestView, Map<Seq<char>, W>, RequestActionView) {
    match e {
        RequestEvent::Published(true) => (
            GenerateRequestView { phase: RequestPhase::Waiting, ..r },
            table,
            RequestActionView::Wait,
        ),
        RequestEvent::Published(false) => (
            GenerateRequestView { phase: RequestPhase::Finished, ..r },
            table.remove(r.correlation_id),
            RequestActionView::Finish(Err(GenerateError::PublishFailed)),
        ),
        RequestEvent::Waited(outcome) => (
            GenerateRequestView { phase: RequestPhase::Finished, ..r },
            table.remove(r.correlation_id),
            RequestActionView::Finish(spec_finish_request(outcome)),
        ),
    }
}

impl GenerateRequest {
    /// The request's correlation id.
    pub fn correlation_id(&self) -> (res: &str)
        ensures
            res@ == self@.correlation_id,
    {
        self.correlation_id.as_str()
    }

    /// Where the request stands.
    pub fn phase(&self) -> (res: RequestPhase)
        ensures
            res == self@.phase,
    {
        self.phase
    }

    /// Whether the event answers what the request waits for.
    pub fn accepts(&self, event: &RequestEvent) -> (res: bool)
        ensures
            res == spec_request_accepts(self@, *event),
    {
        match event {
            RequestEvent::Published(_) => self.phase == RequestPhase::Publishing,
            RequestEvent::Waited(_) => self.phase == RequestPhase::Waiting,
        }
    }

    /// Starts a request for `prompt`: registers `waiter` for the reply under
    /// the correlation id first, then asks for the job to be published,
    /// stamped with the current time.
    pub fn begin<W>(
        table: &mut PendingResponses<W>,
        correlation_id: &str,
        waiter: W,
        prompt: &str,
        response_queue: &str,
        jobs_queue: &str,
    ) -> (res: (GenerateRequest, RequestAction))
        ensures
            final(table)@ == old(table)@.insert(correlation_id@, waiter),
            res.0@ == (GenerateRequestView { correlation_id: correlation_id@, phase: RequestPhase::Publishing }),
            res.1 matches RequestAction::Publish(plan)
                && plan@ == spec_request_plan(correlation_id@, prompt@, response_queue@, jobs_queue@, plan.timestamp),
    {
        let _displaced = table.register(correlation_id, waiter);
        let plan = prepare_request(correlation_id, prompt, response_queue, jobs_queue);
        (
            GenerateRequest { correlation_id: correlation_id.to_owned(), phase: RequestPhase::Publishing },
            RequestAction::Publish(plan),
        )
    }

    /// The next step, given what the outside work returned.
    pub fn step<W>(self, table: &mut PendingResponses<W>, event: RequestEvent) -> (res: (GenerateRequest, RequestAction))
        requires
            spec_request_accepts(self@, event),
        ensures
            (res.0@, final(table)@, res.1@) == spec_request_step(self@, old(table)@, event),
    {
        match event {
            RequestEvent::Published(true) => {
                (GenerateRequest { correlation_id: self.correlation_id, phase: RequestPhase::Waiting }, RequestAction::Wait)
            },
            RequestEvent::Published(false) => {
                let _ = table.withdraw(self.correlation_id.as_str());
                (
                    GenerateRequest { correlation_id: self.correlation_id, phase: RequestPhase::Finished },
                    RequestAction::Finish(Err(GenerateError::PublishFailed)),
                )
            },
            RequestEvent::Waited(outcome) => {
                let _ = table.withdraw(self.correlation_id.as_str());
                let result = finish_request(outcome);
                (
                    GenerateRequest { correlation_id: self.correlation_id, phase: RequestPhase::Finished },
                    RequestAction::Finish(result),
                )
            },
        }
    }
}

/// A request is registered for its reply before its job is published, and
/// withdrawn on every path to its end: whether the broker refuses the job
/// or the wait ends, and whatever replies arrived meanwhile, the table ends
/// as it was but for the request's correlation id.
pub proof fn law_registered_before_publish_withdrawn_at_end<W>(
    table: Map<Seq<char>, W>,
    correlation_id: Seq<char>,
    waiter: W,
    published: bool,
    outcome: RequestOutcome,
    reply_arrived: bool,
)
    ensures
        ({
            let registered = table.insert(correlation_id, waiter);
            let r0 = GenerateRequestView { correlation_id, phase: RequestPhase::Publishing };
            let (r1, t1, a1) = spec_request_step(r0, registered, RequestEvent::Published(published));
            &&& registered.contains_key(correlation_id) && registered[correlation_id] == waiter
            &&& if !published {
                &&& t1 == table.remove(correlation_id)
                &&& a1 == RequestActionView::Finish(Err(GenerateError::PublishFailed))
            } else {
                let during = if reply_arrived {
                    spec_route(t1, Some(correlation_id)).0
                } else {
                    t1
                };
                let (r2, t2, a2) = spec_request_step(r1, during, RequestEvent::Waited(outcome));
                &&& a1 == RequestActionView::Wait
                &&& t1 == registered
                &&& (reply_arrived ==> spec_route(t1, Some(correlation_id)).1 == Routing::Matched(waiter))
                &&& t2 == table.remove(correlation_id)
                &&& r2.phase == RequestPhase::Finished
                &&& a2 == RequestActionView::Finish(spec_finish_request(outcome))
            }
        }),
{
    let registered = table.insert(correlation_id, waiter);
    assert(registered.remove(correlation_id) =~= table.remove(correlation_id));
    assert(registered.remove(correlation_id).remove(correlation_id) =~= table.remove(correlation_id));
}

/// The body of the answer to a generation request.
#[derive(Clone, Debug)]
pub enum GenerateResponse {
    /// The model's text, and how long the request took in nanoseconds.
    Success { response: String, duration: u128 },
    Error(String),
}

/// The answer to a generation request: the text with status 200, or the
/// fixed failure text with status 500.
pub open spec fn spec_generate_reply(
    result: Result<String, GenerateError>,
    elapsed_nanos: u128,
    reply: (u16, GenerateResponse),
) -> bool {
    match result {
        Ok(text) => {
            &&& reply.0 == HTTP_OK
            &&& reply.1 matches GenerateResponse::Success { response, duration }
            &&& response@ == text@
            &&& duration == elapsed_nanos
        },
        Err(_) => {
            &&& reply.0 == HTTP_INTERNAL_SERVER_ERROR
            &&& reply.1 matches GenerateResponse::Error(msg)
            &&& msg@ == GENERATE_FAILURE_TEXT@
        },
    }
}

/// Every failed generation, whatever the failure, is answered with status
/// 500 and the same fixed failure text; only a successful one is answered
/// with status 200, carrying the reply's text and the time taken.
pub proof fn law_generate_reply_status(
    result: Result<String, GenerateError>,
    elapsed_nanos: u128,
    reply: (u16, GenerateResponse),
)
    requires
        spec_generate_reply(result, elapsed_nanos, reply),
    ensures
        (reply.0 == 200) == (result is Ok),
        result is Err ==> reply.0 == 500,
        result is Err ==> (reply.1 matches GenerateResponse::Error(msg) && msg@ == "Error generating llm response\n"@),
        result matches Ok(text) ==> (reply.1 matches GenerateResponse::Success { response, duration }
            && response@ == text@ && duration == elapsed_nanos),
{
}

/// Two failed generations are answered alike, whatever their failures.
pub proof fn law_failures_answered_alike(
    e1: GenerateError,
    e2: GenerateError,
    n1: u128,
    n2: u128,
    reply1: (u16, GenerateResponse),
    reply2: (u16, GenerateResponse),
)
    requires
        spec_generate_reply(Err(e1), n1, reply1),
        spec_generate_reply(Err(e2), n2, reply2),
    ensures
        reply1.0 == reply2.0,
        (reply1.1 matches GenerateResponse::Error(m1) && reply2.1 matches GenerateResponse::Error(m2) && m1@ == m2@),
{
}

/// Builds the answer to a generation request.
pub fn generate_reply(result: Result<String, GenerateError>, elapsed_nanos: u128) -> (res: (u16, GenerateResponse))
    ensures
        spec_generate_reply(result, elapsed_nanos, res),
{
    match result {
        Ok(text) => (HTTP_OK, GenerateResponse::Success { response: text, duration: elapsed_nanos }),
        Err(_) => (HTTP_INTERNAL_SERVER_ERROR, GenerateResponse::Error(GENERATE_FAILURE_TEXT.to_owned())),
    }
}

} // verus!
