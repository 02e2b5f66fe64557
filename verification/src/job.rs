//! The model handler's work on one job delivered from the jobs queue, as a
//! state machine. Each step takes what the outside work returned and says
//! what to do next: parse the request, ask the model, publish the reply,
//! acknowledge the delivery. A delivery without a correlation id is left
//! alone; every other one is acknowledged once, whether its handling
//! succeeded or not.
use vstd::prelude::*;
use vstd::string::*;
use vstd::utf8::{decode_utf8, valid_utf8};
use crate::amqp::{
    ack_single, current_timestamp, AckPlan, ConsumePlan, PublishPlan, PublishPlanView, QueueSetup,
    EXCHANGE, JSON_CONTENT_TYPE,
};
use crate::json::json_read_object1;
use crate::message::{law_response_message_reads_back, spec_response_message_json, RequestMessage, ResponseMessage};
use crate::text::opt_string_view;

verus! {

/// A message delivered from the jobs queue.
#[derive(Clone, Debug)]
pub struct JobDelivery {
    pub delivery_tag: u64,
    pub correlation_id: Option<String>,
    pub reply_to: Option<String>,
    pub content: Vec<u8>,
}

pub struct JobDeliveryView {
    pub delivery_tag: u64,
    pub correlation_id: Option<Seq<char>>,
    pub reply_to: Option<Seq<char>>,
    pub content: Seq<u8>,
}

impl View for JobDelivery {
    type V = JobDeliveryView;

    open spec fn view(&self) -> JobDeliveryView {
        JobDeliveryView {
            delivery_tag: self.delivery_tag,
            correlation_id: opt_string_view(self.correlation_id),
            reply_to: opt_string_view(self.reply_to),
            content: self.content@,
        }
    }
}

/// Why a job could not be handled.
#[derive(Clone, Copy, Debug, PartialEq, Eq, Structural)]
pub enum JobError {
    /// The content is not UTF-8 text.
    InvalidUtf8,
    /// The content is not a request message.
    InvalidRequest,
    /// The message names no queue for the reply.
    MissingReplyTo,
    /// The model server gave no answer.
    ModelFailed,
    /// The broker did not take the reply.
    PublishFailed,
}

/// The text each error is reported with. Where the handling stopped on a
/// missing reply queue, it is the fixed text of that failure; the other
/// failures are reported with the step that failed, the outside error's own
/// text being logged where it happens.
pub open spec fn spec_job_error_message(e: JobError) -> Seq<char> {
    match e {
        JobError::InvalidUtf8 => "Content is not valid UTF-8"@,
        JobError::InvalidRequest => "Content is not a request message"@,
        JobError::MissingReplyTo => "Missing 'reply_to' in message"@,
        JobError::ModelFailed => "Error getting a response from the model"@,
        JobError::PublishFailed => "Error publishing the response"@,
    }
}

impl JobError {
    pub fn message(&self) -> (res: &'static str)
        ensures
            res@ == spec_job_error_message(*self),
    {
        match self {
            JobError::InvalidUtf8 => "Content is not valid UTF-8",
            JobError::InvalidRequest => "Content is not a request message",
            JobError::MissingReplyTo => "Missing 'reply_to' in message",
            JobError::ModelFailed => "Error getting a response from the model",
            JobError::PublishFailed => "Error publishing the response",
        }
    }
}

/// Where a job stands.
#[derive(Clone, Copy, Debug, PartialEq, Eq, Structural)]
pub enum JobPhase {
    /// Waiting for the content to be read as a request message.
    Parsing,
    /// Waiting for the model's answer.
    Generating,
    /// Waiting for the reply to be published.
    Publishing,
    /// Waiting for the delivery to be acknowledged.
    Acknowledging,
    Finished,
}

/// A job in progress.
pub struct Job {
    delivery_tag: u64,
    correlation_id: String,
    reply_to: Option<String>,
    phase: JobPhase,
}

pub struct JobView {
    pub delivery_tag: u64,
    pub correlation_id: Seq<char>,
    pub reply_to: Option<Seq<char>>,
    pub phase: JobPhase,
}

impl View for Job {
    type V = JobView;

    closed spec fn view(&self) -> JobView {
        JobView {
            delivery_tag: self.delivery_tag,
            correlation_id: self.correlation_id@,
            reply_to: opt_string_view(self.reply_to),
            phase: self.phase,
        }
    }
}

/// What the outside work on a job returned.
pub enum JobEvent {
    /// The content read as a request message, or `None` where it is not one.
    Parsed(Option<RequestMessage>),
    /// The model's answer, or `None` where the model server failed.
    Generated(Option<String>),
    /// Whether the broker took the reply.
    Published(bool),
    /// The acknowledgement was sent (or failed; nothing follows either way).
    Acked,
}

pub enum JobEventView {
    Parsed(Option<Seq<char>>),
    Generated(Option<Seq<char>>),
    Published(bool),
    Acked,
}

impl View for JobEvent {
    type V = JobEventView;

    open spec fn view(&self) -> JobEventView {
        match self {
            JobEvent::Parsed(m) => JobEventView::Parsed(
                match m {
                    Some(msg) => Some(msg.prompt@),
                    None => None,
                },
            ),
            JobEvent::Generated(r) => JobEventView::Generated(opt_string_view(*r)),
            JobEvent::Published(ok) => JobEventView::Published(*ok),
            JobEvent::Acked => JobEventView::Acked,
        }
    }
}

/// What to do next for a job.
pub enum JobAction {
    /// Nothing: the delivery is left alone.
    Ignore,
    /// Read this text as a request message.
    ParseRequest(String),
    /// Ask the model to answer this prompt.
    Generate(String),
    /// Publish this reply.
    Publish(PublishPlan),
    /// Acknowledge the delivery; the job's handling ended with this result.
    Ack(AckPlan, Result<(), JobError>),
    /// The job is over.
    Done,
}

pub enum JobActionView {
    Ignore,
    ParseRequest(Seq<char>),
    Generate(Seq<char>),
    Publish(PublishPlanView),
    Ack(AckPlan, Result<(), JobError>),
    Done,
}

impl View for JobAction {
    type V = JobActionView;

    open spec fn view(&self) -> JobActionView {
        match self {
            JobAction::Ignore => JobActionView::Ignore,
            JobAction::ParseRequest(t) => JobActionView::ParseRequest(t@),
            JobAction::Generate(p) => JobActionView::Generate(p@),
            JobAction::Publish(plan) => JobActionView::Publish(plan@),
            JobAction::Ack(ack, r) => JobActionView::Ack(*ack, *r),
            JobAction::Done => JobActionView::Done,
        }
    }
}

pub open spec fn opt_job_view(j: Option<Job>) -> Option<JobView> {
    match j {
        Some(job) => Some(job@),
        None => None,
    }
}

/// The reply to a job: the model's answer as JSON, sent through the exchange
/// to the queue the job named, under the job's correlation id.
pub open spec fn spec_reply_plan(correlation_id: Seq<char>, reply_to: Seq<char>, response: Seq<char>, timestamp: u64) -> PublishPlanView {
    PublishPlanView {
        exchange: EXCHANGE@,
        routing_key: reply_to,
        content_type: JSON_CONTENT_TYPE@,
        correlation_id,
        expiration: None,
        persistent: false,
        reply_to: None,
        timestamp,
        body: spec_response_message_json(response),
    }
}

/// The job moves on to acknowledging its delivery, its handling ended with `result`.
pub open spec fn spec_acknowledge(j: JobView, result: Result<(), JobError>) -> (JobView, JobActionView) {
    (
        JobView { phase: JobPhase::Acknowledging, ..j },
        JobActionView::Ack(AckPlan { delivery_tag: j.delivery_tag, multiple: false }, result),
    )
}

/// The reply to a job goes to the queue the job named, under the job's
/// correlation id, and its body reads back as the model's answer, whatever
/// the answer holds.
pub proof fn law_reply_reads_back(correlation_id: Seq<char>, reply_to: Seq<char>, answer: Seq<char>, timestamp: u64)
    ensures
        ({
            let reply = spec_reply_plan(correlation_id, reply_to, answer, timestamp);
            &&& json_read_object1(reply.body, "response"@) == Some(answer)
            &&& reply.routing_key == reply_to
            &&& reply.correlation_id == correlation_id
            &&& reply.exchange == EXCHANGE@
        }),
{
    law_response_message_reads_back(answer);
}

/// The first step for a delivery: without a correlation id it is left
/// alone; with content that is not UTF-8 it is acknowledged as failed;
/// otherwise its text is to be read as a request message.
pub open spec fn spec_start(d: JobDeliveryView) -> (Option<JobView>, JobActionView) {
    match d.correlation_id {
        None => (None, JobActionView::Ignore),
        Some(id) => {
            let job = JobView {
                delivery_tag: d.delivery_tag,
                correlation_id: id,
                reply_to: d.reply_to,
                phase: JobPhase::Parsing,
            };
            if valid_utf8(d.content) {
                (Some(job), JobActionView::ParseRequest(decode_utf8(d.content)))
            } else {
                let (j2, a) = spec_acknowledge(job, Err(JobError::InvalidUtf8));
                (Some(j2), a)
            }
        },
    }
}

/// Whether the event answers what the job waits for.
pub open spec fn spec_accepts(j: JobView, e: JobEventView) -> bool {
    match e {
        JobEventView::Parsed(_) => j.phase == JobPhase::Parsing,
        JobEventView::Generated(_) => j.phase == JobPhase::Generating,
        JobEventView::Published(_) => j.phase == JobPhase::Publishing,
        JobEventView::Acked => j.phase == JobPhase::Acknowledging,
    }
}

/// The next step of a job, given what the outside work returned, with
/// `timestamp` the time at which a reply is made.
pub open spec fn spec_step(j: JobView, e: JobEventView, timestamp: u64) -> (JobView, JobActionView) {
    match e {
        JobEventView::Parsed(None) => spec_acknowledge(j, Err(JobError::InvalidRequest)),
        JobEventView::Parsed(Some(prompt)) => if j.reply_to is None {
            spec_acknowledge(j, Err(JobError::MissingReplyTo))
        } else {
            (JobView { phase: JobPhase::Generating, ..j }, JobActionView::Generate(prompt))
        },
        JobEventView::Generated(None) => spec_acknowledge(j, Err(JobError::ModelFailed)),
        JobEventView::Generated(Some(response)) => (
            JobView { phase: JobPhase::Publishing, ..j },
            JobActionView::Publish(spec_reply_plan(j.correlation_id, j.reply_to->0, response, timestamp)),
        ),
        JobEventView::Published(false) => spec_acknowledge(j, Err(JobError::PublishFailed)),
        JobEventView::Published(true) => spec_acknowledge(j, Ok(())),
        JobEventView::Acked => (JobView { phase: JobPhase::Finished, ..j }, JobActionView::Done),
    }
}

impl Job {
    #[verifier::type_invariant]
    closed spec fn reply_known_when_answering(&self) -> bool {
        (self.phase == JobPhase::Generating || self.phase == JobPhase::Publishing) ==> self.reply_to is Some
    }

    /// The correlation id of the job's delivery.
    pub fn correlation_id(&self) -> (res: &str)
        ensures
            res@ == self@.correlation_id,
    {
        self.correlation_id.as_str()
    }

    /// Where the job stands.
    pub fn phase(&self) -> (res: JobPhase)
        ensures
            res == self@.phase,
    {
        self.phase
    }

    /// Whether the event answers what the job waits for.
    pub fn accepts(&self, event: &JobEvent) -> (res: bool)
        ensures
            res == spec_accepts(self@, event@),
    {
        match event {
            JobEvent::Parsed(_) => self.phase == JobPhase::Parsing,
            JobEvent::Generated(_) => self.phase == JobPhase::Generating,
            JobEvent::Published(_) => self.phase == JobPhase::Publishing,
            JobEvent::Acked => self.phase == JobPhase::Acknowledging,
        }
    }

    fn acknowledge(self, result: Result<(), JobError>) -> (res: (Job, JobAction))
        ensures
            (res.0@, res.1@) == spec_acknowledge(self@, result),
    {
        let ack = ack_single(self.delivery_tag);
        (
            Job {
                delivery_tag: self.delivery_tag,
                correlation_id: self.correlation_id,
                reply_to: self.reply_to,
                phase: JobPhase::Acknowledging,
            },
            JobAction::Ack(ack, result),
        )
    }

    /// Starts the work on a delivery.
    pub fn start(delivery: JobDelivery) -> (res: (Option<Job>, JobAction))
        ensures
            (opt_job_view(res.0), res.1@) == spec_start(delivery@),
    {
        match delivery.correlation_id {
            None => (None, JobAction::Ignore),
            Some(id) => {
                let job = Job {
                    delivery_tag: delivery.delivery_tag,
                    correlation_id: id,
                    reply_to: delivery.reply_to,
                    phase: JobPhase::Parsing,
                };
                match String::from_utf8(delivery.content) {
                    Ok(text) => (Some(job), JobAction::ParseRequest(text)),
                    Err(_) => {
                        let (j2, a) = job.acknowledge(Err(JobError::InvalidUtf8));
                        (Some(j2), a)
                    },
                }
            },
        }
    }

    /// The next step, given what the outside work returned, a reply being
    /// stamped with `timestamp`.
    pub fn step_at(self, event: JobEvent, timestamp: u64) -> (res: (Job, JobAction))
        requires
            spec_accepts(self@, event@),
        ensures
            (res.0@, res.1@) == spec_step(self@, event@, timestamp),
    {
        proof {
            use_type_invariant(&self);
        }
        match event {
            JobEvent::Parsed(None) => self.acknowledge(Err(JobError::InvalidRequest)),
            JobEvent::Parsed(Some(message)) => {
                if self.reply_to.is_none() {
                    self.acknowledge(Err(JobError::MissingReplyTo))
                } else {
                    (
                        Job {
                            delivery_tag: self.delivery_tag,
                            correlation_id: self.correlation_id,
                            reply_to: self.reply_to,
                            phase: JobPhase::Generating,
                        },
                        JobAction::Generate(message.prompt),
                    )
                }
            },
            JobEvent::Generated(None) => self.acknowledge(Err(JobError::ModelFailed)),
            JobEvent::Generated(Some(response)) => {
                let reply_to = match &self.reply_to {
                    Some(r) => r.clone(),
                    None => {
                        proof {
                            assert(false);
                        }
                        String::new()
                    },
                };
                let message = ResponseMessage::new(response.as_str());
                let plan = PublishPlan {
                    exchange: EXCHANGE.to_owned(),
                    routing_key: reply_to,
                    content_type: JSON_CONTENT_TYPE.to_owned(),
                    correlation_id: self.correlation_id.clone(),
                    expiration: None,
                    persistent: false,
                    reply_to: None,
                    timestamp,
                    body: message.to_json(),
                };
                (
                    Job {
                        delivery_tag: self.delivery_tag,
                        correlation_id: self.correlation_id,
                        reply_to: self.reply_to,
                        phase: JobPhase::Publishing,
                    },
                    JobAction::Publish(plan),
                )
            },
            JobEvent::Published(ok) => {
                if ok {
                    self.acknowledge(Ok(()))
                } else {
                    self.acknowledge(Err(JobError::PublishFailed))
                }
            },
            JobEvent::Acked => (
                Job {
                    delivery_tag: self.delivery_tag,
                    correlation_id: self.correlation_id,
                    reply_to: self.reply_to,
                    phase: JobPhase::Finished,
                },
                JobAction::Done,
            ),
        }
    }

    /// The next step, given what the outside work returned; a reply is
    /// stamped with the current time.
    pub fn step(self, event: JobEvent) -> (res: (Job, JobAction))
        requires
            spec_accepts(self@, event@),
        ensures
            exists|timestamp: u64| (res.0@, res.1@) == spec_step(self@, event@, timestamp),
    {
        let timestamp = current_timestamp();
        self.step_at(event, timestamp)
    }
}

/// What the outside work returns for a job, whichever step asks for it.
pub struct OutsideResults {
    /// The prompt of the request message, or `None` where the text is not one.
    pub parsed: Option<Seq<char>>,
    /// The model's answer, or `None` where the model server failed.
    pub generated: Option<Seq<char>>,
    /// Whether the broker takes the reply.
    pub published: bool,
}

/// The event with which the outside work answers an action.
pub open spec fn spec_answer(a: JobActionView, r: OutsideResults) -> Option<JobEventView> {
    match a {
        JobActionView::ParseRequest(_) => Some(JobEventView::Parsed(r.parsed)),
        JobActionView::Generate(_) => Some(JobEventView::Generated(r.generated)),
        JobActionView::Publish(_) => Some(JobEventView::Published(r.published)),
        JobActionView::Ack(_, _) => Some(JobEventView::Acked),
        _ => None,
    }
}

/// The actions a job takes, from action `a` on, when the outside work
/// returns `r`, for at most `fuel` further steps.
pub open spec fn spec_run(j: JobView, a: JobActionView, r: OutsideResults, timestamp: u64, fuel: nat) -> Seq<JobActionView>
    decreases fuel,
{
    if fuel == 0 {
        seq![a]
    } else {
        match spec_answer(a, r) {
            None => seq![a],
            Some(e) => {
                let (j2, a2) = spec_step(j, e, timestamp);
                seq![a] + spec_run(j2, a2, r, timestamp, (fuel - 1) as nat)
            },
        }
    }
}

/// How many acknowledgements a sequence of actions holds.
pub open spec fn count_acks(t: Seq<JobActionView>) -> nat
    decreases t.len(),
{
    if t.len() == 0 {
        0
    } else {
        count_acks(t.drop_last()) + if t.last() is Ack {
            1nat
        } else {
            0nat
        }
    }
}

/// How the handling of a delivery ends: the first failure along the way, if any.
pub open spec fn spec_handling_result(d: JobDeliveryView, r: OutsideResults) -> Result<(), JobError> {
    if !valid_utf8(d.content) {
        Err(JobError::InvalidUtf8)
    } else if r.parsed is None {
        Err(JobError::InvalidRequest)
    } else if d.reply_to is None {
        Err(JobError::MissingReplyTo)
    } else if r.generated is None {
        Err(JobError::ModelFailed)
    } else if !r.published {
        Err(JobError::PublishFailed)
    } else {
        Ok(())
    }
}

/// Every delivery that carries a correlation id is acknowledged exactly
/// once, alone and under its own delivery tag, whatever the outside work
/// returns; the acknowledgement reports the first failure, if any; any
/// reply goes to the queue the delivery named, under its correlation id,
/// with the model's answer; and the job then ends.
pub proof fn law_labelled_delivery_acknowledged_once(d: JobDeliveryView, r: OutsideResults, timestamp: u64)
    requires
        d.correlation_id is Some,
    ensures
        ({
            let (j, a) = spec_start(d);
            let t = spec_run(j->0, a, r, timestamp, 4);
            &&& j is Some
            &&& t.last() is Done
            &&& count_acks(t) == 1
            &&& forall|i: int| 0 <= i < t.len() && t[i] is Ack ==> t[i] == JobActionView::Ack(
                AckPlan { delivery_tag: d.delivery_tag, multiple: false },
                spec_handling_result(d, r),
            )
            &&& forall|i: int| 0 <= i < t.len() && t[i] is Publish ==> t[i] == JobActionView::Publish(
                spec_reply_plan(d.correlation_id->0, d.reply_to->0, r.generated->0, timestamp),
            )
        }),
{
    reveal_with_fuel(spec_run, 5);
    reveal_with_fuel(count_acks, 6);
    let (j, a) = spec_start(d);
    let t = spec_run(j->0, a, r, timestamp, 4);
    if !valid_utf8(d.content) {
        assert(t =~= seq![a, JobActionView::Done]);
    } else if r.parsed is None {
        let (j1, a1) = spec_step(j->0, JobEventView::Parsed(r.parsed), timestamp);
        assert(t =~= seq![a, a1, JobActionView::Done]);
    } else if d.reply_to is None {
        let (j1, a1) = spec_step(j->0, JobEventView::Parsed(r.parsed), timestamp);
        assert(t =~= seq![a, a1, JobActionView::Done]);
    } else if r.generated is None {
        let (j1, a1) = spec_step(j->0, JobEventView::Parsed(r.parsed), timestamp);
        let (j2, a2) = spec_step(j1, JobEventView::Generated(r.generated), timestamp);
        assert(t =~= seq![a, a1, a2, JobActionView::Done]);
    } else {
        let (j1, a1) = spec_step(j->0, JobEventView::Parsed(r.parsed), timestamp);
        let (j2, a2) = spec_step(j1, JobEventView::Generated(r.generated), timestamp);
        let (j3, a3) = spec_step(j2, JobEventView::Published(r.published), timestamp);
        assert(t =~= seq![a, a1, a2, a3, JobActionView::Done]);
    }
}

/// The acknowledgement comes only once the handling is over: it is the
/// last action before the job ends, and no earlier step acknowledges.
pub proof fn law_acknowledged_only_after_handling(d: JobDeliveryView, r: OutsideResults, timestamp: u64)
    requires
        d.correlation_id is Some,
    ensures
        ({
            let (j, a) = spec_start(d);
            let t = spec_run(j->0, a, r, timestamp, 4);
            &&& t.len() >= 2
            &&& t[t.len() - 2] is Ack
            &&& t[t.len() - 1] is Done
            &&& forall|i: int| 0 <= i < t.len() - 2 ==> !(t[i] is Ack) && !(t[i] is Done)
        }),
{
    reveal_with_fuel(spec_run, 5);
    let (j, a) = spec_start(d);
    let t = spec_run(j->0, a, r, timestamp, 4);
    if !valid_utf8(d.content) {
        assert(t =~= seq![a, JobActionView::Done]);
    } else if r.parsed is None || d.reply_to is None {
        let (j1, a1) = spec_step(j->0, JobEventView::Parsed(r.parsed), timestamp);
        assert(t =~= seq![a, a1, JobActionView::Done]);
    } else if r.generated is None {
        let (j1, a1) = spec_step(j->0, JobEventView::Parsed(r.parsed), timestamp);
        let (j2, a2) = spec_step(j1, JobEventView::Generated(r.generated), timestamp);
        assert(t =~= seq![a, a1, a2, JobActionView::Done]);
    } else {
        let (j1, a1) = spec_step(j->0, JobEventView::Parsed(r.parsed), timestamp);
        let (j2, a2) = spec_step(j1, JobEventView::Generated(r.generated), timestamp);
        let (j3, a3) = spec_step(j2, JobEventView::Published(r.published), timestamp);
        assert(t =~= seq![a, a1, a2, a3, JobActionView::Done]);
    }
}

/// The same delivery under another delivery tag.
pub open spec fn with_delivery_tag(d: JobDeliveryView, tag: u64) -> JobDeliveryView {
    JobDeliveryView { delivery_tag: tag, ..d }
}

/// The handling of a delivery does not depend on its delivery tag: under
/// another tag the job takes the same actions with the same result, and
/// only the acknowledgement names the other tag.
pub proof fn law_handling_independent_of_delivery_tag(d: JobDeliveryView, tag: u64, r: OutsideResults, timestamp: u64)
    requires
        d.correlation_id is Some,
    ensures
        ({
            let d2 = with_delivery_tag(d, tag);
            let (j1, a1) = spec_start(d);
            let (j2, a2) = spec_start(d2);
            let t1 = spec_run(j1->0, a1, r, timestamp, 4);
            let t2 = spec_run(j2->0, a2, r, timestamp, 4);
            &&& spec_handling_result(d2, r) == spec_handling_result(d, r)
            &&& t2.len() == t1.len()
            &&& forall|i: int| 0 <= i < t1.len() ==> if t1[i] is Ack {
                t2[i] == JobActionView::Ack(AckPlan { delivery_tag: tag, multiple: false }, t1[i]->Ack_1)
            } else {
                t2[i] == t1[i]
            }
        }),
{
    reveal_with_fuel(spec_run, 5);
    let d2 = with_delivery_tag(d, tag);
    let (j1, a1) = spec_start(d);
    let (j2, a2) = spec_start(d2);
    let t1 = spec_run(j1->0, a1, r, timestamp, 4);
    let t2 = spec_run(j2->0, a2, r, timestamp, 4);
    if !valid_utf8(d.content) {
        assert(t1 =~= seq![a1, JobActionView::Done]);
        assert(t2 =~= seq![a2, JobActionView::Done]);
    } else if r.parsed is None || d.reply_to is None {
        let (k1, b1) = spec_step(j1->0, JobEventView::Parsed(r.parsed), timestamp);
        let (k2, b2) = spec_step(j2->0, JobEventView::Parsed(r.parsed), timestamp);
        assert(t1 =~= seq![a1, b1, JobActionView::Done]);
        assert(t2 =~= seq![a2, b2, JobActionView::Done]);
    } else if r.generated is None {
        let (k1, b1) = spec_step(j1->0, JobEventView::Parsed(r.parsed), timestamp);
        let (l1, c1) = spec_step(k1, JobEventView::Generated(r.generated), timestamp);
        let (k2, b2) = spec_step(j2->0, JobEventView::Parsed(r.parsed), timestamp);
        let (l2, c2) = spec_step(k2, JobEventView::Generated(r.generated), timestamp);
        assert(t1 =~= seq![a1, b1, c1, JobActionView::Done]);
        assert(t2 =~= seq![a2, b2, c2, JobActionView::Done]);
    } else {
        let (k1, b1) = spec_step(j1->0, JobEventView::Parsed(r.parsed), timestamp);
        let (l1, c1) = spec_step(k1, JobEventView::Generated(r.generated), timestamp);
        let (m1, e1) = spec_step(l1, JobEventView::Published(r.published), timestamp);
        let (k2, b2) = spec_step(j2->0, JobEventView::Parsed(r.parsed), timestamp);
        let (l2, c2) = spec_step(k2, JobEventView::Generated(r.generated), timestamp);
        let (m2, e2) = spec_step(l2, JobEventView::Published(r.published), timestamp);
        assert(t1 =~= seq![a1, b1, c1, e1, JobActionView::Done]);
        assert(t2 =~= seq![a2, b2, c2, e2, JobActionView::Done]);
    }
}

/// A delivery without a correlation id is left alone: no job, no
/// acknowledgement.
pub proof fn law_unlabelled_delivery_left_alone(d: JobDeliveryView)
    requires
        d.correlation_id is None,
    ensures
        spec_start(d) == (None::<JobView>, JobActionView::Ignore),
{
}

/// The jobs queue, as the model handler declares it: shared.
pub fn job_queue_setup(jobs_queue: &str) -> (res: QueueSetup)
    ensures
        res.name@ == jobs_queue@,
        !res.exclusive,
{
    QueueSetup { name: jobs_queue.to_owned(), exclusive: false }
}

/// How the model handler consumes the jobs queue: one unacknowledged job at
/// a time, each acknowledged explicitly.
pub fn job_consume_plan(jobs_queue: &str) -> (res: ConsumePlan)
    ensures
        res.queue@ == jobs_queue@,
        !res.exclusive,
        !res.auto_ack,
        res.prefetch_count == Some(1u16),
{
    ConsumePlan { queue: jobs_queue.to_owned(), exclusive: false, auto_ack: false, prefetch_count: Some(1) }
}

} // verus!
