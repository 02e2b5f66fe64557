//! Laws that span the processes: what the front end publishes is what the
//! model handler works on, and what the model handler publishes comes back
//! to the request that asked.
use vstd::prelude::*;
use vstd::utf8::{encode_utf8, encode_utf8_decode_utf8, encode_utf8_valid_utf8};
use crate::amqp::PublishPlanView;
use crate::frontend::spec_request_plan;
use crate::job::{spec_reply_plan, spec_run, spec_start, spec_step, JobActionView, JobDeliveryView, JobEventView, OutsideResults};
use crate::json::json_read_object1;
use crate::message::law_request_message_reads_back;
use crate::pending::{spec_register, spec_route, Routing};

verus! {

/// The delivery in which the broker hands a published job to the model
/// handler: the job's correlation id, reply queue and body (as UTF-8).
pub open spec fn delivery_of(plan: PublishPlanView, delivery_tag: u64) -> JobDeliveryView {
    JobDeliveryView {
        delivery_tag,
        correlation_id: Some(plan.correlation_id),
        reply_to: plan.reply_to,
        content: encode_utf8(plan.body),
    }
}

/// A prompt that the front end publishes as a job reaches the model handler
/// as a body that reads back as that prompt, and the model is asked that
/// prompt; the answer is published to the front end's response queue under
/// the request's correlation id, where it is handed to the waiter that the
/// request registered.
pub proof fn law_answer_reaches_requester<W>(
    table: Map<Seq<char>, W>,
    waiter: W,
    correlation_id: Seq<char>,
    prompt: Seq<char>,
    response_queue: Seq<char>,
    jobs_queue: Seq<char>,
    sent_at: u64,
    delivery_tag: u64,
    answer: Seq<char>,
    answered_at: u64,
)
    ensures
        ({
            let job_plan = spec_request_plan(correlation_id, prompt, response_queue, jobs_queue, sent_at);
            let (job, first) = spec_start(delivery_of(job_plan, delivery_tag));
            let results = OutsideResults { parsed: Some(prompt), generated: Some(answer), published: true };
            let t = spec_run(job->0, first, results, answered_at, 4);
            let reply = spec_reply_plan(correlation_id, response_queue, answer, answered_at);
            &&& first == JobActionView::ParseRequest(job_plan.body)
            &&& json_read_object1(job_plan.body, "prompt"@) == Some(prompt)
            &&& t.contains(JobActionView::Generate(prompt))
            &&& t.contains(JobActionView::Publish(reply))
            &&& job_plan.reply_to == Some(reply.routing_key)
            &&& spec_route(spec_register(table, correlation_id, waiter).0, Some(reply.correlation_id)).1
                == Routing::Matched(waiter)
        }),
{
    let job_plan = spec_request_plan(correlation_id, prompt, response_queue, jobs_queue, sent_at);
    let d = delivery_of(job_plan, delivery_tag);
    encode_utf8_valid_utf8(job_plan.body);
    encode_utf8_decode_utf8(job_plan.body);
    law_request_message_reads_back(prompt);
    let (job, first) = spec_start(d);
    let results = OutsideResults { parsed: Some(prompt), generated: Some(answer), published: true };
    reveal_with_fuel(spec_run, 5);
    let t = spec_run(job->0, first, results, answered_at, 4);
    let (j1, a1) = spec_step(job->0, JobEventView::Parsed(Some(prompt)), answered_at);
    let (j2, a2) = spec_step(j1, JobEventView::Generated(Some(answer)), answered_at);
    let (j3, a3) = spec_step(j2, JobEventView::Published(true), answered_at);
    assert(t =~= seq![first, a1, a2, a3, JobActionView::Done]);
    assert(t[1] == JobActionView::Generate(prompt));
    assert(t[2] == JobActionView::Publish(spec_reply_plan(correlation_id, response_queue, answer, answered_at)));
}

} // verus!
