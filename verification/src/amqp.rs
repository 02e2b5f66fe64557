//! What the service asks of the message broker, as plain values: the
//! queues it declares and binds, how it consumes them, and the messages it
//! publishes and acknowledges.
use vstd::prelude::*;
use vstd::string::*;
use crate::text::opt_string_view;

verus! {

/// The exchange through which every message of the service is routed.
pub const EXCHANGE: &'static str = "amq.topic";

/// The content type of every message the service publishes as JSON.
pub const JSON_CONTENT_TYPE: &'static str = "application/json";

/// A queue to declare, and whether only the declaring connection may use it.
#[derive(Clone, Debug)]
pub struct QueueSetup {
    pub name: String,
    pub exclusive: bool,
}

/// The binding of a declared queue: it receives what the exchange routes
/// under the queue's own name.
#[derive(Clone, Debug)]
pub struct BindPlan {
    pub queue: String,
    pub exchange: String,
    pub routing_key: String,
}

/// The broker declared a queue under another name than the one asked for.
#[derive(Clone, Debug)]
pub struct QueueNameMismatch {
    pub configured: String,
    pub created: String,
}

/// How to consume a queue.
#[derive(Clone, Debug)]
pub struct ConsumePlan {
    pub queue: String,
    /// Only this consumer may use the queue.
    pub exclusive: bool,
    /// The broker counts a message as acknowledged once delivered.
    pub auto_ack: bool,
    /// The most unacknowledged messages delivered at once, where limited.
    pub prefetch_count: Option<u16>,
}

/// A message to publish, with the properties it carries.
#[derive(Clone, Debug)]
pub struct PublishPlan {
    pub exchange: String,
    pub routing_key: String,
    pub content_type: String,
    pub correlation_id: String,
    /// Milliseconds after which the broker may drop the message, as decimal text.
    pub expiration: Option<String>,
    /// Whether the broker keeps the message on disk.
    pub persistent: bool,
    pub reply_to: Option<String>,
    /// Milliseconds since the Unix epoch when the message was made.
    pub timestamp: u64,
    pub body: String,
}

/// A message to publish, as plain values.
pub struct PublishPlanView {
    pub exchange: Seq<char>,
    pub routing_key: Seq<char>,
    pub content_type: Seq<char>,
    pub correlation_id: Seq<char>,
    pub expiration: Option<Seq<char>>,
    pub persistent: bool,
    pub reply_to: Option<Seq<char>>,
    pub timestamp: u64,
    pub body: Seq<char>,
}

impl View for PublishPlan {
    type V = PublishPlanView;

    open spec fn view(&self) -> PublishPlanView {
        PublishPlanView {
            exchange: self.exchange@,
            routing_key: self.routing_key@,
            content_type: self.content_type@,
            correlation_id: self.correlation_id@,
            expiration: opt_string_view(self.expiration),
            persistent: self.persistent,
            reply_to: opt_string_view(self.reply_to),
            timestamp: self.timestamp,
            body: self.body@,
        }
    }
}

/// The acknowledgement of one delivery.
#[derive(Clone, Copy, Debug, PartialEq, Eq, Structural)]
pub struct AckPlan {
    pub delivery_tag: u64,
    /// Whether every earlier unacknowledged delivery is acknowledged too.
    pub multiple: bool,
}

/// Checks the name under which the broker declared a queue; where it is the
/// configured one, the queue is to be bound to the exchange under that name.
pub fn check_declared_queue(configured: &str, created: &str) -> (res: Result<BindPlan, QueueNameMismatch>)
    ensures
        (res is Ok) == (created@ == configured@),
        res matches Ok(plan) ==> plan.queue@ == configured@ && plan.exchange@ == EXCHANGE@
            && plan.routing_key@ == configured@,
        res matches Err(e) ==> e.configured@ == configured@ && e.created@ == created@,
{
    let configured_name = configured.to_owned();
    let created_name = created.to_owned();
    if created_name == configured_name {
        Ok(BindPlan {
            queue: configured_name,
            exchange: EXCHANGE.to_owned(),
            routing_key: configured.to_owned(),
        })
    } else {
        Err(QueueNameMismatch { configured: configured_name, created: created_name })
    }
}

/// Acknowledge exactly the delivery with this tag.
pub fn ack_single(delivery_tag: u64) -> (res: AckPlan)
    ensures
        res.delivery_tag == delivery_tag,
        !res.multiple,
{
    AckPlan { delivery_tag, multiple: false }
}

/// The character of decimal digit `d`.
pub open spec fn spec_digit_char(d: int) -> char {
    seq!['0', '1', '2', '3', '4', '5', '6', '7', '8', '9'][d]
}

/// The decimal text of `n`, without leading zeros.
pub open spec fn spec_decimal_text(n: nat) -> Seq<char>
    decreases n,
{
    if n < 10 {
        seq![spec_digit_char(n as int)]
    } else {
        spec_decimal_text(n / 10) + seq![spec_digit_char((n % 10) as int)]
    }
}

fn digit_text(d: u64) -> (res: &'static str)
    requires
        d < 10,
    ensures
        res@ == seq![spec_digit_char(d as int)],
{
    proof {
        reveal_strlit("0");
        reveal_strlit("1");
        reveal_strlit("2");
        reveal_strlit("3");
        reveal_strlit("4");
        reveal_strlit("5");
        reveal_strlit("6");
        reveal_strlit("7");
        reveal_strlit("8");
        reveal_strlit("9");
    }
    if d == 0 { "0" }
    else if d == 1 { "1" }
    else if d == 2 { "2" }
    else if d == 3 { "3" }
    else if d == 4 { "4" }
    else if d == 5 { "5" }
    else if d == 6 { "6" }
    else if d == 7 { "7" }
    else if d == 8 { "8" }
    else { "9" }
}

/// The decimal text of `n`.
pub fn decimal_text(n: u64) -> (res: String)
    ensures
        res@ == spec_decimal_text(n as nat),
    decreases n,
{
    if n < 10 {
        let mut s = String::new();
        s.append(digit_text(n));
        assert(s@ =~= spec_decimal_text(n as nat));
        s
    } else {
        let mut s = decimal_text(n / 10);
        s.append(digit_text(n % 10));
        assert(s@ =~= spec_decimal_text(n as nat));
        s
    }
}

/// `chrono::Utc::now().timestamp_millis()`: the current time in
/// milliseconds since the Unix epoch. It depends on the clock, so nothing
/// is claimed of it.
#[verifier::external_body]
fn utc_now_millis() -> (res: i64) {
    chrono::Utc::now().timestamp_millis()
}

/// The timestamp a published message carries: the current time in
/// milliseconds, reinterpreted as unsigned.
pub(crate) fn current_timestamp() -> (res: u64) {
    let millis = utc_now_millis();
    millis as u64
}

} // verus!
