//! The model server: its settings, the generation request sent to it, and
//! the body of its answer.
use vstd::prelude::*;
use vstd::string::*;
use crate::json::{
    json_bool, json_expect, json_read_string, json_read_string_member, json_string,
    law_json_read_string, law_json_read_string_member, push_json_member, spec_json_bool,
    spec_json_member, spec_json_string,
};
use crate::amqp::spec_decimal_text;
use crate::number::{law_parse_reads_decimal_text, IntErrorKind, parse_unsigned, spec_int_error_description, spec_parse_unsigned};
use crate::text::opt_string_view;

verus! {

/// The path of the model server's generation endpoint.
pub const GENERATE_PATH: &'static str = "/api/generate";

/// How many times a request to the model server is retried after a
/// transient failure, with exponential backoff.
pub const MAX_RETRIES: u32 = 5;

/// Where the model server is, which model it runs, and how long a request
/// to it may take.
#[derive(Clone, Debug)]
pub struct OllamaConfig {
    pub host: String,
    pub model: String,
    pub timeout_secs: u64,
}

/// Why the model server settings could not be assembled.
#[derive(Clone, Copy, Debug, PartialEq, Eq, Structural)]
pub enum OllamaConfigError {
    MissingHost,
    MissingModel,
    MissingTimeout,
    InvalidTimeout(IntErrorKind),
}

pub open spec fn spec_ollama_config_error_message(e: OllamaConfigError) -> Seq<char> {
    match e {
        OllamaConfigError::MissingHost => "Error getting ollama host"@,
        OllamaConfigError::MissingModel => "Error getting ollama model"@,
        OllamaConfigError::MissingTimeout => "Error getting timeout"@,
        OllamaConfigError::InvalidTimeout(kind) => spec_int_error_description(kind),
    }
}

impl OllamaConfigError {
    pub fn message(&self) -> (res: &'static str)
        ensures
            res@ == spec_ollama_config_error_message(*self),
    {
        match self {
            OllamaConfigError::MissingHost => "Error getting ollama host",
            OllamaConfigError::MissingModel => "Error getting ollama model",
            OllamaConfigError::MissingTimeout => "Error getting timeout",
            OllamaConfigError::InvalidTimeout(kind) => kind.description(),
        }
    }
}

/// The outcome of assembling the settings from the values of `OLLAMA_HOST`,
/// `OLLAMA_MODEL` and `REQUEST_TIMEOUT` (seconds), checked in that order.
pub open spec fn spec_ollama_config(
    host: Option<Seq<char>>,
    model: Option<Seq<char>>,
    timeout: Option<Seq<char>>,
) -> Result<(Seq<char>, Seq<char>, int), OllamaConfigError> {
    if host is None {
        Err(OllamaConfigError::MissingHost)
    } else if model is None {
        Err(OllamaConfigError::MissingModel)
    } else if timeout is None {
        Err(OllamaConfigError::MissingTimeout)
    } else {
        match spec_parse_unsigned(timeout->0, u64::MAX as int) {
            Err(kind) => Err(OllamaConfigError::InvalidTimeout(kind)),
            Ok(t) => Ok((host->0, model->0, t)),
        }
    }
}

/// Every timeout a `u64` holds is accepted: with the timeout given as its
/// decimal text and the other settings present, the settings are assembled
/// with that timeout.
pub proof fn law_every_timeout_accepted(host: Seq<char>, model: Seq<char>, timeout: nat)
    requires
        timeout <= u64::MAX,
    ensures
        spec_ollama_config(Some(host), Some(model), Some(spec_decimal_text(timeout)))
            == Ok::<(Seq<char>, Seq<char>, int), OllamaConfigError>((host, model, timeout as int)),
{
    law_parse_reads_decimal_text(timeout, u64::MAX as int);
}

impl OllamaConfig {
    pub open spec fn spec_tuple(&self) -> (Seq<char>, Seq<char>, int) {
        (self.host@, self.model@, self.timeout_secs as int)
    }

    /// Assembles the settings from the variables' values.
    pub fn from_values(host: Option<String>, model: Option<String>, timeout: Option<String>) -> (res: Result<OllamaConfig, OllamaConfigError>)
        ensures
            match spec_ollama_config(opt_string_view(host), opt_string_view(model), opt_string_view(timeout)) {
                Ok(t) => res matches Ok(cfg) && cfg.spec_tuple() == t,
                Err(e) => res == Err::<OllamaConfig, OllamaConfigError>(e),
            },
    {
        let host = match host {
            Some(h) => h,
            None => return Err(OllamaConfigError::MissingHost),
        };
        let model = match model {
            Some(m) => m,
            None => return Err(OllamaConfigError::MissingModel),
        };
        let timeout_text = match timeout {
            Some(t) => t,
            None => return Err(OllamaConfigError::MissingTimeout),
        };
        let timeout_str = timeout_text.as_str();
        match parse_unsigned(timeout_str, u64::MAX) {
            Ok(timeout_secs) => Ok(OllamaConfig { host, model, timeout_secs }),
            Err(kind) => Err(OllamaConfigError::InvalidTimeout(kind)),
        }
    }
}

/// The body of a generation request to the model server.
#[derive(Clone, Debug)]
pub struct RequestBody {
    pub model: String,
    pub prompt: String,
    /// Whether the answer comes in pieces as it is generated.
    pub stream: bool,
}

/// The JSON text of a generation request body.
pub open spec fn spec_request_body_json(model: Seq<char>, prompt: Seq<char>, stream: bool) -> Seq<char> {
    seq!['{'] + spec_json_member("model"@, spec_json_string(model)) + seq![',']
        + spec_json_member("prompt"@, spec_json_string(prompt)) + seq![',']
        + spec_json_member("stream"@, spec_json_bool(stream)) + seq!['}']
}

/// Reads a generation request body, `{"model":...,"prompt":...,"stream":...}`
/// with its members in that order: the model, the prompt, and whether the
/// answer is to be streamed.
pub open spec fn json_read_request_body(t: Seq<char>) -> Option<(Seq<char>, Seq<char>, bool)> {
    match json_expect(t, seq!['{']) {
        None => None,
        Some(t1) => match json_read_string_member(t1, "model"@) {
            None => None,
            Some((model, t2)) => match json_expect(t2, seq![',']) {
                None => None,
                Some(t3) => match json_read_string_member(t3, "prompt"@) {
                    None => None,
                    Some((prompt, t4)) => match json_expect(t4, seq![',']) {
                        None => None,
                        Some(t5) => match json_read_string(t5) {
                            None => None,
                            Some((key, t6)) => if key != "stream"@ {
                                None
                            } else {
                                match json_expect(t6, seq![':']) {
                                    None => None,
                                    Some(t7) => if t7 == seq!['t', 'r', 'u', 'e', '}'] {
                                        Some((model, prompt, true))
                                    } else if t7 == seq!['f', 'a', 'l', 's', 'e', '}'] {
                                        Some((model, prompt, false))
                                    } else {
                                        None
                                    },
                                }
                            },
                        },
                    },
                },
            },
        },
    }
}

proof fn lemma_expect(lit: Seq<char>, rest: Seq<char>)
    ensures
        json_expect(lit + rest, lit) == Some(rest),
{
    assert((lit + rest).subrange(0, lit.len() as int) =~= lit);
    assert((lit + rest).subrange(lit.len() as int, (lit + rest).len() as int) =~= rest);
}

/// A generation request body reads back as the model, the prompt and the
/// streaming choice it was written for.
#[verifier::rlimit(40)]
pub proof fn law_request_body_reads_back(model: Seq<char>, prompt: Seq<char>, stream: bool)
    ensures
        json_read_request_body(spec_request_body_json(model, prompt, stream)) == Some((model, prompt, stream)),
{
    let t = spec_request_body_json(model, prompt, stream);
    let b = spec_json_bool(stream) + seq!['}'];
    let after = seq![':'] + b;
    let tail3 = spec_json_string("stream"@) + after;
    let r4 = seq![','] + tail3;
    let m2 = spec_json_member("prompt"@, spec_json_string(prompt));
    let tail2 = m2 + r4;
    let r2 = seq![','] + tail2;
    let m1 = spec_json_member("model"@, spec_json_string(model));
    let tail1 = m1 + r2;
    assert(t =~= seq!['{'] + tail1);
    lemma_expect(seq!['{'], tail1);
    law_json_read_string_member("model"@, model, r2);
    lemma_expect(seq![','], tail2);
    law_json_read_string_member("prompt"@, prompt, r4);
    lemma_expect(seq![','], tail3);
    law_json_read_string("stream"@, after);
    lemma_expect(seq![':'], b);
    if stream {
        assert(b =~= seq!['t', 'r', 'u', 'e', '}']);
    } else {
        assert(b =~= seq!['f', 'a', 'l', 's', 'e', '}']);
    }
}

impl RequestBody {
    /// A request for the whole answer at once.
    pub fn new(model: &str, prompt: &str) -> (res: RequestBody)
        ensures
            res.model@ == model@,
            res.prompt@ == prompt@,
            !res.stream,
    {
        RequestBody { model: model.to_owned(), prompt: prompt.to_owned(), stream: false }
    }

    /// The body as JSON, `{"model":...,"prompt":...,"stream":...}`.
    pub fn to_json(&self) -> (res: String)
        ensures
            res@ == spec_request_body_json(self.model@, self.prompt@, self.stream),
    {
        let mut out = String::from_str("{");
        let model = json_string(self.model.as_str());
        push_json_member(&mut out, "model", model.as_str());
        out.append(",");
        let prompt = json_string(self.prompt.as_str());
        push_json_member(&mut out, "prompt", prompt.as_str());
        out.append(",");
        push_json_member(&mut out, "stream", json_bool(self.stream));
        out.append("}");
        proof {
            reveal_strlit("{");
            reveal_strlit(",");
            reveal_strlit("}");
        }
        assert(out@ =~= spec_request_body_json(self.model@, self.prompt@, self.stream));
        out
    }
}

/// The body of the model server's answer to a generation request.
#[derive(Clone, Debug)]
pub struct ResponseBody {
    pub model: String,
    pub created_at: String,
    pub response: String,
    pub done: bool,
    pub context: Vec<u32>,
    pub total_duration: u64,
    pub load_duration: u64,
    pub prompt_eval_count: u32,
    pub eval_count: u32,
    pub prompt_eval_duration: u64,
    pub eval_duration: u64,
}

/// A generation request to the model server: where to post it, and its body.
#[derive(Clone, Debug)]
pub struct OllamaRequest {
    pub url: String,
    pub body: String,
}

/// The request that asks the configured model to answer `prompt` in one
/// piece, posted to the generation endpoint of the configured host.
pub fn generate_request(config: &OllamaConfig, prompt: &str) -> (res: OllamaRequest)
    ensures
        res.url@ == config.host@ + GENERATE_PATH@,
        res.body@ == spec_request_body_json(config.model@, prompt@, false),
{
    let body = RequestBody::new(config.model.as_str(), prompt);
    let url = config.host.clone().concat(GENERATE_PATH);
    OllamaRequest { url, body: body.to_json() }
}

} // verus!
