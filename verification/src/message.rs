//! The messages that travel through the queues.
use vstd::prelude::*;
use crate::json::{json_object1, json_read_object1, law_json_object1_reads_back, spec_json_object1};

verus! {

/// A generation job: the prompt to hand to the model.
#[derive(Clone, Debug)]
pub struct RequestMessage {
    pub prompt: String,
}

/// The model's answer to a generation job.
#[derive(Clone, Debug)]
pub struct ResponseMessage {
    pub response: String,
}

/// The JSON text of a request message.
pub open spec fn spec_request_message_json(prompt: Seq<char>) -> Seq<char> {
    spec_json_object1("prompt"@, prompt)
}

/// The JSON text of a response message.
pub open spec fn spec_response_message_json(response: Seq<char>) -> Seq<char> {
    spec_json_object1("response"@, response)
}

impl RequestMessage {
    pub fn new(prompt: &str) -> (res: RequestMessage)
        ensures
            res.prompt@ == prompt@,
    {
        RequestMessage { prompt: prompt.to_owned() }
    }

    /// The message as JSON, `{"prompt":...}`.
    pub fn to_json(&self) -> (res: String)
        ensures
            res@ == spec_request_message_json(self.prompt@),
    {
        json_object1("prompt", self.prompt.as_str())
    }
}

impl ResponseMessage {
    pub fn new(response: &str) -> (res: ResponseMessage)
        ensures
            res.response@ == response@,
    {
        ResponseMessage { response: response.to_owned() }
    }

    /// The message as JSON, `{"response":...}`.
    pub fn to_json(&self) -> (res: String)
        ensures
            res@ == spec_response_message_json(self.response@),
    {
        json_object1("response", self.response.as_str())
    }
}

/// The body of a job reads back as the prompt it was made from.
pub proof fn law_request_message_reads_back(prompt: Seq<char>)
    ensures
        json_read_object1(spec_request_message_json(prompt), "prompt"@) == Some(prompt),
{
    law_json_object1_reads_back("prompt"@, prompt);
}

/// The body of a reply reads back as the model's answer it was made from.
pub proof fn law_response_message_reads_back(response: Seq<char>)
    ensures
        json_read_object1(spec_response_message_json(response), "response"@) == Some(response),
{
    law_json_object1_reads_back("response"@, response);
}

} // verus!
