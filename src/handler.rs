use async_openai::error::OpenAIError;
use async_openai::types::{
    ChatCompletionRequestMessage, CreateChatCompletionRequest, CreateChatCompletionResponse,
};
use vstd::prelude::*;

use crate::completion::{
    build_request, chat_request_of, completion_text, provider_form, GenerateError, MAX_TOKENS,
    MODEL,
};
use crate::prompt::{compose_messages, composed, GenerateRequest};

verus! {

pub const STATUS_OK: u16 = 200;

pub const STATUS_INTERNAL_SERVER_ERROR: u16 = 500;

/// The body of the health check.
pub fn get_health() -> (r: &'static str)
    ensures
        r@ == "OK"@,
{
    "OK"
}

/// The status and body of the health check.
pub fn health_response() -> (r: (u16, &'static str))
    ensures
        r.0 == STATUS_OK,
        r.1@ == "OK"@,
{
    (STATUS_OK, get_health())
}

pub open spec fn error_text(e: GenerateError) -> Seq<char> {
    match e {
        GenerateError::MessageBuild => "failed to build message for OpenAI API"@,
        GenerateError::RequestBuild => "failed to build OpenAI request"@,
        GenerateError::UpstreamCall => "failed to request OpenAI"@,
        GenerateError::EmptyResponse => "OpenAI returned no choice"@,
    }
}

/// The fixed message that names the stage that failed.
pub fn error_message(e: GenerateError) -> (r: &'static str)
    ensures
        r@ == error_text(e),
{
    match e {
        GenerateError::MessageBuild => "failed to build message for OpenAI API",
        GenerateError::RequestBuild => "failed to build OpenAI request",
        GenerateError::UpstreamCall => "failed to request OpenAI",
        GenerateError::EmptyResponse => "OpenAI returned no choice",
    }
}

pub open spec fn response_of(result: Result<Seq<char>, GenerateError>) -> (u16, Seq<char>) {
    match result {
        Ok(text) => (STATUS_OK, text),
        Err(e) => (STATUS_INTERNAL_SERVER_ERROR, error_text(e)),
    }
}

/// The status and body answering a generate request: the text itself on
/// success, else a server error with the fixed message of its stage.
pub fn respond(result: Result<String, GenerateError>) -> (r: (u16, String))
    ensures
        (r.0, r.1@) == response_of(
            match result {
                Ok(s) => Ok(s@),
                Err(e) => Err(e),
            },
        ),
{
    match result {
        Ok(text) => (STATUS_OK, text),
        Err(e) => (STATUS_INTERNAL_SERVER_ERROR, String::from_str(error_message(e))),
    }
}

/// The completion request for `req`: its composed messages, with the fixed
/// model and token limit.
pub fn prepare_completion(req: &GenerateRequest) -> (r: Result<
    CreateChatCompletionRequest,
    GenerateError,
>)
    ensures
        r is Ok,
        r matches Ok(q) ==> exists|v: Seq<ChatCompletionRequestMessage>|
            q == chat_request_of(MODEL@, MAX_TOKENS, v) && provider_form(v, composed(*req)),
{
    let messages = compose_messages(req);
    build_request(&messages)
}

/// The status and body for the outcome of the completion call.
pub fn finish_generate(outcome: &Result<CreateChatCompletionResponse, OpenAIError>) -> (r: (
    u16,
    String,
))
    ensures
        outcome is Err ==> (r.0, r.1@) == response_of(Err(GenerateError::UpstreamCall)),
        outcome matches Ok(resp) ==> {
            &&& resp.choices@.len() == 0 ==> (r.0, r.1@) == response_of(
                Err(GenerateError::EmptyResponse),
            )
            &&& resp.choices@.len() > 0 ==> (r.0, r.1@) == response_of(
                Ok(resp.choices@[0].message.content@),
            )
        },
{
    respond(completion_text(outcome))
}

/// Every failure is answered with a server error whose body is one of the
/// four fixed, non-empty messages: it depends on the failed stage alone and
/// carries nothing of the request.
pub proof fn lemma_failure_response_fixed(e: GenerateError)
    ensures
        response_of(Err(e)).0 == STATUS_INTERNAL_SERVER_ERROR,
        response_of(Err(e)).1.len() > 0,
        response_of(Err(e)).1 == error_text(GenerateError::MessageBuild) || response_of(
            Err(e),
        ).1 == error_text(GenerateError::RequestBuild) || response_of(Err(e)).1 == error_text(
            GenerateError::UpstreamCall,
        ) || response_of(Err(e)).1 == error_text(GenerateError::EmptyResponse),
{
    reveal_strlit("failed to build message for OpenAI API");
    reveal_strlit("failed to build OpenAI request");
    reveal_strlit("failed to request OpenAI");
    reveal_strlit("OpenAI returned no choice");
}

} // verus!
