use async_openai::error::OpenAIError;
use async_openai::types::{
    ChatChoice, ChatCompletionRequestMessage, ChatCompletionRequestMessageArgs,
    ChatCompletionResponseMessage, CreateChatCompletionRequest, CreateChatCompletionRequestArgs,
    CreateChatCompletionResponse, Usage,
};
use vstd::prelude::*;

use crate::prompt::{messages_view, ChatRole, Message};

verus! {

#[verifier::external_type_specification]
pub struct ExProviderRole(async_openai::types::Role);

#[verifier::external_type_specification]
pub struct ExChatCompletionRequestMessage(ChatCompletionRequestMessage);

#[verifier::external_type_specification]
#[verifier::external_body]
pub struct ExCreateChatCompletionRequest(CreateChatCompletionRequest);

#[verifier::external_type_specification]
pub struct ExChatCompletionResponseMessage(ChatCompletionResponseMessage);

#[verifier::external_type_specification]
pub struct ExChatChoice(ChatChoice);

#[verifier::external_type_specification]
pub struct ExUsage(Usage);

#[verifier::external_type_specification]
pub struct ExCreateChatCompletionResponse(CreateChatCompletionResponse);

#[verifier::external_type_specification]
#[verifier::external_body]
pub struct ExOpenAIError(OpenAIError);

/// The model every completion is asked of.
pub const MODEL: &'static str = "gpt-3.5-turbo";

/// The most tokens a completion may hold.
pub const MAX_TOKENS: u16 = 512;

/// Why a name could not be generated.
#[derive(Clone, Copy, Debug, PartialEq, Eq, Structural)]
pub enum GenerateError {
    /// A conversation message could not be built.
    MessageBuild,
    /// The outbound request could not be assembled from the messages.
    RequestBuild,
    /// The call to the completion service failed.
    UpstreamCall,
    /// The completion service answered with no choice.
    EmptyResponse,
}

pub open spec fn provider_role_of(r: ChatRole) -> async_openai::types::Role {
    match r {
        ChatRole::System => async_openai::types::Role::System,
        ChatRole::User => async_openai::types::Role::User,
        ChatRole::Assistant => async_openai::types::Role::Assistant,
    }
}

/// The provider's name for a role.
pub fn provider_role(r: ChatRole) -> (p: async_openai::types::Role)
    ensures
        p == provider_role_of(r),
{
    match r {
        ChatRole::System => async_openai::types::Role::System,
        ChatRole::User => async_openai::types::Role::User,
        ChatRole::Assistant => async_openai::types::Role::Assistant,
    }
}

/// The built request for the model, the token limit and the messages.
pub uninterp spec fn chat_request_of(
    model: Seq<char>,
    max_tokens: u16,
    messages: Seq<ChatCompletionRequestMessage>,
) -> CreateChatCompletionRequest;

/// `v` is the provider's form of the messages `m`, one for one and in order.
pub open spec fn provider_form(
    v: Seq<ChatCompletionRequestMessage>,
    m: Seq<(ChatRole, Seq<char>)>,
) -> bool {
    &&& v.len() == m.len()
    &&& forall|k: int|
        0 <= k < v.len() ==> {
            &&& (#[trigger] v[k]).role == provider_role_of(m[k].0)
            &&& v[k].content@ == m[k].1
            &&& v[k].name is None
        }
}

/// Relies on ChatCompletionRequestMessageArgs::build: with every unset field
/// taken from the struct's default and no validation, it succeeds, and the
/// message holds the role and content that were set and no author name.
#[verifier::external_body]
fn build_provider_message(role: async_openai::types::Role, content: String) -> (r: Result<
    ChatCompletionRequestMessage,
    OpenAIError,
>)
    ensures
        r is Ok,
        r matches Ok(m) ==> m.role == role && m.content@ == content@ && m.name is None,
{
    ChatCompletionRequestMessageArgs::default().role(role).content(content).build()
}

/// Relies on CreateChatCompletionRequestArgs::build: with every unset field
/// taken from the struct's default and no validation, it succeeds, and the
/// request depends on the model, the token limit and the messages alone.
#[verifier::external_body]
fn build_provider_request(
    model: &str,
    max_tokens: u16,
    messages: Vec<ChatCompletionRequestMessage>,
) -> (r: Result<CreateChatCompletionRequest, OpenAIError>)
    ensures
        r is Ok,
        r matches Ok(q) ==> q == chat_request_of(model@, max_tokens, messages@),
{
    CreateChatCompletionRequestArgs::default().max_tokens(max_tokens).model(model).messages(
        messages,
    ).build()
}

/// The provider's form of each message, in order.
pub fn to_provider_messages(msgs: &Vec<Message>) -> (r: Result<
    Vec<ChatCompletionRequestMessage>,
    GenerateError,
>)
    ensures
        r is Ok,
        r matches Ok(v) ==> provider_form(v@, messages_view(msgs@)),
{
    let mut out: Vec<ChatCompletionRequestMessage> = Vec::new();
    let mut i: usize = 0;
    while i < msgs.len()
        invariant
            i <= msgs@.len(),
            out@.len() == i,
            forall|k: int|
                0 <= k < i ==> {
                    &&& (#[trigger] out@[k]).role == provider_role_of(msgs@[k].role)
                    &&& out@[k].content@ == msgs@[k].content@
                    &&& out@[k].name is None
                },
        decreases msgs@.len() - i,
    {
        let m = &msgs[i];
        match build_provider_message(provider_role(m.role), m.content.clone()) {
            Ok(pm) => out.push(pm),
            Err(_) => return Err(GenerateError::MessageBuild),
        }
        i = i + 1;
    }
    Ok(out)
}

/// The completion request for the messages, with the fixed model and token
/// limit.
pub fn build_request(msgs: &Vec<Message>) -> (r: Result<CreateChatCompletionRequest, GenerateError>)
    ensures
        r is Ok,
        r matches Ok(q) ==> exists|v: Seq<ChatCompletionRequestMessage>|
            q == chat_request_of(MODEL@, MAX_TOKENS, v) && provider_form(
                v,
                messages_view(msgs@),
            ),
{
    let provider_msgs = match to_provider_messages(msgs) {
        Ok(v) => v,
        Err(e) => return Err(e),
    };
    let ghost v = provider_msgs@;
    match build_provider_request(MODEL, MAX_TOKENS, provider_msgs) {
        Ok(req) => {
            assert(req == chat_request_of(MODEL@, MAX_TOKENS, v) && provider_form(
                v,
                messages_view(msgs@),
            ));
            Ok(req)
        },
        Err(_) => Err(GenerateError::RequestBuild),
    }
}

/// The text of the first choice, unaltered; `EmptyResponse` when there is none.
pub fn first_choice(resp: &CreateChatCompletionResponse) -> (r: Result<String, GenerateError>)
    ensures
        resp.choices@.len() == 0 <==> r == Err::<String, GenerateError>(
            GenerateError::EmptyResponse,
        ),
        resp.choices@.len() > 0 ==> (r matches Ok(s) && s@ == resp.choices@[0].message.content@),
{
    if resp.choices.len() == 0 {
        Err(GenerateError::EmptyResponse)
    } else {
        Ok(resp.choices[0].message.content.clone())
    }
}

/// What the completion call's outcome yields: `UpstreamCall` when the call
/// failed, else the first choice's text.
pub fn completion_text(outcome: &Result<CreateChatCompletionResponse, OpenAIError>) -> (r: Result<
    String,
    GenerateError,
>)
    ensures
        outcome is Err ==> r == Err::<String, GenerateError>(GenerateError::UpstreamCall),
        outcome matches Ok(resp) ==> {
            &&& resp.choices@.len() == 0 ==> r == Err::<String, GenerateError>(
                GenerateError::EmptyResponse,
            )
            &&& resp.choices@.len() > 0 ==> (r matches Ok(s) && s@
                == resp.choices@[0].message.content@)
        },
{
    match outcome {
        Ok(resp) => first_choice(resp),
        Err(_) => Err(GenerateError::UpstreamCall),
    }
}

} // verus!
