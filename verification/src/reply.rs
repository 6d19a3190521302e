//! What a request is answered.
use vstd::prelude::*;
use vstd::string::*;
use crate::agent::AgentError;
use crate::collect::CliSyncResult;
use crate::config::{is_enabled, CliConfig};
use crate::message;
use crate::message::{build_prompt, CliChatRequest};
use crate::parser::CliUsageInfo;
use crate::stream::StreamSession;

verus! {

pub const OK: u16 = 200;

pub const INTERNAL_SERVER_ERROR: u16 = 500;

pub const SERVICE_UNAVAILABLE: u16 = 503;

/// The body of an error reply that cannot be written as JSON.
pub const INTERNAL_ERROR_BODY: &'static str =
    "{\"error\":{\"message\":\"internal error\",\"type\":\"cli_backend_error\"}}";

/// What is to be done for a request.
pub enum ChatPlan {
    /// Refuse it, with this status and these words.
    Refuse { status: u16, message: String },
    /// Answer it piece by piece.
    Stream { model: String, prompt: String },
    /// Answer it in one whole.
    Sync { model: String, prompt: String },
}

/// What a [`ChatPlan`] says.
pub enum Plan {
    Refuse { status: u16, message: Seq<char> },
    Stream { model: Seq<char>, prompt: Seq<char> },
    Sync { model: Seq<char>, prompt: Seq<char> },
}

impl View for ChatPlan {
    type V = Plan;

    open spec fn view(&self) -> Plan {
        match self {
            ChatPlan::Refuse { status, message } => Plan::Refuse {
                status: *status,
                message: message@,
            },
            ChatPlan::Stream { model, prompt } => Plan::Stream { model: model@, prompt: prompt@ },
            ChatPlan::Sync { model, prompt } => Plan::Sync { model: model@, prompt: prompt@ },
        }
    }
}

/// The model that a request asks for: `auto` where it names none.
pub open spec fn requested_model(request: CliChatRequest) -> Seq<char> {
    match request.model {
        Some(model) => model@,
        None => "auto"@,
    }
}

/// The plan for a request.
pub open spec fn plan(config: CliConfig, request: CliChatRequest) -> Plan {
    let model = requested_model(request);
    let prompt = message::prompt(request.messages@);
    if !config.enabled {
        Plan::Refuse {
            status: SERVICE_UNAVAILABLE,
            message: "CLI backend is not enabled. Set CLI_BACKEND_ENABLED=true"@,
        }
    } else if request.stream {
        Plan::Stream { model, prompt }
    } else {
        Plan::Sync { model, prompt }
    }
}

/// Decides what is to be done for a request.
pub fn plan_chat_completion(config: &CliConfig, request: &CliChatRequest) -> (r: ChatPlan)
    ensures
        r@ == plan(*config, *request),
        match r {
            ChatPlan::Refuse { .. } => !config.enabled,
            ChatPlan::Stream { model, prompt } | ChatPlan::Sync { model, prompt } => {
                &&& config.enabled
                &&& request.model matches Some(named) ==> model@ == named@
                &&& request.model is None ==> model@ == "auto"@
                &&& prompt@ == message::prompt(request.messages@)
            },
        },
{
    if !is_enabled(config) {
        return ChatPlan::Refuse {
            status: SERVICE_UNAVAILABLE,
            message: "CLI backend is not enabled. Set CLI_BACKEND_ENABLED=true".to_owned(),
        };
    }
    let model = match &request.model {
        Some(model) => model.clone(),
        None => "auto".to_owned(),
    };
    let prompt = build_prompt(request.messages.as_slice());
    if request.stream {
        ChatPlan::Stream { model, prompt }
    } else {
        ChatPlan::Sync { model, prompt }
    }
}

/// A whole answer.
pub struct CliChatResponse {
    pub id: String,
    pub object: &'static str,
    pub created: u64,
    pub model: String,
    pub choices: Vec<CliChoice>,
    pub usage: CliUsage,
}

/// One of the answers. There is only one, at index 0.
pub struct CliChoice {
    pub index: u32,
    pub message: CliResponseMessage,
    pub finish_reason: &'static str,
}

/// What the agent answered.
pub struct CliResponseMessage {
    pub role: &'static str,
    pub content: String,
    /// The reasoning, where there was any.
    pub reasoning_content: Option<String>,
}

/// What an answer cost.
#[derive(Debug, Clone, Copy, PartialEq, Eq, Structural)]
pub struct CliUsage {
    pub prompt_tokens: u32,
    pub completion_tokens: u32,
    pub total_tokens: u32,
}

/// Whether all the tokens together can be counted.
pub open spec fn countable(usage: CliUsageInfo) -> bool {
    usage.input_tokens + usage.output_tokens <= u32::MAX
}

impl CliChatResponse {
    /// Whether it is the answer with this number for a result.
    pub open spec fn answers(
        self,
        id: Seq<char>,
        created: u64,
        model: Seq<char>,
        result: CliSyncResult,
    ) -> bool {
        &&& self.id@ == id
        &&& self.object@ == "chat.completion"@
        &&& self.created == created
        &&& self.model@ == model
        &&& self.choices@.len() == 1
        &&& self.choices@[0].index == 0
        &&& self.choices@[0].message.role@ == "assistant"@
        &&& self.choices@[0].message.content == result.content
        &&& self.choices@[0].message.reasoning_content == result.thinking
        &&& self.choices@[0].finish_reason@ == "stop"@
        &&& self.usage.prompt_tokens == result.usage.input_tokens
        &&& self.usage.completion_tokens == result.usage.output_tokens
        &&& self.usage.total_tokens == result.usage.input_tokens + result.usage.output_tokens
    }
}

/// The answer for a result.
pub fn chat_response(id: String, created: u64, model: &str, result: CliSyncResult) -> (r:
    CliChatResponse)
    requires
        countable(result.usage),
    ensures
        r.answers(id@, created, model@, result),
{
    let mut choices: Vec<CliChoice> = Vec::new();
    choices.push(
        CliChoice {
            index: 0,
            message: CliResponseMessage {
                role: "assistant",
                content: result.content,
                reasoning_content: result.thinking,
            },
            finish_reason: "stop",
        },
    );
    CliChatResponse {
        id,
        object: "chat.completion",
        created,
        model: model.to_owned(),
        choices,
        usage: CliUsage {
            prompt_tokens: result.usage.input_tokens,
            completion_tokens: result.usage.output_tokens,
            total_tokens: result.usage.input_tokens + result.usage.output_tokens,
        },
    }
}

/// The body of an error reply.
pub struct CliErrorResponse {
    pub error: CliErrorInner,
}

/// What went wrong. The wire name of `kind` is `type`.
pub struct CliErrorInner {
    pub message: String,
    pub kind: &'static str,
    pub code: Option<&'static str>,
}

impl CliErrorResponse {
    /// Whether it says just this.
    pub open spec fn says(self, message: Seq<char>) -> bool {
        &&& self.error.message@ == message
        &&& self.error.kind@ == "cli_backend_error"@
        &&& self.error.code is None
    }
}

/// The body of an error reply with these words.
pub fn error_body(message: String) -> (r: CliErrorResponse)
    ensures
        r.says(message@),
{
    CliErrorResponse { error: CliErrorInner { message, kind: "cli_backend_error", code: None } }
}

/// A digit of a number in base 16, in lower case.
pub open spec fn lower_hex(c: char) -> bool {
    '0' <= c <= '9' || 'a' <= c <= 'f'
}

/// Whether a text is a random UUID, written without hyphens.
pub open spec fn random_uuid_text(s: Seq<char>) -> bool {
    &&& s.len() == 32
    &&& forall|i: int| 0 <= i < 32 ==> lower_hex(#[trigger] s[i])
    &&& s[12] == '4'
    &&& s[16] == '8' || s[16] == '9' || s[16] == 'a' || s[16] == 'b'
}

/// `uuid::Uuid::new_v4` and `uuid::Uuid::as_simple`: some random UUID, without hyphens. Which one
/// is left to chance. The call panics where the system has no random bytes to give.
#[verifier::external_body]
fn random_uuid() -> (r: String)
    ensures
        random_uuid_text(r@),
{
    uuid::Uuid::new_v4().as_simple().to_string()
}

/// The number of the answer with this UUID.
pub fn completion_id(uuid: &str) -> (r: String)
    ensures
        r@ == "chatcmpl-cli-"@ + uuid@,
{
    "chatcmpl-cli-".to_owned().concat(uuid)
}

/// Whether a text is the number of an answer.
pub open spec fn completion_id_text(s: Seq<char>) -> bool {
    exists|uuid: Seq<char>| #[trigger] random_uuid_text(uuid) && s == "chatcmpl-cli-"@ + uuid
}

/// A fresh number for an answer.
pub fn new_completion_id() -> (r: String)
    ensures
        completion_id_text(r@),
{
    let uuid = random_uuid();
    completion_id(uuid.as_str())
}

/// The reply to a request for one whole answer.
pub enum ChatReply {
    /// The answer, with the status 200.
    Answer(CliChatResponse),
    /// An error, with this status.
    Error { status: u16, body: CliErrorResponse },
}

/// The reply to the outcome of a run.
pub fn sync_reply(outcome: Result<CliSyncResult, AgentError>, created: u64, model: &str) -> (r:
    ChatReply)
    requires
        outcome matches Ok(result) ==> countable(result.usage),
    ensures
        match outcome {
            Ok(result) => {
                &&& r matches ChatReply::Answer(answer)
                &&& completion_id_text(answer.id@)
                &&& answer.answers(answer.id@, created, model@, result)
            },
            Err(e) => {
                &&& r matches ChatReply::Error { status, body }
                &&& status == INTERNAL_SERVER_ERROR
                &&& body.says(e.words())
            },
        },
{
    match outcome {
        Ok(result) => ChatReply::Answer(chat_response(new_completion_id(), created, model, result)),
        Err(e) => ChatReply::Error { status: INTERNAL_SERVER_ERROR, body: error_body(e.message()) },
    }
}

/// The reply where a stream cannot be started: an error, in one JSON value.
pub fn stream_refusal(e: AgentError) -> (r: ChatReply)
    ensures
        r matches ChatReply::Error { status, body } && status == INTERNAL_SERVER_ERROR
            && body.says(e.words()),
{
    ChatReply::Error { status: INTERNAL_SERVER_ERROR, body: error_body(e.message()) }
}

/// The reply to a request for an answer piece by piece, once the agent was started or not: a
/// stream of which nothing was sent, with a fresh number and the status 200, or no stream at all
/// but an error.
pub fn stream_reply(started: Result<(), AgentError>, created: u64, model: String) -> (r: Result<
    StreamSession,
    ChatReply,
>)
    ensures
        match started {
            Ok(_) => {
                &&& r matches Ok(session)
                &&& session.wf()
                &&& completion_id_text(session.header().id)
                &&& session.header().created == created
                &&& session.header().model == model@
                &&& session.state().phase is Idle
                &&& session.sent().len() == 0
            },
            Err(e) => {
                &&& r matches Err(ChatReply::Error { status, body })
                &&& status == INTERNAL_SERVER_ERROR
                &&& body.says(e.words())
            },
        },
{
    match started {
        Ok(_) => Ok(StreamSession::new(new_completion_id(), created, model)),
        Err(e) => Err(stream_refusal(e)),
    }
}

/// A field of a reply's head.
pub struct HeaderField {
    pub name: &'static str,
    pub value: &'static str,
}

/// The fields of a head, by name and value.
pub open spec fn fields(head: Seq<HeaderField>) -> Seq<(Seq<char>, Seq<char>)> {
    head.map_values(|field: HeaderField| (field.name@, field.value@))
}

/// The head of a reply in one JSON value.
pub fn json_head() -> (r: Vec<HeaderField>)
    ensures
        fields(r@) == seq![("content-type"@, "application/json"@)],
{
    let mut r: Vec<HeaderField> = Vec::new();
    r.push(HeaderField { name: "content-type", value: "application/json" });
    assert(fields(r@) =~= seq![("content-type"@, "application/json"@)]);
    r
}

/// The head of a reply piece by piece.
pub fn stream_head() -> (r: Vec<HeaderField>)
    ensures
        fields(r@) == seq![
            ("content-type"@, "text/event-stream"@),
            ("cache-control"@, "no-cache, must-revalidate"@),
            ("connection"@, "keep-alive"@),
            ("transfer-encoding"@, "chunked"@),
        ],
{
    let mut r: Vec<HeaderField> = Vec::new();
    r.push(HeaderField { name: "content-type", value: "text/event-stream" });
    r.push(HeaderField { name: "cache-control", value: "no-cache, must-revalidate" });
    r.push(HeaderField { name: "connection", value: "keep-alive" });
    r.push(HeaderField { name: "transfer-encoding", value: "chunked" });
    assert(fields(r@) =~= seq![
        ("content-type"@, "text/event-stream"@),
        ("cache-control"@, "no-cache, must-revalidate"@),
        ("connection"@, "keep-alive"@),
        ("transfer-encoding"@, "chunked"@),
    ]);
    r
}

/// The frame of an event with this data.
pub open spec fn event_frame(data: Seq<char>) -> Seq<char> {
    "data: "@ + data + "\n\n"@
}

/// Puts data into a frame of its own.
pub fn sse_frame(data: &str) -> (r: String)
    ensures
        r@ == event_frame(data@),
{
    let mut out = "data: ".to_owned();
    out.append(data);
    out.append("\n\n");
    out
}

/// The frame of the end mark.
pub fn end_frame() -> (r: String)
    ensures
        r@ == event_frame("[DONE]"@),
{
    sse_frame("[DONE]")
}

} // verus!
