//! Data model for the remote text-generation service: role-tagged messages,
//! model selection, request planning and the interpretation of a reply.
//!
//! The network transfer itself is input/output and lives outside the library;
//! callers hand the observed reply back in as a plain `ProviderReply` value and
//! every decision about it is made here.
use vstd::prelude::*;

verus! {

#[derive(Clone, Copy, PartialEq, Eq, Structural, Debug)]
pub enum MessageRole {
    System,
    User,
    Assistant,
}

/// Specification-level image of a `Message`.
pub ghost struct MessageV {
    pub role: MessageRole,
    pub content: Seq<char>,
}

#[derive(Clone, Debug)]
pub struct Message {
    pub role: MessageRole,
    pub content: String,
}

impl View for Message {
    type V = MessageV;

    open spec fn view(&self) -> MessageV {
        MessageV { role: self.role, content: self.content@ }
    }
}

impl DeepView for Message {
    type V = MessageV;

    open spec fn deep_view(&self) -> MessageV {
        self.view()
    }
}

impl Message {
    pub fn new(role: MessageRole, content: String) -> (r: Self)
        ensures
            r.role == role,
            r.content == content,
    {
        Self { role, content }
    }
}

#[derive(Clone, Copy, PartialEq, Eq, Structural, Debug)]
pub enum OAIModel {
    GPT3Turbo,
    GPT3_5Turbo0301,
    GPT4,
    GPT4_32K,
    GPT4_0314,
    GPT4_32K0314,
}

/// The canonical provider-side name of each model.
pub open spec fn model_name_spec(m: OAIModel) -> Seq<char> {
    match m {
        OAIModel::GPT3Turbo => "gpt-3.5-turbo"@,
        OAIModel::GPT3_5Turbo0301 => "gpt-3.5-turbo-0301"@,
        OAIModel::GPT4 => "gpt-4"@,
        OAIModel::GPT4_32K => "gpt-4-32k"@,
        OAIModel::GPT4_0314 => "gpt-4-0314"@,
        OAIModel::GPT4_32K0314 => "gpt-4-32k-0314"@,
    }
}

/// Which model a given name denotes, if any.
pub open spec fn model_of_name_spec(s: Seq<char>) -> Option<OAIModel> {
    if s == "gpt-3.5-turbo"@ {
        Some(OAIModel::GPT3Turbo)
    } else if s == "gpt-3.5-turbo-0301"@ {
        Some(OAIModel::GPT3_5Turbo0301)
    } else if s == "gpt-4"@ {
        Some(OAIModel::GPT4)
    } else if s == "gpt-4-32k"@ {
        Some(OAIModel::GPT4_32K)
    } else if s == "gpt-4-0314"@ {
        Some(OAIModel::GPT4_0314)
    } else if s == "gpt-4-32k-0314"@ {
        Some(OAIModel::GPT4_32K0314)
    } else {
        None
    }
}

impl OAIModel {
    /// Parses a provider model name; unknown names are rejected.
    pub fn from_str(s: &str) -> (r: Result<OAIModel, String>)
        ensures
            match model_of_name_spec(s@) {
                Some(m) => r == Result::<OAIModel, String>::Ok(m),
                None => r is Err,
            },
    {
        if crate::strutil::str_eq(s, "gpt-3.5-turbo") {
            Ok(OAIModel::GPT3Turbo)
        } else if crate::strutil::str_eq(s, "gpt-3.5-turbo-0301") {
            Ok(OAIModel::GPT3_5Turbo0301)
        } else if crate::strutil::str_eq(s, "gpt-4") {
            Ok(OAIModel::GPT4)
        } else if crate::strutil::str_eq(s, "gpt-4-32k") {
            Ok(OAIModel::GPT4_32K)
        } else if crate::strutil::str_eq(s, "gpt-4-0314") {
            Ok(OAIModel::GPT4_0314)
        } else if crate::strutil::str_eq(s, "gpt-4-32k-0314") {
            Ok(OAIModel::GPT4_32K0314)
        } else {
            let mut msg = String::new();
            msg.append("Invalid OpenAI Model: ");
            msg.append(s);
            Err(msg)
        }
    }

    /// The provider-side name of this model.
    pub fn name(&self) -> (r: String)
        ensures
            r@ == model_name_spec(*self),
    {
        match self {
            OAIModel::GPT3Turbo => crate::strutil::str_to_string("gpt-3.5-turbo"),
            OAIModel::GPT3_5Turbo0301 => crate::strutil::str_to_string("gpt-3.5-turbo-0301"),
            OAIModel::GPT4 => crate::strutil::str_to_string("gpt-4"),
            OAIModel::GPT4_32K => crate::strutil::str_to_string("gpt-4-32k"),
            OAIModel::GPT4_0314 => crate::strutil::str_to_string("gpt-4-0314"),
            OAIModel::GPT4_32K0314 => crate::strutil::str_to_string("gpt-4-32k-0314"),
        }
    }
}

#[derive(Clone, Debug)]
pub struct ChatCompletionChoice {
    pub index: u64,
    pub message: Message,
    pub finish_reason: Option<String>,
}

#[derive(Clone, Copy, Debug)]
pub struct Usage {
    pub prompt_tokens: i64,
    pub completion_tokens: i64,
    pub total_tokens: i64,
}

#[derive(Clone, Debug)]
pub struct OAIResponse {
    pub id: String,
    pub object: String,
    pub created: u64,
    pub model: String,
    pub choices: Vec<ChatCompletionChoice>,
    pub usage: Option<Usage>,
}

pub struct OAIConfig {
    pub api_host: String,
    pub openai_api_key: String,
}

impl OAIConfig {
    pub fn new(api_host: String, openai_api_key: String) -> (r: Self)
        ensures
            r.api_host == api_host,
            r.openai_api_key == openai_api_key,
    {
        Self { api_host, openai_api_key }
    }
}

pub struct OpenAI {
    pub config: OAIConfig,
}

impl OpenAI {
    pub fn new(config: OAIConfig) -> (r: Self)
        ensures
            r.config == config,
    {
        Self { config }
    }
}

pub struct Generator {
    pub openai: OpenAI,
}

impl Generator {
    pub fn new(api_key: &str, api_host: &str) -> (r: Self)
        ensures
            r.openai.config.api_host@ == api_host@,
            r.openai.config.openai_api_key@ == api_key@,
    {
        let config = OAIConfig::new(
            crate::strutil::str_to_string(api_host),
            crate::strutil::str_to_string(api_key),
        );
        Generator { openai: OpenAI::new(config) }
    }
}

/// Why a generation attempt failed.
#[derive(Clone, Debug)]
pub enum GenerationError {
    /// The provider answered with the rate-limit status. The session fails at
    /// once: an interactive run must not stall in a retry loop against a hard
    /// rate limit.
    RateLimited,
    /// The provider answered with a status other than success, or with a
    /// success body that was not a completion.
    UnexpectedResponse { status: u16, body: String },
    /// The request never produced an answer (name resolution, connection or
    /// timeout failure).
    TransportError { detail: String },
    /// The provider answered success but returned zero choices.
    NoCompletionReturned,
    /// The configured model name is not one the client knows.
    InvalidModel { name: String },
}

/// Specification-level image of a `GenerationError`.
pub ghost enum GenerationErrorV {
    RateLimited,
    UnexpectedResponse { status: u16, body: Seq<char> },
    TransportError { detail: Seq<char> },
    NoCompletionReturned,
    InvalidModel { name: Seq<char> },
}

impl View for GenerationError {
    type V = GenerationErrorV;

    open spec fn view(&self) -> GenerationErrorV {
        match self {
            GenerationError::RateLimited => GenerationErrorV::RateLimited,
            GenerationError::UnexpectedResponse { status, body } => GenerationErrorV::UnexpectedResponse {
                status: *status,
                body: body@,
            },
            GenerationError::TransportError { detail } => GenerationErrorV::TransportError {
                detail: detail@,
            },
            GenerationError::NoCompletionReturned => GenerationErrorV::NoCompletionReturned,
            GenerationError::InvalidModel { name } => GenerationErrorV::InvalidModel { name: name@ },
        }
    }
}

impl GenerationError {
    /// Rebuilds an owned copy of this error.
    pub fn duplicate(&self) -> (r: Self)
        ensures
            r@ == self@,
    {
        match self {
            GenerationError::RateLimited => GenerationError::RateLimited,
            GenerationError::UnexpectedResponse { status, body } => GenerationError::UnexpectedResponse {
                status: *status,
                body: body.clone(),
            },
            GenerationError::TransportError { detail } => GenerationError::TransportError {
                detail: detail.clone(),
            },
            GenerationError::NoCompletionReturned => GenerationError::NoCompletionReturned,
            GenerationError::InvalidModel { name } => GenerationError::InvalidModel {
                name: name.clone(),
            },
        }
    }

    /// A short human-readable account of the failure.
    pub fn describe(&self) -> (r: String)
        ensures
            *self == GenerationError::RateLimited ==> r@ == "Rate limit exceeded"@,
            self matches GenerationError::UnexpectedResponse { status, body } ==> r@
                == "Unexpected HTTP response: "@ + body@,
            self matches GenerationError::TransportError { detail } ==> r@
                == "Failed to send request to api: "@ + detail@,
            *self == GenerationError::NoCompletionReturned ==> r@ == "No message returned"@,
            self matches GenerationError::InvalidModel { name } ==> r@
                == "Invalid OpenAI Model: "@ + name@,
    {
        match self {
            GenerationError::RateLimited => crate::strutil::str_to_string("Rate limit exceeded"),
            GenerationError::UnexpectedResponse { status: _, body } => {
                let mut msg = String::new();
                msg.append("Unexpected HTTP response: ");
                msg.append(body.as_str());
                msg
            },
            GenerationError::TransportError { detail } => {
                let mut msg = String::new();
                msg.append("Failed to send request to api: ");
                msg.append(detail.as_str());
                msg
            },
            GenerationError::NoCompletionReturned => crate::strutil::str_to_string(
                "No message returned",
            ),
            GenerationError::InvalidModel { name } => {
                let mut msg = String::new();
                msg.append("Invalid OpenAI Model: ");
                msg.append(name.as_str());
                msg
            },
        }
    }
}

/// What came back from one attempt to reach the provider, as plain values.
pub enum ProviderReply {
    /// The request did not complete.
    Transport { detail: String },
    /// An HTTP answer arrived. `response` holds the decoded completion body if
    /// the body decoded as one; `body` holds the raw text for error reports.
    Http { status: u16, response: Option<OAIResponse>, body: String },
}

/// Specification-level image of a `ProviderReply`: status, the contents of the
/// decoded choices, and the raw body.
pub ghost enum ProviderReplyV {
    Transport { detail: Seq<char> },
    Http { status: u16, choices: Option<Seq<Seq<char>>>, body: Seq<char> },
}

impl View for ProviderReply {
    type V = ProviderReplyV;

    open spec fn view(&self) -> ProviderReplyV {
        match self {
            ProviderReply::Transport { detail } => ProviderReplyV::Transport { detail: detail@ },
            ProviderReply::Http { status, response, body } => ProviderReplyV::Http {
                status: *status,
                choices: match response {
                    Some(resp) => Some(
                        Seq::new(resp.choices@.len(), |i: int| resp.choices@[i].message.content@),
                    ),
                    None => None,
                },
                body: body@,
            },
        }
    }
}

pub const HTTP_OK: u16 = 200;

pub const HTTP_TOO_MANY_REQUESTS: u16 = 429;

/// What the generation attempt yields for each possible reply. This is the
/// whole decision: success exactly on a success status whose body decoded to at
/// least one choice, and each error tied to the reply that causes it.
pub open spec fn evaluate_reply_spec(reply: ProviderReplyV) -> Result<Seq<char>, GenerationErrorV> {
    match reply {
        ProviderReplyV::Transport { detail } => Err(GenerationErrorV::TransportError { detail }),
        ProviderReplyV::Http { status, choices, body } => {
            if status == HTTP_OK {
                match choices {
                    Some(cs) => if cs.len() > 0 {
                        Ok(cs[0])
                    } else {
                        Err(GenerationErrorV::NoCompletionReturned)
                    },
                    None => Err(GenerationErrorV::UnexpectedResponse { status, body }),
                }
            } else if status == HTTP_TOO_MANY_REQUESTS {
                Err(GenerationErrorV::RateLimited)
            } else {
                Err(GenerationErrorV::UnexpectedResponse { status, body })
            }
        },
    }
}

/// Specification-level image of a generation result.
pub open spec fn gen_result_view(r: Result<String, GenerationError>) -> Result<
    Seq<char>,
    GenerationErrorV,
> {
    match r {
        Ok(s) => Ok(s@),
        Err(e) => Err(e@),
    }
}

/// Turns one observed provider reply into the generation outcome.
pub fn evaluate_reply(reply: &ProviderReply) -> (r: Result<String, GenerationError>)
    ensures
        gen_result_view(r) == evaluate_reply_spec(reply@),
{
    match reply {
        ProviderReply::Transport { detail } => Err(GenerationError::TransportError {
            detail: detail.clone(),
        }),
        ProviderReply::Http { status, response, body } => {
            if *status == HTTP_OK {
                match response {
                    Some(resp) => {
                        if resp.choices.len() > 0 {
                            let content = resp.choices[0].message.content.clone();
                            Ok(content)
                        } else {
                            Err(GenerationError::NoCompletionReturned)
                        }
                    },
                    None => Err(GenerationError::UnexpectedResponse {
                        status: *status,
                        body: body.clone(),
                    }),
                }
            } else if *status == HTTP_TOO_MANY_REQUESTS {
                Err(GenerationError::RateLimited)
            } else {
                Err(GenerationError::UnexpectedResponse { status: *status, body: body.clone() })
            }
        },
    }
}

/// The decoding configuration sent with every request: moderate temperature
/// 0.5 and nucleus top-p 0.1, expressed in thousandths so the library stays
/// in integer arithmetic, and no explicit output-length cap.
pub struct RequestOptions {
    pub temperature_milli: u32,
    pub top_p_milli: u32,
    pub max_tokens: Option<u64>,
}

impl RequestOptions {
    pub fn standard() -> (r: RequestOptions)
        ensures
            r.temperature_milli == 500,
            r.top_p_milli == 100,
            r.max_tokens is None,
    {
        RequestOptions { temperature_milli: 500, top_p_milli: 100, max_tokens: None }
    }
}

/// A fully planned generation request: the resolved model, the message list
/// and the decoding configuration. Serializing and sending it is the caller's
/// input/output concern.
pub struct GenerationRequest {
    pub model: OAIModel,
    pub messages: Vec<Message>,
    pub options: RequestOptions,
}

/// The model a request uses: the configured name when one is set, else the
/// standard model; an unknown configured name is rejected.
pub open spec fn resolve_model_spec(model: Option<Seq<char>>) -> Result<OAIModel, GenerationErrorV> {
    match model {
        None => Ok(OAIModel::GPT3Turbo),
        Some(name) => match model_of_name_spec(name) {
            Some(m) => Ok(m),
            None => Err(GenerationErrorV::InvalidModel { name }),
        },
    }
}

/// Plans one generation request from the prompt and the configured model name.
pub fn plan_request(prompt: &Vec<Message>, model: &Option<String>) -> (r: Result<
    GenerationRequest,
    GenerationError,
>)
    ensures
        match resolve_model_spec(model.deep_view()) {
            Ok(m) => r matches Ok(req) && req.model == m && req.messages.deep_view()
                == prompt.deep_view() && req.options.temperature_milli == 500
                && req.options.top_p_milli == 100 && req.options.max_tokens is None,
            Err(e) => r matches Err(err) && err@ == e,
        },
{
    let resolved: OAIModel = match model {
        None => OAIModel::GPT3Turbo,
        Some(name) => match OAIModel::from_str(name.as_str()) {
            Ok(m) => m,
            Err(_) => {
                return Err(GenerationError::InvalidModel { name: name.clone() });
            },
        },
    };
    let mut messages: Vec<Message> = Vec::new();
    let mut i: usize = 0;
    while i < prompt.len()
        invariant
            i <= prompt@.len(),
            messages@.len() == i,
            forall|j: int| 0 <= j < i ==> #[trigger] messages.deep_view()[j] == prompt.deep_view()[j],
        decreases prompt@.len() - i,
    {
        let m = Message::new(prompt[i].role, prompt[i].content.clone());
        proof {
            assert(m.deep_view() == prompt.deep_view()[i as int]);
        }
        let ghost pre = messages.deep_view();
        let ghost prev = messages@;
        messages.push(m);
        proof {
            assert forall|j: int| 0 <= j < i + 1 implies #[trigger] messages.deep_view()[j]
                == prompt.deep_view()[j] by {
                if j < i {
                    assert(messages@[j] == prev[j]);
                    assert(pre[j] == prompt.deep_view()[j]);
                    assert(messages.deep_view()[j] == messages@[j].deep_view());
                    assert(pre[j] == prev[j].deep_view());
                } else {
                    assert(messages@[j] == m);
                }
            }
        }
        i = i + 1;
    }
    proof {
        assert(messages.deep_view() =~= prompt.deep_view());
    }
    Ok(GenerationRequest { model: resolved, messages, options: RequestOptions::standard() })
}

/// The outcome of one full generation attempt as a function of the prompt, the
/// configured model and the observed reply. The prompt and model only shape the
/// request; the outcome of a completed exchange is decided by the reply alone.
pub open spec fn generation_outcome_spec(
    prompt: Seq<MessageV>,
    model: Option<Seq<char>>,
    reply: ProviderReplyV,
) -> Result<Seq<char>, GenerationErrorV> {
    match resolve_model_spec(model) {
        Err(e) => Err(e),
        Ok(_) => evaluate_reply_spec(reply),
    }
}

/// Re-running generation is idempotent with respect to its inputs: two
/// attempts with equal prompts, equal configured models and equal observed
/// replies yield the same completion or the same failure.
pub proof fn lemma_generation_idempotent(
    prompt1: Seq<MessageV>,
    prompt2: Seq<MessageV>,
    model1: Option<Seq<char>>,
    model2: Option<Seq<char>>,
    reply1: ProviderReplyV,
    reply2: ProviderReplyV,
)
    requires
        prompt1 == prompt2,
        model1 == model2,
        reply1 == reply2,
    ensures
        generation_outcome_spec(prompt1, model1, reply1) == generation_outcome_spec(
            prompt2,
            model2,
            reply2,
        ),
{
}

} // verus!
