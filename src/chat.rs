use vstd::prelude::*;

use crate::float::{f32_of, Float32, Float64, ONE_BITS, TWO_BITS, ZERO_BITS};
use crate::models::Model;

verus! {

/// Chat completion response returned by the model.
#[derive(Debug, Clone)]
pub struct ChatCompletion {
    /// A unique identifier for the chat completion.
    pub id: String,
    /// The choices; more than one when `n` was greater than 1.
    pub choices: Vec<CompletionChoice>,
    /// The Unix timestamp (in seconds) of when the completion was created.
    pub created: u64,
    /// The model used for the completion.
    pub model: Model,
    /// The service tier used, present only when the request set one.
    pub service_tier: Option<String>,
    /// The backend configuration that the model ran with.
    pub system_fingerprint: Option<String>,
    /// The object type, always `chat.completion`.
    pub object: String,
    /// Usage statistics for the request.
    pub usage: CompletionUsage,
}

/// One candidate completion.
#[derive(Debug, Clone)]
pub struct CompletionChoice {
    /// Why the model stopped generating tokens.
    pub finish_reason: FinishReason,
    /// The index of the choice in the list of choices.
    pub index: u64,
    /// The message generated by the model.
    pub message: ChoiceMessage,
    /// Log probability information for the choice.
    pub logprobs: Option<LogProb>,
}

/// Why the model stopped generating tokens.
#[derive(Debug, Clone, Copy, PartialEq, Eq, Structural)]
pub enum FinishReason {
    /// A natural stop point or a provided stop sequence.
    Stop,
    /// The maximum number of tokens was reached.
    Length,
    /// Content was omitted by a content filter.
    ContentFilter,
    /// The model called a tool.
    ToolCalls,
}

/// A message generated by the model.
#[derive(Debug, Clone)]
pub struct ChoiceMessage {
    /// The content of the message.
    pub content: Option<String>,
    /// The refusal message generated by the model.
    pub refusal: Option<String>,
    /// The tool calls generated by the model.
    pub tool_calls: Option<Vec<ToolCall>>,
    /// The role of the author of this message.
    pub role: Role,
}

/// A tool call made by the model.
#[derive(Debug, Clone, PartialEq, Eq)]
pub struct ToolCall {
    pub id: String,
    /// The kind of tool, `type` on the wire.
    pub kind: String,
}

/// Log probability information for a choice.
#[derive(Debug, Clone)]
pub struct LogProb {
    /// Message content tokens with their log probabilities.
    pub content: Option<Vec<LogProbContent>>,
    /// Message refusal tokens.
    pub refusal: Option<String>,
}

/// One token with its log probability.
#[derive(Debug, Clone)]
pub struct LogProbContent {
    pub token: String,
    /// The log probability of this token if it is among the 20 most likely,
    /// else -9999.0.
    pub logprob: Float64,
}

/// Token counts of a request.
#[derive(Debug, Clone, Copy, PartialEq, Eq, Structural)]
pub struct CompletionUsage {
    /// Tokens in the generated completion.
    pub completion_tokens: u64,
    /// Tokens in the prompt.
    pub prompt_tokens: u64,
    /// Tokens used in all (prompt and completion).
    pub total_tokens: u64,
}

/// An input message.
#[derive(Debug, Clone)]
pub struct Message {
    /// The message content.
    pub content: String,
    /// The role of the author of this message.
    pub role: Role,
    /// An optional name for the author; left out of the payload when unset.
    pub name: Option<String>,
}

/// The author of a message.
#[derive(Debug, Clone, Copy, PartialEq, Eq, Structural)]
pub enum Role {
    Assistant,
    System,
    User,
}

/// The format that the model must output.
#[derive(Debug, Clone, Copy, PartialEq, Eq, Structural)]
pub struct ResponseFormat {
    /// The format, `type` on the wire.
    pub kind: ResponseKind,
}

/// Plain text, or a JSON object.
#[derive(Debug, Clone, Copy, PartialEq, Eq, Structural)]
pub enum ResponseKind {
    Text,
    JsonObject,
}

/// Options for a streamed response.
#[derive(Debug, Clone, Copy, PartialEq, Eq, Structural)]
pub struct StreamOptions {
    /// Whether a last chunk carries the usage statistics of the whole request.
    pub include_usage: Option<bool>,
}

/// A chat-completion request. Every optional field left `None` is left out of
/// the payload.
#[derive(Debug, Clone)]
pub struct CreateChatCompletion {
    /// The model that will complete the prompt.
    pub model: Model,
    /// Input messages, in order.
    pub messages: Vec<Message>,
    /// Between -2.0 and 2.0; penalises tokens by their frequency so far.
    pub frequency_penalty: Option<Float32>,
    /// Changes the likelihood of given tokens appearing in the completion.
    pub logit_bias: Option<serde_json::Value>,
    /// Whether to return log probabilities of the output tokens.
    pub logprobs: Option<bool>,
    /// How many most likely tokens to return at each position, 0 to 20.
    pub top_logprobs: Option<u8>,
    /// The largest number of tokens to generate.
    pub max_tokens: Option<u64>,
    /// How many choices to generate.
    pub n: Option<u32>,
    /// Between -2.0 and 2.0; penalises tokens that already appeared.
    pub presence_penalty: Option<Float32>,
    /// The format that the model must output.
    pub response_format: Option<ResponseFormat>,
    /// A seed for best-effort deterministic sampling.
    pub seed: Option<u64>,
    /// The latency tier to process the request with (`auto` or `default`).
    pub service_tier: Option<String>,
    /// A sequence at which the model stops generating.
    pub stop: Option<String>,
    /// Whether partial message deltas are sent as server-sent events.
    pub stream: Option<bool>,
    /// Options for streaming; only set together with `stream`.
    pub stream_options: Option<StreamOptions>,
    /// Sampling temperature; `with_temperature` keeps it within `[0, 2]`.
    pub temperature: Option<Float32>,
    /// Nucleus sampling mass; `with_top_p` keeps it within `[0, 1]`.
    pub top_p: Option<Float32>,
    /// Whether to call functions in parallel during tool use.
    pub parallel_tool_calls: Option<bool>,
    /// An identifier of the end user.
    pub user: Option<String>,
}

/// The token cap of a default request.
pub const DEFAULT_MAX_TOKENS: u64 = 1000;

/// A request for `model` with `messages`, the default token cap and every
/// other option unset.
pub open spec fn request_of(model: Model, messages: Vec<Message>) -> CreateChatCompletion {
    CreateChatCompletion {
        model,
        messages,
        frequency_penalty: None,
        logit_bias: None,
        logprobs: None,
        top_logprobs: None,
        max_tokens: Some(DEFAULT_MAX_TOKENS),
        n: None,
        presence_penalty: None,
        response_format: None,
        seed: None,
        service_tier: None,
        stop: None,
        stream: None,
        stream_options: None,
        temperature: None,
        top_p: None,
        parallel_tool_calls: None,
        user: None,
    }
}

impl Default for CreateChatCompletion {
    fn default() -> (r: Self)
        ensures
            r == request_of(Model::Llama38B, r.messages),
            r.messages@.len() == 0,
    {
        CreateChatCompletion {
            model: Model::Llama38B,
            messages: Vec::new(),
            frequency_penalty: None,
            logit_bias: None,
            logprobs: None,
            top_logprobs: None,
            max_tokens: Some(DEFAULT_MAX_TOKENS),
            n: None,
            presence_penalty: None,
            response_format: None,
            seed: None,
            service_tier: None,
            stop: None,
            stream: None,
            stream_options: None,
            temperature: None,
            top_p: None,
            parallel_tool_calls: None,
            user: None,
        }
    }
}

impl CreateChatCompletion {
    /// The temperature stored for a requested `t`: `t` limited to `[0, 2]`.
    pub open spec fn clamped_temperature(t: Float32) -> Float32 {
        t.clamp_spec(f32_of(ZERO_BITS), f32_of(TWO_BITS))
    }

    /// The `top_p` stored for a requested `p`: `p` limited to `[0, 1]`.
    pub open spec fn clamped_top_p(p: Float32) -> Float32 {
        p.clamp_spec(f32_of(ZERO_BITS), f32_of(ONE_BITS))
    }

    pub fn new(model: Model, messages: Vec<Message>) -> (r: Self)
        ensures
            r == request_of(model, messages),
    {
        CreateChatCompletion { model, messages, ..Self::default() }
    }

    pub fn with_model(self, model: Model) -> (r: Self)
        ensures
            r == (CreateChatCompletion { model, ..self }),
    {
        CreateChatCompletion { model, ..self }
    }

    pub fn with_messages(self, messages: Vec<Message>) -> (r: Self)
        ensures
            r == (CreateChatCompletion { messages, ..self }),
    {
        CreateChatCompletion { messages, ..self }
    }

    pub fn with_frequence_penalty(self, frequence_penalty: Float32) -> (r: Self)
        ensures
            r == (CreateChatCompletion { frequency_penalty: Some(frequence_penalty), ..self }),
    {
        CreateChatCompletion { frequency_penalty: Some(frequence_penalty), ..self }
    }

    pub fn with_logit_bias(self, logit_bias: serde_json::Value) -> (r: Self)
        ensures
            r == (CreateChatCompletion { logit_bias: Some(logit_bias), ..self }),
    {
        CreateChatCompletion { logit_bias: Some(logit_bias), ..self }
    }

    pub fn with_logprobs(self, logprobs: bool) -> (r: Self)
        ensures
            r == (CreateChatCompletion { logprobs: Some(logprobs), ..self }),
    {
        CreateChatCompletion { logprobs: Some(logprobs), ..self }
    }

    pub fn with_top_logprobs(self, top_logprobs: u8) -> (r: Self)
        ensures
            r == (CreateChatCompletion { top_logprobs: Some(top_logprobs), ..self }),
    {
        CreateChatCompletion { top_logprobs: Some(top_logprobs), ..self }
    }

    pub fn with_max_tokens(self, max_tokens: u64) -> (r: Self)
        ensures
            r == (CreateChatCompletion { max_tokens: Some(max_tokens), ..self }),
    {
        CreateChatCompletion { max_tokens: Some(max_tokens), ..self }
    }

    pub fn with_n(self, n: u32) -> (r: Self)
        ensures
            r == (CreateChatCompletion { n: Some(n), ..self }),
    {
        CreateChatCompletion { n: Some(n), ..self }
    }

    pub fn with_presence_penalty(self, presence_penalty: Float32) -> (r: Self)
        ensures
            r == (CreateChatCompletion { presence_penalty: Some(presence_penalty), ..self }),
    {
        CreateChatCompletion { presence_penalty: Some(presence_penalty), ..self }
    }

    pub fn with_response_format(self, response_format: ResponseFormat) -> (r: Self)
        ensures
            r == (CreateChatCompletion { response_format: Some(response_format), ..self }),
    {
        CreateChatCompletion { response_format: Some(response_format), ..self }
    }

    pub fn with_seed(self, seed: u64) -> (r: Self)
        ensures
            r == (CreateChatCompletion { seed: Some(seed), ..self }),
    {
        CreateChatCompletion { seed: Some(seed), ..self }
    }

    pub fn with_service_tier(self, service_tier: String) -> (r: Self)
        ensures
            r == (CreateChatCompletion { service_tier: Some(service_tier), ..self }),
    {
        CreateChatCompletion { service_tier: Some(service_tier), ..self }
    }

    pub fn with_stop(self, stop: String) -> (r: Self)
        ensures
            r == (CreateChatCompletion { stop: Some(stop), ..self }),
    {
        CreateChatCompletion { stop: Some(stop), ..self }
    }

    pub fn with_stream(self, stream: bool) -> (r: Self)
        ensures
            r == (CreateChatCompletion { stream: Some(stream), ..self }),
    {
        CreateChatCompletion { stream: Some(stream), ..self }
    }

    pub fn with_stream_options(self, stream_options: StreamOptions) -> (r: Self)
        ensures
            r == (CreateChatCompletion { stream_options: Some(stream_options), ..self }),
    {
        CreateChatCompletion { stream_options: Some(stream_options), ..self }
    }

    /// Sets the temperature, limited to `[0, 2]`: a value below 0 or a NaN
    /// becomes 0, one above 2 becomes 2, any other is kept.
    pub fn with_temperature(self, temperature: Float32) -> (r: Self)
        ensures
            r == (CreateChatCompletion {
                temperature: Some(Self::clamped_temperature(temperature)),
                ..self
            }),
            temperature.spec_lt(f32_of(ZERO_BITS)) ==> r.temperature == Some(f32_of(ZERO_BITS)),
            f32_of(TWO_BITS).spec_lt(temperature) ==> r.temperature == Some(f32_of(TWO_BITS)),
            temperature.is_nan() ==> r.temperature == Some(f32_of(ZERO_BITS)),
            temperature.within(f32_of(ZERO_BITS), f32_of(TWO_BITS)) ==> r.temperature == Some(
                temperature,
            ),
            r.temperature is Some,
            r.temperature.unwrap().within(f32_of(ZERO_BITS), f32_of(TWO_BITS)),
    {
        let t = temperature.clamp_to(Float32::from_bits(ZERO_BITS), Float32::from_bits(TWO_BITS));
        CreateChatCompletion { temperature: Some(t), ..self }
    }

    /// Sets `top_p`, limited to `[0, 1]`: a value below 0 or a NaN becomes 0,
    /// one above 1 becomes 1, any other is kept.
    pub fn with_top_p(self, top_p: Float32) -> (r: Self)
        ensures
            r == (CreateChatCompletion { top_p: Some(Self::clamped_top_p(top_p)), ..self }),
            top_p.spec_lt(f32_of(ZERO_BITS)) ==> r.top_p == Some(f32_of(ZERO_BITS)),
            f32_of(ONE_BITS).spec_lt(top_p) ==> r.top_p == Some(f32_of(ONE_BITS)),
            top_p.is_nan() ==> r.top_p == Some(f32_of(ZERO_BITS)),
            top_p.within(f32_of(ZERO_BITS), f32_of(ONE_BITS)) ==> r.top_p == Some(top_p),
            r.top_p is Some,
            r.top_p.unwrap().within(f32_of(ZERO_BITS), f32_of(ONE_BITS)),
    {
        let p = top_p.clamp_to(Float32::from_bits(ZERO_BITS), Float32::from_bits(ONE_BITS));
        CreateChatCompletion { top_p: Some(p), ..self }
    }

    pub fn with_parallel_tool_calls(self, parallel_tool_calls: bool) -> (r: Self)
        ensures
            r == (CreateChatCompletion { parallel_tool_calls: Some(parallel_tool_calls), ..self }),
    {
        CreateChatCompletion { parallel_tool_calls: Some(parallel_tool_calls), ..self }
    }

    pub fn with_user(self, user: String) -> (r: Self)
        ensures
            r == (CreateChatCompletion { user: Some(user), ..self }),
    {
        CreateChatCompletion { user: Some(user), ..self }
    }
}

} // verus!
