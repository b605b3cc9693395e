//! The protocol-translation shim: routing of an incoming chat-completions
//! request, the backend request shapes, and the synthesis of the
//! chat-completions envelope around a backend reply.

use vstd::prelude::*;
use crate::text::contains_seq;
use crate::text::dec_digits;
use crate::text::spec_word_count;
use crate::text::str_contains;
use crate::text::usize_to_string;
use crate::text::word_count;

verus! {

/// One wire-level chat message.
#[derive(Debug)]
pub struct Message {
    pub role: String,
    pub content: String,
}

/// The mathematical shape of a wire message.
pub struct MessageView {
    pub role: Seq<char>,
    pub content: Seq<char>,
}

impl View for Message {
    type V = MessageView;

    open spec fn view(&self) -> MessageView {
        MessageView { role: self.role@, content: self.content@ }
    }
}

impl DeepView for Message {
    type V = MessageView;

    open spec fn deep_view(&self) -> MessageView {
        self@
    }
}

/// An incoming chat-completions request, reduced to the fields the shim
/// reads: the message list, the model name, and the generation cap.
#[derive(Debug)]
pub struct ChatCompletions {
    pub messages: Vec<Message>,
    pub model: String,
    pub max_tokens: Option<u16>,
}

/// The usage block of a synthesized envelope.
#[derive(Debug)]
pub struct Usage {
    pub prompt_tokens: usize,
    pub completion_tokens: usize,
    pub total_tokens: usize,
}

/// One choice of a synthesized envelope; the shim always synthesizes exactly
/// one, with no log probabilities.
#[derive(Debug)]
pub struct Choices {
    pub index: u16,
    pub message: Message,
    pub finish_reason: String,
}

pub struct ChoicesView {
    pub index: u16,
    pub message: MessageView,
    pub finish_reason: Seq<char>,
}

impl View for Choices {
    type V = ChoicesView;

    open spec fn view(&self) -> ChoicesView {
        ChoicesView { index: self.index, message: self.message@, finish_reason: self.finish_reason@ }
    }
}

impl DeepView for Choices {
    type V = ChoicesView;

    open spec fn deep_view(&self) -> ChoicesView {
        self@
    }
}

pub struct UsageView {
    pub prompt_tokens: nat,
    pub completion_tokens: nat,
    pub total_tokens: nat,
}

impl View for Usage {
    type V = UsageView;

    open spec fn view(&self) -> UsageView {
        UsageView {
            prompt_tokens: self.prompt_tokens as nat,
            completion_tokens: self.completion_tokens as nat,
            total_tokens: self.total_tokens as nat,
        }
    }
}

/// The synthesized chat-completions envelope.
#[derive(Debug)]
pub struct ChatCompletionsResponse {
    pub id: String,
    pub object: String,
    pub created: u64,
    pub model: String,
    pub system_fingerprint: String,
    pub choices: Vec<Choices>,
    pub usage: Usage,
}

pub struct ChatCompletionsResponseView {
    pub id: Seq<char>,
    pub object: Seq<char>,
    pub created: u64,
    pub model: Seq<char>,
    pub system_fingerprint: Seq<char>,
    pub choices: Seq<ChoicesView>,
    pub usage: UsageView,
}

impl View for ChatCompletionsResponse {
    type V = ChatCompletionsResponseView;

    open spec fn view(&self) -> ChatCompletionsResponseView {
        ChatCompletionsResponseView {
            id: self.id@,
            object: self.object@,
            created: self.created,
            model: self.model@,
            system_fingerprint: self.system_fingerprint@,
            choices: self.choices.deep_view(),
            usage: self.usage@,
        }
    }
}

/// The envelope the shim synthesizes, as a function of the reply message,
/// the prompt's token count, and the clock reading: the identifier and the
/// fingerprint are derived from the token count alone, the model name is the
/// fixed placeholder, and the usage block counts whitespace-delimited
/// tokens.
pub open spec fn spec_envelope(
    role: Seq<char>,
    content: Seq<char>,
    prompt_tokens: nat,
    created: u64,
) -> ChatCompletionsResponseView {
    ChatCompletionsResponseView {
        id: "chatcmpl-"@ + dec_digits(prompt_tokens),
        object: "chat.completion"@,
        created: created,
        model: "gpt-3.5-turbo-0125"@,
        system_fingerprint: "fp_4470"@ + dec_digits(prompt_tokens) + "6fcb"@,
        choices: seq![
            ChoicesView {
                index: 0,
                message: MessageView { role, content },
                finish_reason: "stop"@,
            },
        ],
        usage: UsageView {
            prompt_tokens: prompt_tokens,
            completion_tokens: spec_word_count(content),
            total_tokens: prompt_tokens + spec_word_count(content),
        },
    }
}

/// Wraps a backend reply into the synthesized chat-completions envelope.
pub fn build_completion_envelope(
    role: String,
    content: String,
    prompt_tokens: usize,
    created: u64,
) -> (r: ChatCompletionsResponse)
    requires
        prompt_tokens + spec_word_count(content@) <= usize::MAX,
    ensures
        r@ == spec_envelope(role@, content@, prompt_tokens as nat, created),
{
    let completion_tokens = word_count(content.as_str());
    let total_tokens = prompt_tokens + completion_tokens;
    let digits = usize_to_string(prompt_tokens);
    let mut id = "chatcmpl-".to_owned();
    id.append(digits.as_str());
    let mut system_fingerprint = "fp_4470".to_owned();
    system_fingerprint.append(digits.as_str());
    system_fingerprint.append("6fcb");
    let mut choices: Vec<Choices> = Vec::new();
    choices.push(
        Choices { index: 0, message: Message { role, content }, finish_reason: "stop".to_owned() },
    );
    let r = ChatCompletionsResponse {
        id,
        object: "chat.completion".to_owned(),
        created,
        model: "gpt-3.5-turbo-0125".to_owned(),
        system_fingerprint,
        choices,
        usage: Usage { prompt_tokens, completion_tokens, total_tokens },
    };
    proof {
        assert(r.choices.deep_view() =~= spec_envelope(
            role@,
            content@,
            prompt_tokens as nat,
            created,
        ).choices);
    }
    r
}

/// The token count of a whole message list: the sum of each content's
/// whitespace-delimited token count.
pub open spec fn spec_messages_tokens(ms: Seq<MessageView>) -> nat
    decreases ms.len(),
{
    if ms.len() == 0 {
        0
    } else {
        spec_messages_tokens(ms.drop_last()) + spec_word_count(ms.last().content)
    }
}

proof fn lemma_messages_tokens_take_le(ms: Seq<MessageView>, i: int)
    requires
        0 <= i <= ms.len(),
    ensures
        spec_messages_tokens(ms.take(i)) <= spec_messages_tokens(ms),
    decreases ms.len(),
{
    if i < ms.len() {
        assert(ms.drop_last().take(i) =~= ms.take(i));
        lemma_messages_tokens_take_le(ms.drop_last(), i);
    } else {
        assert(ms.take(i) =~= ms);
    }
}

/// Sums the token counts of a message list.
pub fn messages_prompt_tokens(messages: &Vec<Message>) -> (n: usize)
    requires
        spec_messages_tokens(messages.deep_view()) <= usize::MAX,
    ensures
        n == spec_messages_tokens(messages.deep_view()),
{
    let ghost all = messages.deep_view();
    let mut n: usize = 0;
    let mut i: usize = 0;
    while i < messages.len()
        invariant
            i <= messages.len(),
            all == messages.deep_view(),
            all.len() == messages.len(),
            spec_messages_tokens(all) <= usize::MAX,
            n == spec_messages_tokens(all.take(i as int)),
        decreases messages.len() - i,
    {
        proof {
            assert(all.take(i as int + 1).drop_last() =~= all.take(i as int));
            assert(all.take(i as int + 1).last() == all[i as int]);
            assert(all[i as int] == messages@[i as int]@);
            lemma_messages_tokens_take_le(all, i as int + 1);
        }
        let w = word_count(messages[i].content.as_str());
        n = n + w;
        i = i + 1;
    }
    proof {
        assert(all.take(messages@.len() as int) =~= all);
    }
    n
}

/// The fixed marker whose presence in the first message marks a request as a
/// fully assembled grounded prompt.
pub open spec fn rag_marker() -> Seq<char> {
    "Use the following pieces of context to answer the questio"@
}

/// A request is routed to single-shot generation exactly when its first
/// message's content holds the marker.
pub open spec fn spec_is_rag(ms: Seq<MessageView>) -> bool {
    contains_seq(ms[0].content, rag_marker())
}

/// Tests the first message for the grounded-prompt marker.
pub fn is_rag_request(req: &ChatCompletions) -> (r: bool)
    requires
        req.messages@.len() > 0,
    ensures
        r == spec_is_rag(req.messages.deep_view()),
{
    str_contains(
        req.messages[0].content.as_str(),
        "Use the following pieces of context to answer the questio",
    )
}

/// What the shim sends the backend for one request: the first message's
/// content alone for a grounded prompt, the whole message list otherwise,
/// each with the request's generation cap.
pub enum CompletionPlan {
    Generate { prompt: String, max_tokens: Option<u16> },
    Chat { messages: Vec<Message>, max_tokens: Option<u16> },
}

/// Routes one incoming request: a grounded prompt goes to single-shot
/// generation with the first message's content, anything else to the
/// multi-turn chat operation with the full message list.
pub fn plan_completion(req: ChatCompletions) -> (p: CompletionPlan)
    requires
        req.messages@.len() > 0,
    ensures
        spec_is_rag(req.messages.deep_view()) ==> (p matches CompletionPlan::Generate {
            prompt,
            max_tokens,
        } && prompt@ == req.messages.deep_view()[0].content && max_tokens == req.max_tokens),
        !spec_is_rag(req.messages.deep_view()) ==> (p matches CompletionPlan::Chat {
            messages,
            max_tokens,
        } && messages.deep_view() == req.messages.deep_view() && max_tokens == req.max_tokens),
{
    if is_rag_request(&req) {
        let prompt = req.messages[0].content.clone();
        CompletionPlan::Generate { prompt, max_tokens: req.max_tokens }
    } else {
        CompletionPlan::Chat { messages: req.messages, max_tokens: req.max_tokens }
    }
}

/// The errors a backend round trip can end in.
#[derive(Debug)]
pub enum OLLAMAChatModelError {
    RequestError(String),
    HttpError { status_code: u16, error_message: String },
    Exception(),
}

/// A non-success backend status is the upstream error, carrying the status
/// and its rendering.
pub fn check_status(status: u16) -> (r: Result<(), OLLAMAChatModelError>)
    ensures
        r is Ok <==> status == 200,
        status != 200 ==> (r matches Err(e) && e matches OLLAMAChatModelError::HttpError {
            status_code,
            error_message,
        } && status_code == status && error_message@ == "Received non-200 response: "@
            + dec_digits(status as nat)),
{
    if status == 200 {
        Ok(())
    } else {
        let mut error_message = "Received non-200 response: ".to_owned();
        error_message.append(usize_to_string(status as usize).as_str());
        Err(OLLAMAChatModelError::HttpError { status_code: status, error_message })
    }
}

/// The backend's native multi-turn request shape; the fixed sampling
/// temperature is attached at the wire.
#[derive(Debug)]
pub struct OllamaChatRequest {
    pub model: String,
    pub messages: Vec<Message>,
    pub stream: bool,
    pub num_predict: Option<u16>,
}

/// The backend's native single-shot request shape; the fixed sampling
/// parameters are attached at the wire.
#[derive(Debug)]
pub struct OllamaGenerateRequest {
    pub model: String,
    pub prompt: String,
    pub stream: bool,
    pub raw: bool,
    pub num_predict: Option<u16>,
    pub top_k: u16,
}

/// The locally served model behind the shim.
#[derive(Debug)]
pub struct OLLAMAChatModel {
    pub model: String,
    pub base_url: String,
}

impl Default for OLLAMAChatModel {
    fn default() -> (m: Self)
        ensures
            m.model@ == "tinyllama:chat"@,
            m.base_url@ == "http://localhost:11434"@,
    {
        let model = "tinyllama:chat".to_owned();
        let base_url = "http://localhost:11434".to_owned();
        OLLAMAChatModel::new(model, base_url)
    }
}

impl OLLAMAChatModel {
    pub fn new(model: String, base_url: String) -> (m: Self)
        ensures
            m.model@ == model@,
            m.base_url@ == base_url@,
    {
        Self { model, base_url }
    }

    /// The backend's multi-turn endpoint.
    pub fn chat_url(&self) -> (u: String)
        ensures
            u@ == self.base_url@ + "/api/chat"@,
    {
        let mut u = self.base_url.clone();
        u.append("/api/chat");
        u
    }

    /// The backend's single-shot endpoint.
    pub fn generate_url(&self) -> (u: String)
        ensures
            u@ == self.base_url@ + "/api/generate"@,
    {
        let mut u = self.base_url.clone();
        u.append("/api/generate");
        u
    }

    /// The multi-turn request the shim forwards.
    pub fn build_chat_request(&self, messages: Vec<Message>, max_tokens: Option<u16>) -> (r:
        OllamaChatRequest)
        ensures
            r.model@ == self.model@,
            r.messages == messages,
            r.stream == false,
            r.num_predict == max_tokens,
    {
        OllamaChatRequest {
            model: self.model.clone(),
            messages,
            stream: false,
            num_predict: max_tokens,
        }
    }

    /// The single-shot request the shim forwards.
    pub fn build_generate_request(&self, prompt: String, max_tokens: Option<u16>) -> (r:
        OllamaGenerateRequest)
        ensures
            r.model@ == self.model@,
            r.prompt == prompt,
            r.stream == false,
            r.raw == true,
            r.num_predict == max_tokens,
            r.top_k == 30,
    {
        OllamaGenerateRequest {
            model: self.model.clone(),
            prompt,
            stream: false,
            raw: true,
            num_predict: max_tokens,
            top_k: 30,
        }
    }

    /// The envelope for a multi-turn round trip: the prompt's token count is
    /// the sum over the forwarded messages, and the backend's reply message
    /// is wrapped as the one choice.
    pub fn invoke_envelope(&self, messages: &Vec<Message>, reply: Message, created: u64) -> (r:
        ChatCompletionsResponse)
        requires
            spec_messages_tokens(messages.deep_view()) + spec_word_count(reply.content@)
                <= usize::MAX,
        ensures
            r@ == spec_envelope(
                reply.role@,
                reply.content@,
                spec_messages_tokens(messages.deep_view()),
                created,
            ),
    {
        let prompt_tokens = messages_prompt_tokens(messages);
        build_completion_envelope(reply.role, reply.content, prompt_tokens, created)
    }

    /// The envelope for a single-shot round trip: the prompt's token count
    /// counts the prompt itself, and the backend's flat completion is
    /// wrapped as an assistant message.
    pub fn generate_envelope(&self, prompt: &str, response_text: String, created: u64) -> (r:
        ChatCompletionsResponse)
        requires
            spec_word_count(prompt@) + spec_word_count(response_text@) <= usize::MAX,
        ensures
            r@ == spec_envelope(
                "assistant"@,
                response_text@,
                spec_word_count(prompt@),
                created,
            ),
    {
        let prompt_tokens = word_count(prompt);
        build_completion_envelope("assistant".to_owned(), response_text, prompt_tokens, created)
    }
}

/// The synthesized usage block always adds up: its total token count is the
/// prompt's whitespace-token count plus the completion's.
pub proof fn lemma_usage_total(
    role: Seq<char>,
    content: Seq<char>,
    prompt_tokens: nat,
    created: u64,
)
    ensures
        spec_envelope(role, content, prompt_tokens, created).usage.total_tokens == prompt_tokens
            + spec_word_count(content),
        spec_envelope(role, content, prompt_tokens, created).usage.prompt_tokens == prompt_tokens,
        spec_envelope(role, content, prompt_tokens, created).usage.completion_tokens
            == spec_word_count(content),
{
}

/// Two round trips over the same prompt and the same backend reply
/// synthesize the same envelope field for field, apart from the clock
/// reading: the identifier and the fingerprint depend on the input alone.
pub proof fn lemma_envelope_idempotent(
    role: Seq<char>,
    content: Seq<char>,
    prompt_tokens: nat,
    created1: u64,
    created2: u64,
)
    ensures
        spec_envelope(role, content, prompt_tokens, created1).id == spec_envelope(
            role,
            content,
            prompt_tokens,
            created2,
        ).id,
        spec_envelope(role, content, prompt_tokens, created1).object == spec_envelope(
            role,
            content,
            prompt_tokens,
            created2,
        ).object,
        spec_envelope(role, content, prompt_tokens, created1).model == spec_envelope(
            role,
            content,
            prompt_tokens,
            created2,
        ).model,
        spec_envelope(role, content, prompt_tokens, created1).system_fingerprint == spec_envelope(
            role,
            content,
            prompt_tokens,
            created2,
        ).system_fingerprint,
        spec_envelope(role, content, prompt_tokens, created1).choices == spec_envelope(
            role,
            content,
            prompt_tokens,
            created2,
        ).choices,
        spec_envelope(role, content, prompt_tokens, created1).usage == spec_envelope(
            role,
            content,
            prompt_tokens,
            created2,
        ).usage,
        spec_envelope(role, content, prompt_tokens, created1).created == created1,
        spec_envelope(role, content, prompt_tokens, created2).created == created2,
{
}

} // verus!
