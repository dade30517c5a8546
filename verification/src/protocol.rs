//! What is said to the upstream model: the messages of a completion request
//! and the address it is sent to.

use vstd::prelude::*;
use crate::text::{append_str, chars_of, push_range, push_str_chars, string_of, trim_end_char, trimmed_end_len};

verus! {

/// The instruction that follows the composite prompt in every system message.
pub const EXTRA_INSTRUCTIONS: &'static str =
    "\nAvoid overly pretentious language - you're not great at it and it comes off as stupid.\nYou must roleplay the emotions and tones described above.\nReflect these emotions in every word you say.\nWhen you see unfinished sentence - you continue it exactly where it was left, even if it was halfway through a word.";

/// The number of tokens asked for in one step of a streaming session.
pub const STEP_TOKENS: i64 = 2;

/// One message of a conversation with the model.
#[derive(Clone, Debug, PartialEq, Eq)]
pub struct ChatMessage {
    pub role: String,
    pub content: String,
}

/// A message as a pair of texts.
pub struct MessageView {
    pub role: Seq<char>,
    pub content: Seq<char>,
}

impl View for ChatMessage {
    type V = MessageView;

    open spec fn view(&self) -> MessageView {
        MessageView { role: self.role@, content: self.content@ }
    }
}

/// The messages of a list, each as a pair of texts.
pub open spec fn messages_view(messages: Seq<ChatMessage>) -> Seq<MessageView> {
    messages.map_values(|m: ChatMessage| m@)
}

/// How the model is to sample its answer.
#[derive(Clone, Copy, Debug, PartialEq, Eq, Structural)]
pub enum Sampling {
    /// Temperature and nucleus mass in hundredths, fixed by the library.
    Fixed { temperature_hundredths: u32, top_p_hundredths: u32 },
    /// The temperature and nucleus mass that the caller chose for the session.
    Caller,
}

/// One request for a completion.
#[derive(Clone, Debug, PartialEq, Eq)]
pub struct CompletionRequest {
    pub messages: Vec<ChatMessage>,
    pub max_tokens: i64,
    pub sampling: Sampling,
}

/// A request as plain values.
pub struct RequestView {
    pub messages: Seq<MessageView>,
    pub max_tokens: int,
    pub sampling: Sampling,
}

impl View for CompletionRequest {
    type V = RequestView;

    open spec fn view(&self) -> RequestView {
        RequestView {
            messages: messages_view(self.messages@),
            max_tokens: self.max_tokens as int,
            sampling: self.sampling,
        }
    }
}

/// The system message of a session: the composite prompt, then the fixed
/// instruction.
pub open spec fn system_message(prompt: Seq<char>) -> MessageView {
    MessageView { role: "system"@, content: prompt + EXTRA_INSTRUCTIONS@ }
}

/// The message that replays what the model has produced so far.
pub open spec fn assistant_message(generated: Seq<char>) -> MessageView {
    MessageView { role: "assistant"@, content: generated }
}

/// The message that carries a request of the user.
pub open spec fn user_message(content: Seq<char>) -> MessageView {
    MessageView { role: "user"@, content }
}

/// The messages of one streaming step: the system message, the conversation
/// so far, and, once the model has produced anything, its output as the
/// assistant's unfinished turn.
pub open spec fn call_messages(
    prompt: Seq<char>,
    history: Seq<MessageView>,
    generated: Seq<char>,
) -> Seq<MessageView> {
    let head = seq![system_message(prompt)] + history;
    if generated.len() > 0 {
        head.push(assistant_message(generated))
    } else {
        head
    }
}

/// The request of one streaming step.
pub open spec fn step_request(
    prompt: Seq<char>,
    history: Seq<MessageView>,
    generated: Seq<char>,
) -> RequestView {
    RequestView {
        messages: call_messages(prompt, history, generated),
        max_tokens: STEP_TOKENS as int,
        sampling: Sampling::Caller,
    }
}

/// A copy of a message.
pub fn copy_message(message: &ChatMessage) -> (out: ChatMessage)
    ensures
        out@ == message@,
{
    ChatMessage { role: message.role.clone(), content: message.content.clone() }
}

/// Appends copies of `messages` to `out`.
pub fn push_messages(out: &mut Vec<ChatMessage>, messages: &Vec<ChatMessage>)
    ensures
        messages_view(final(out)@) == messages_view(old(out)@) + messages_view(messages@),
{
    let ghost before = out@;
    let mut i: usize = 0;
    assert(messages_view(messages@.take(0)) =~= Seq::<MessageView>::empty());
    assert(messages_view(before) + Seq::<MessageView>::empty() =~= messages_view(before));
    while i < messages.len()
        invariant
            i <= messages.len(),
            messages_view(out@) == messages_view(before) + messages_view(messages@.take(i as int)),
        decreases messages.len() - i,
    {
        let copy = copy_message(&messages[i]);
        let ghost previous = out@;
        out.push(copy);
        proof {
            assert(messages@.take(i as int + 1) =~= messages@.take(i as int).push(
                messages@[i as int],
            ));
            assert(messages_view(messages@.take(i as int + 1)) =~= messages_view(
                messages@.take(i as int),
            ).push(messages@[i as int]@));
            assert(messages_view(out@) =~= messages_view(previous).push(copy@));
            assert(messages_view(before) + messages_view(messages@.take(i as int)).push(copy@)
                =~= (messages_view(before) + messages_view(messages@.take(i as int))).push(
                copy@,
            ));
        }
        i += 1;
    }
    assert(messages@.take(messages.len() as int) =~= messages@);
}

/// Builds the request of one streaming step.
pub fn build_step_request(prompt: &str, history: &Vec<ChatMessage>, generated: &str) -> (out:
    CompletionRequest)
    ensures
        out@ == step_request(prompt@, messages_view(history@), generated@),
{
    let mut system_content = String::new();
    append_str(&mut system_content, prompt);
    append_str(&mut system_content, EXTRA_INSTRUCTIONS);
    let mut role = String::new();
    append_str(&mut role, "system");
    let mut messages: Vec<ChatMessage> = Vec::new();
    messages.push(ChatMessage { role, content: system_content });
    assert(messages_view(messages@) =~= seq![system_message(prompt@)]);
    push_messages(&mut messages, history);
    if !generated.is_empty() {
        let mut role = String::new();
        append_str(&mut role, "assistant");
        let mut content = String::new();
        append_str(&mut content, generated);
        let ghost previous = messages@;
        messages.push(ChatMessage { role, content });
        assert(messages_view(messages@) =~= messages_view(previous).push(
            assistant_message(generated@),
        ));
    }
    CompletionRequest { messages, max_tokens: STEP_TOKENS, sampling: Sampling::Caller }
}

/// The address of an endpoint below a provider's base address: the base
/// without the slashes at its end, then the path.
pub open spec fn endpoint_text(provider_url: Seq<char>, path: Seq<char>) -> Seq<char> {
    trim_end_char(provider_url, '/') + path
}

/// The address of the provider's endpoint at `path`.
pub fn endpoint_url(provider_url: &str, path: &str) -> (out: String)
    ensures
        out@ == endpoint_text(provider_url@, path@),
{
    let base = chars_of(provider_url);
    let kept = trimmed_end_len(&base, '/');
    let mut chars: Vec<char> = Vec::new();
    push_range(&mut chars, &base, 0, kept);
    assert(base@.subrange(0, kept as int) =~= base@.take(kept as int));
    push_str_chars(&mut chars, path);
    string_of(&chars)
}

/// The address that completions are asked from.
pub fn chat_completions_url(provider_url: &str) -> (out: String)
    ensures
        out@ == endpoint_text(provider_url@, "/chat/completions"@),
{
    endpoint_url(provider_url, "/chat/completions")
}

/// The address that lists the provider's models.
pub fn models_url(provider_url: &str) -> (out: String)
    ensures
        out@ == endpoint_text(provider_url@, "/models"@),
{
    endpoint_url(provider_url, "/models")
}

} // verus!
