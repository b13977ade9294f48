//! The Story Engine's own logic: checking that a key is configured,
//! writing the prompts that ask the model for a story, and picking the
//! model's answer out of a chat completion response.
//!
//! Sending the request and decoding the JSON answer into a
//! [`StoryResult`](crate::models::StoryResult) happen outside this crate.

use vstd::prelude::*;

use crate::error::CoreError;
use crate::models::story::{StoryDuration, StoryRequest};
use crate::services::openai_client::{ChatCompletionResponse, ChatMessage, ChatRole};
use crate::text::{decimal_chars, decimal_digits, push_chars, spec_is_blank};

verus! {

/// Refuses a blank API key before any client is built.
pub fn check_api_key(api_key: &str) -> (r: Result<(), CoreError>)
    ensures
        spec_is_blank(api_key@) ==> r matches Err(CoreError::MissingApiKey),
        !spec_is_blank(api_key@) ==> r is Ok,
{
    if crate::text::is_blank(api_key) {
        Err(CoreError::MissingApiKey)
    } else {
        Ok(())
    }
}

/// `{min}-{max}` for the preset's target word count.
pub open spec fn word_range(d: StoryDuration) -> Seq<char> {
    decimal_digits(d.spec_target_word_count().0 as nat) + "-"@ + decimal_digits(
        d.spec_target_word_count().1 as nat,
    )
}

/// The system prompt: the engine's role, the JSON-only answer, the story's
/// length in words and the shape of hashtags.
pub open spec fn system_prompt(d: StoryDuration) -> Seq<char> {
    "You are StoryBloom Studio's story generation engine. You write short-form stories intended to be narrated over social media video. Respond ONLY with a JSON object matching the provided schema - no markdown, no commentary outside the JSON. The `story` field must be approximately "@
        + word_range(d) + " words, matching a "@ + d.spec_label()
        + " narration length. `hashtags` must each start with '#' and contain no spaces."@
}

/// The user prompt: story type, tone and target duration.
pub open spec fn user_prompt(r: StoryRequest) -> Seq<char> {
    "Story type: "@ + r.story_type.spec_label() + "\nTone: "@ + r.tone.spec_label()
        + "\nTarget duration: "@ + r.duration.spec_label() + " ("@ + word_range(r.duration)
        + " words)\n\nWrite the story now."@
}

fn push_word_range(out: &mut String, d: StoryDuration)
    ensures
        final(out)@ == old(out)@ + word_range(d),
{
    let ghost start = out@;
    let (min_words, max_words) = d.target_word_count();
    let lo = decimal_chars(min_words as u128);
    push_chars(out, &lo);
    out.append("-");
    let hi = decimal_chars(max_words as u128);
    push_chars(out, &hi);
    assert(out@ =~= start + word_range(d));
}

/// The system prompt for a story of duration `d`.
pub fn build_system_prompt(d: StoryDuration) -> (r: String)
    ensures
        r@ == system_prompt(d),
{
    let mut out = "You are StoryBloom Studio's story generation engine. You write short-form stories intended to be narrated over social media video. Respond ONLY with a JSON object matching the provided schema - no markdown, no commentary outside the JSON. The `story` field must be approximately ".to_string();
    push_word_range(&mut out, d);
    out.append(" words, matching a ");
    let label = d.to_string();
    out.append(label.as_str());
    out.append(" narration length. `hashtags` must each start with '#' and contain no spaces.");
    out
}

/// The user prompt for `request`.
pub fn build_user_prompt(request: &StoryRequest) -> (r: String)
    ensures
        r@ == user_prompt(*request),
{
    let mut out = "Story type: ".to_string();
    let story_type = request.story_type.to_string();
    out.append(story_type.as_str());
    out.append("\nTone: ");
    let tone = request.tone.to_string();
    out.append(tone.as_str());
    out.append("\nTarget duration: ");
    let duration = request.duration.to_string();
    out.append(duration.as_str());
    out.append(" (");
    push_word_range(&mut out, request.duration);
    out.append(" words)\n\nWrite the story now.");
    out
}

/// The conversation sent to the model for `request`: the system prompt,
/// then the user prompt.
pub fn build_chat_messages(request: &StoryRequest) -> (messages: Vec<ChatMessage>)
    ensures
        messages@.len() == 2,
        messages@[0].role == ChatRole::System,
        messages@[0].content@ == system_prompt(request.duration),
        messages@[1].role == ChatRole::User,
        messages@[1].content@ == user_prompt(*request),
{
    let system = ChatMessage { role: ChatRole::System, content: build_system_prompt(request.duration) };
    let user = ChatMessage { role: ChatRole::User, content: build_user_prompt(request) };
    let mut messages: Vec<ChatMessage> = Vec::new();
    messages.push(system);
    messages.push(user);
    messages
}

/// The content of the first choice of a response, which holds the story as
/// JSON; a response without choices is refused.
pub fn first_choice_content(response: &ChatCompletionResponse) -> (r: Result<&str, CoreError>)
    ensures
        response.choices@.len() > 0 ==> (r matches Ok(c) && c@
            == response.choices@[0].message.content@),
        response.choices@.len() == 0 ==> (r matches Err(CoreError::ResponseParse(m)) && m@
            == "model returned no choices"@),
{
    if response.choices.len() > 0 {
        Ok(response.choices[0].message.content.as_str())
    } else {
        Err(CoreError::ResponseParse("model returned no choices".to_string()))
    }
}

} // verus!
