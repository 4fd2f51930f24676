//! A client for a chat-completion backend.
//!
//! The library builds the request for a conversation, says which HTTP call
//! carries it, and decodes the answer. The call itself is the caller's: each
//! function that asks takes the transport as its last argument and uses it
//! once.

pub mod json;
pub mod openai;
pub mod text;

use crate::openai::exchange::{accepts, answer_view, exchanged, HttpPost};
use crate::openai::request::{
    command_conversation, command_messages, question_conversation, question_messages,
    resolve_model, resolve_temperature, resolved_model, resolved_temperature, temperature_choice,
    RequestView,
};
use crate::openai::{
    ask_sync, messages_view, AskError, Message, Model, SuccessfullConversationResponse,
    Temperature, TransportError,
};
use vstd::prelude::*;

verus! {

/// Asks with the default model and the default temperature where the caller
/// chose none.
fn default_ask<F: FnOnce(HttpPost) -> Result<String, TransportError>>(
    api_key: String,
    model: Option<Model>,
    messages: Vec<Message>,
    temperature: Option<Temperature>,
    send: F,
) -> (answer: Result<SuccessfullConversationResponse, AskError>)
    requires
        messages@.len() > 0,
        accepts(
            send,
            api_key@,
            RequestView {
                model: resolved_model(model),
                messages: messages_view(messages@),
                temperature: resolved_temperature(temperature_choice(temperature)),
            },
        ),
    ensures
        exchanged(
            send,
            api_key@,
            RequestView {
                model: resolved_model(model),
                messages: messages_view(messages@),
                temperature: resolved_temperature(temperature_choice(temperature)),
            },
            answer_view(answer),
        ),
{
    let model = resolve_model(model);
    let temperature = resolve_temperature(temperature);
    ask_sync(api_key, model, temperature, messages, send)
}

/// Asks one question: the conversation is the prompt alone, spoken by the
/// user.
pub fn ask_question_sync<F: FnOnce(HttpPost) -> Result<String, TransportError>>(
    api_key: String,
    model: Option<Model>,
    message: String,
    temperature: Option<Temperature>,
    send: F,
) -> (answer: Result<SuccessfullConversationResponse, AskError>)
    requires
        accepts(
            send,
            api_key@,
            RequestView {
                model: resolved_model(model),
                messages: question_conversation(message@),
                temperature: resolved_temperature(temperature_choice(temperature)),
            },
        ),
    ensures
        exchanged(
            send,
            api_key@,
            RequestView {
                model: resolved_model(model),
                messages: question_conversation(message@),
                temperature: resolved_temperature(temperature_choice(temperature)),
            },
            answer_view(answer),
        ),
{
    let messages = question_messages(message);
    default_ask(api_key, model, messages, temperature, send)
}

/// Asks for one command line that does what `description` says: the
/// conversation is the fixed instruction, then the description, spoken by
/// the user.
pub fn ask_cli<F: FnOnce(HttpPost) -> Result<String, TransportError>>(
    api_key: String,
    model: Option<Model>,
    description: String,
    temperature: Option<Temperature>,
    send: F,
) -> (answer: Result<SuccessfullConversationResponse, AskError>)
    requires
        accepts(
            send,
            api_key@,
            RequestView {
                model: resolved_model(model),
                messages: command_conversation(description@),
                temperature: resolved_temperature(temperature_choice(temperature)),
            },
        ),
    ensures
        exchanged(
            send,
            api_key@,
            RequestView {
                model: resolved_model(model),
                messages: command_conversation(description@),
                temperature: resolved_temperature(temperature_choice(temperature)),
            },
            answer_view(answer),
        ),
{
    let messages = command_messages(description);
    default_ask(api_key, model, messages, temperature, send)
}

} // verus!
