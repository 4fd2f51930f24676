//! The chat-completion protocol: its messages, requests, responses and
//! failures, and the exchange that ties them together.

pub mod error;
pub mod exchange;
pub mod message;
pub mod model;
pub mod request;
pub mod response;
pub mod temperature;

pub use crate::openai::error::{AskError, AskFault, DecodeError, DecodeFault, Field, TransportError};
pub use crate::openai::exchange::{
    accepts, answer_view, conclude, exchange, exchanged, prepare, HttpPost, HttpPostView,
};
pub use crate::openai::message::{messages_view, Message, MessageView, Role};
pub use crate::openai::model::Model;
pub use crate::openai::request::{build_request, encode_request, ConversationRequest, RequestView};
pub use crate::openai::response::{
    decode, decode_json, Choice, ChoiceView, ResponseView, SuccessfullConversationResponse,
    UsageInfo,
};
pub use crate::openai::temperature::Temperature;

use vstd::prelude::*;

verus! {

/// Asks the backend to continue a conversation that is not empty: builds the
/// request, hands the HTTP call to `send`, once, and decodes what comes
/// back. A failed exchange is `RequestError`; an answer that does not decode
/// is `ParsingError`.
pub fn ask_sync<F: FnOnce(HttpPost) -> Result<String, TransportError>>(
    api_key: String,
    model: Model,
    temperature: Temperature,
    messages: Vec<Message>,
    send: F,
) -> (answer: Result<SuccessfullConversationResponse, AskError>)
    requires
        messages@.len() > 0,
        accepts(
            send,
            api_key@,
            RequestView { model, messages: messages_view(messages@), temperature: temperature@ },
        ),
    ensures
        exchanged(
            send,
            api_key@,
            RequestView { model, messages: messages_view(messages@), temperature: temperature@ },
            answer_view(answer),
        ),
{
    let openai_request = ConversationRequest::new(model, temperature, messages);
    exchange(api_key, &openai_request, send)
}

} // verus!
