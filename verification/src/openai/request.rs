//! Building a request and writing it as the JSON body of an HTTP call.

use crate::json::{json_string_literal, quote};
use crate::openai::message::{messages_view, Message, MessageView, Role};
use crate::openai::model::Model;
use crate::openai::temperature::Temperature;
use vstd::prelude::*;
use vstd::string::StringExecFns;

verus! {

/// The address of the chat-completion endpoint.
pub const OPENAI_COMPLETIONS_URL: &'static str = "https://api.openai.com/v1/chat/completions";

/// The model that a request names where the caller chose none.
pub const DEFAULT_MODEL: Model = Model::Gpt3_5Turbo;

/// The instruction that opens a conversation in which the backend is to
/// answer with one command line.
pub const CLI_ASKING_PREMESSAGE: &'static str =
    "You are the console application that generates propositions for calling command line applications based on user request. You should answer the user just with one line of script that, as you think, the most fittingly does what user requested. DO NOT add some sort of comments, explanations etc. Just the described script.";

/// The model of a request, given the caller's choice.
pub open spec fn resolved_model(choice: Option<Model>) -> Model {
    match choice {
        Some(model) => model,
        None => DEFAULT_MODEL,
    }
}

/// The temperature of a request, given the literal of the caller's choice.
pub open spec fn resolved_temperature(choice: Option<Seq<char>>) -> Seq<char> {
    match choice {
        Some(literal) => literal,
        None => Temperature::default_literal(),
    }
}

/// The literal of a temperature that may be absent.
pub open spec fn temperature_choice(choice: Option<Temperature>) -> Option<Seq<char>> {
    match choice {
        Some(temperature) => Some(temperature@),
        None => None,
    }
}

/// Gives the caller's model, or the default one.
pub fn resolve_model(choice: Option<Model>) -> (model: Model)
    ensures
        model == resolved_model(choice),
{
    match choice {
        Some(model) => model,
        None => DEFAULT_MODEL,
    }
}

/// Gives the caller's temperature, or the default one.
pub fn resolve_temperature(choice: Option<Temperature>) -> (temperature: Temperature)
    ensures
        temperature@ == resolved_temperature(temperature_choice(choice)),
{
    match choice {
        Some(temperature) => temperature,
        None => Temperature::default(),
    }
}

/// The messages of a conversation that asks one question.
pub open spec fn question_conversation(prompt: Seq<char>) -> Seq<MessageView> {
    seq![MessageView { role: Role::User, content: prompt }]
}

/// The messages of a conversation that asks for one command line: the fixed
/// instruction, then the task.
pub open spec fn command_conversation(description: Seq<char>) -> Seq<MessageView> {
    seq![
        MessageView { role: Role::System, content: CLI_ASKING_PREMESSAGE@ },
        MessageView { role: Role::User, content: description },
    ]
}

/// Wraps a prompt as the one message of a conversation, spoken by the user.
pub fn question_messages(prompt: String) -> (messages: Vec<Message>)
    ensures
        messages_view(messages@) == question_conversation(prompt@),
{
    let mut messages: Vec<Message> = Vec::new();
    messages.push(Message { role: Role::User, content: prompt });
    assert(messages_view(messages@) =~= question_conversation(prompt@));
    messages
}

/// Puts the fixed instruction in front of a task description.
pub fn command_messages(description: String) -> (messages: Vec<Message>)
    ensures
        messages_view(messages@) == command_conversation(description@),
{
    let mut messages: Vec<Message> = Vec::new();
    messages.push(Message { role: Role::System, content: CLI_ASKING_PREMESSAGE.to_owned() });
    messages.push(Message { role: Role::User, content: description });
    assert(messages_view(messages@) =~= command_conversation(description@));
    messages
}

/// What is sent to the backend: a model, a conversation and a temperature.
pub struct ConversationRequest {
    model: Model,
    messages: Vec<Message>,
    temperature: Temperature,
}

/// The mathematical value of a [`ConversationRequest`].
pub ghost struct RequestView {
    pub model: Model,
    pub messages: Seq<MessageView>,
    pub temperature: Seq<char>,
}

impl View for ConversationRequest {
    type V = RequestView;

    closed spec fn view(&self) -> RequestView {
        RequestView {
            model: self.model,
            messages: messages_view(self.messages@),
            temperature: self.temperature@,
        }
    }
}

impl ConversationRequest {
    #[verifier::type_invariant]
    spec fn well_formed(self) -> bool {
        self.messages@.len() > 0
    }

    /// Makes a request of a model, a temperature and a conversation that is
    /// not empty.
    pub fn new(model: Model, temperature: Temperature, messages: Vec<Message>) -> (request:
        ConversationRequest)
        requires
            messages@.len() > 0,
        ensures
            request@ == (RequestView {
                model,
                messages: messages_view(messages@),
                temperature: temperature@,
            }),
    {
        ConversationRequest { model, messages, temperature }
    }

    /// The model that the request names.
    pub fn model(&self) -> (model: Model)
        ensures
            model == self@.model,
    {
        self.model
    }

    /// The conversation, which is never empty.
    pub fn messages(&self) -> (messages: &Vec<Message>)
        ensures
            messages_view(messages@) == self@.messages,
            messages@.len() > 0,
    {
        proof {
            use_type_invariant(self);
        }
        &self.messages
    }

    /// The temperature.
    pub fn temperature(&self) -> (temperature: &Temperature)
        ensures
            temperature@ == self@.temperature,
    {
        &self.temperature
    }
}

/// Builds the request for a conversation, with the default model and the
/// default temperature where the caller chose none. The messages go into the
/// request as they are, in their order.
pub fn build_request(
    model: Option<Model>,
    temperature: Option<Temperature>,
    messages: Vec<Message>,
) -> (request: ConversationRequest)
    requires
        messages@.len() > 0,
    ensures
        request@ == (RequestView {
            model: resolved_model(model),
            messages: messages_view(messages@),
            temperature: resolved_temperature(temperature_choice(temperature)),
        }),
        model is None ==> request@.model == Model::Gpt3_5Turbo,
        temperature is None ==> request@.temperature == "0.7"@,
        request@.messages.len() == messages@.len(),
        forall|i: int|
            0 <= i < messages@.len() ==> (#[trigger] request@.messages[i]) == messages@[i]@,
{
    let model = resolve_model(model);
    let temperature = resolve_temperature(temperature);
    ConversationRequest::new(model, temperature, messages)
}

/// The JSON object of one message, given the literals of its role and of
/// its content.
pub open spec fn message_frame(role_literal: Seq<char>, content_literal: Seq<char>) -> Seq<char> {
    "{\"role\":"@ + role_literal + ",\"content\":"@ + content_literal + "}"@
}

/// Texts in a row, with a comma between each two.
pub open spec fn joined(texts: Seq<Seq<char>>) -> Seq<char>
    decreases texts.len(),
{
    if texts.len() == 0 {
        Seq::empty()
    } else if texts.len() == 1 {
        texts[0]
    } else {
        joined(texts.drop_last()) + ","@ + texts.last()
    }
}

/// The JSON object of a request, given the literal of its model, the
/// objects of its messages and the literal of its temperature.
pub open spec fn request_frame(
    model_literal: Seq<char>,
    message_texts: Seq<Seq<char>>,
    temperature_literal: Seq<char>,
) -> Seq<char> {
    "{\"model\":"@ + model_literal + ",\"messages\":["@ + joined(message_texts)
        + "],\"temperature\":"@ + temperature_literal + "}"@
}

/// The JSON object of one message.
pub open spec fn message_text(message: MessageView) -> Seq<char> {
    message_frame(
        json_string_literal(message.role.wire_name()),
        json_string_literal(message.content),
    )
}

/// The JSON body of a request: the model, the messages in their order, the
/// temperature.
pub open spec fn request_text(request: RequestView) -> Seq<char> {
    request_frame(
        json_string_literal(request.model.wire_name()),
        request.messages.map_values(|message: MessageView| message_text(message)),
        request.temperature,
    )
}

/// The views of a list of texts.
pub open spec fn texts_view(texts: Seq<String>) -> Seq<Seq<char>> {
    texts.map_values(|text: String| text@)
}

/// Writes the JSON object of one message around the literals of its role and
/// of its content.
pub fn frame_message(role_literal: &str, content_literal: &str) -> (text: String)
    ensures
        text@ == message_frame(role_literal@, content_literal@),
{
    let mut text = String::new();
    text.append("{\"role\":");
    text.append(role_literal);
    text.append(",\"content\":");
    text.append(content_literal);
    text.append("}");
    assert(text@ =~= message_frame(role_literal@, content_literal@));
    text
}

/// Writes texts in a row, with a comma between each two.
pub fn join(texts: &Vec<String>) -> (row: String)
    ensures
        row@ == joined(texts_view(texts@)),
{
    let mut row = String::new();
    let mut i: usize = 0;
    while i < texts.len()
        invariant
            i <= texts.len(),
            row@ == joined(texts_view(texts@).take(i as int)),
        decreases texts.len() - i,
    {
        let ghost all = texts_view(texts@);
        let ghost before = all.take(i as int);
        let ghost after = all.take(i + 1);
        proof {
            assert(after.drop_last() =~= before);
            assert(after.last() == texts@[i as int]@);
        }
        if i > 0 {
            row.append(",");
        }
        row.append(texts[i].as_str());
        proof {
            if i == 0 {
                assert(before =~= Seq::<Seq<char>>::empty());
                assert(row@ =~= after[0]);
            } else {
                assert(row@ =~= joined(before) + ","@ + after.last());
            }
        }
        i = i + 1;
    }
    assert(texts_view(texts@).take(texts@.len() as int) =~= texts_view(texts@));
    row
}

/// Writes the JSON object of a request around the literal of its model, the
/// objects of its messages and the literal of its temperature.
pub fn frame_request(model_literal: &str, message_texts: &Vec<String>, temperature_literal: &str)
    -> (body: String)
    ensures
        body@ == request_frame(model_literal@, texts_view(message_texts@), temperature_literal@),
{
    let row = join(message_texts);
    let mut body = String::new();
    body.append("{\"model\":");
    body.append(model_literal);
    body.append(",\"messages\":[");
    body.append(row.as_str());
    body.append("],\"temperature\":");
    body.append(temperature_literal);
    body.append("}");
    assert(body@ =~= request_frame(
        model_literal@,
        texts_view(message_texts@),
        temperature_literal@,
    ));
    body
}

/// Writes one message as a JSON object.
pub fn encode_message(message: &Message) -> (text: String)
    ensures
        text@ == message_text(message@),
{
    let role_literal = quote(message.role.name());
    let content_literal = quote(message.content.as_str());
    frame_message(role_literal.as_str(), content_literal.as_str())
}

/// Writes a request as the JSON body that the backend expects.
pub fn encode_request(request: &ConversationRequest) -> (body: String)
    ensures
        body@ == request_text(request@),
{
    let messages = request.messages();
    let mut texts: Vec<String> = Vec::new();
    let mut i: usize = 0;
    while i < messages.len()
        invariant
            i <= messages.len(),
            texts@.len() == i,
            forall|k: int|
                0 <= k < i ==> (#[trigger] texts@[k])@ == message_text(messages@[k]@),
        decreases messages.len() - i,
    {
        texts.push(encode_message(&messages[i]));
        i = i + 1;
    }
    let model_literal = quote(request.model().name());
    proof {
        assert(texts_view(texts@) =~= request@.messages.map_values(
            |message: MessageView| message_text(message),
        )) by {
            assert(request@.messages == messages_view(messages@));
        }
    }
    frame_request(model_literal.as_str(), &texts, request.temperature().literal())
}

} // verus!
