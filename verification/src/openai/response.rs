//! The answer of the backend, and how it is read from JSON.

use crate::json::{lemma_array_view, lemma_member_at, parse_json, parsed_json, Json, JsonView};
use crate::openai::error::{DecodeError, DecodeFault, Field};
use crate::openai::message::{Message, MessageView, Role};
use vstd::prelude::*;

verus! {

/// How many tokens an exchange took.
#[derive(Clone, Copy, Debug, PartialEq, Eq, Structural)]
pub struct UsageInfo {
    pub prompt_tokens: u64,
    pub completion_tokens: u64,
    pub total_tokens: u64,
}

/// One candidate answer.
#[derive(Clone, Debug, PartialEq, Eq)]
pub struct Choice {
    pub index: u64,
    pub message: Message,
    pub finish_reason: String,
}

/// The mathematical value of a [`Choice`].
pub ghost struct ChoiceView {
    pub index: u64,
    pub message: MessageView,
    pub finish_reason: Seq<char>,
}

impl View for Choice {
    type V = ChoiceView;

    open spec fn view(&self) -> ChoiceView {
        ChoiceView {
            index: self.index,
            message: self.message@,
            finish_reason: self.finish_reason@,
        }
    }
}

/// The values of a list of choices, in its order.
pub open spec fn choices_view(choices: Seq<Choice>) -> Seq<ChoiceView> {
    choices.map_values(|choice: Choice| choice@)
}

/// A decoded answer of the backend.
#[derive(Clone, Debug, PartialEq, Eq)]
pub struct SuccessfullConversationResponse {
    pub id: String,
    pub object: String,
    pub created: u64,
    pub model: String,
    pub choices: Vec<Choice>,
    pub usage: UsageInfo,
}

/// The mathematical value of a [`SuccessfullConversationResponse`].
pub ghost struct ResponseView {
    pub id: Seq<char>,
    pub object: Seq<char>,
    pub created: u64,
    pub model: Seq<char>,
    pub choices: Seq<ChoiceView>,
    pub usage: UsageInfo,
}

impl View for SuccessfullConversationResponse {
    type V = ResponseView;

    open spec fn view(&self) -> ResponseView {
        ResponseView {
            id: self.id@,
            object: self.object@,
            created: self.created,
            model: self.model@,
            choices: choices_view(self.choices@),
            usage: self.usage,
        }
    }
}

impl SuccessfullConversationResponse {
    /// The first choice, which by convention is the answer. A response
    /// without choices has none.
    pub fn first_choice(&self) -> (first: Option<&Choice>)
        ensures
            match first {
                Some(choice) => self@.choices.len() > 0 && choice@ == self@.choices[0],
                None => self@.choices.len() == 0,
            },
    {
        if self.choices.len() > 0 {
            Some(&self.choices[0])
        } else {
            None
        }
    }
}

/// The text under the key of `field` in an object.
pub open spec fn text_member(json: JsonView, field: Field) -> Result<Seq<char>, DecodeFault> {
    match json.get(field.key()) {
        None => Err(DecodeFault::MissingField(field)),
        Some(JsonView::Text(text)) => Ok(text),
        Some(_) => Err(DecodeFault::WrongType(field)),
    }
}

/// The non-negative integer under the key of `field` in an object.
pub open spec fn natural_member(json: JsonView, field: Field) -> Result<u64, DecodeFault> {
    match json.get(field.key()) {
        None => Err(DecodeFault::MissingField(field)),
        Some(JsonView::Number(Some(n))) => Ok(n),
        Some(_) => Err(DecodeFault::WrongType(field)),
    }
}

/// The object under the key of `field` in an object.
pub open spec fn object_member(json: JsonView, field: Field) -> Result<JsonView, DecodeFault> {
    match json.get(field.key()) {
        None => Err(DecodeFault::MissingField(field)),
        Some(JsonView::Object(members)) => Ok(JsonView::Object(members)),
        Some(_) => Err(DecodeFault::WrongType(field)),
    }
}

/// The items of the array under the key of `field` in an object.
pub open spec fn array_member(json: JsonView, field: Field) -> Result<Seq<JsonView>, DecodeFault> {
    match json.get(field.key()) {
        None => Err(DecodeFault::MissingField(field)),
        Some(JsonView::Array(items)) => Ok(items),
        Some(_) => Err(DecodeFault::WrongType(field)),
    }
}

/// What the object of a message decodes to: its role, which must be one of
/// the three, then its content.
pub open spec fn decode_message_spec(json: JsonView) -> Result<MessageView, DecodeFault> {
    match text_member(json, Field::Role) {
        Err(fault) => Err(fault),
        Ok(name) => match Role::of_wire_name(name) {
            None => Err(DecodeFault::UnknownRole(name)),
            Some(role) => match text_member(json, Field::Content) {
                Err(fault) => Err(fault),
                Ok(content) => Ok(MessageView { role, content }),
            },
        },
    }
}

/// What the object of a usage report decodes to.
pub open spec fn decode_usage_spec(json: JsonView) -> Result<UsageInfo, DecodeFault> {
    match natural_member(json, Field::PromptTokens) {
        Err(fault) => Err(fault),
        Ok(prompt_tokens) => match natural_member(json, Field::CompletionTokens) {
            Err(fault) => Err(fault),
            Ok(completion_tokens) => match natural_member(json, Field::TotalTokens) {
                Err(fault) => Err(fault),
                Ok(total_tokens) => Ok(
                    UsageInfo { prompt_tokens, completion_tokens, total_tokens },
                ),
            },
        },
    }
}

/// What one item of `choices` decodes to: it must be an object, with an
/// index, a message and a finish reason, which are read in this order.
pub open spec fn decode_choice_spec(json: JsonView) -> Result<ChoiceView, DecodeFault> {
    if !(json is Object) {
        Err(DecodeFault::WrongType(Field::Choice))
    } else {
        match natural_member(json, Field::Index) {
            Err(fault) => Err(fault),
            Ok(index) => match object_member(json, Field::Message) {
                Err(fault) => Err(fault),
                Ok(object) => match decode_message_spec(object) {
                    Err(fault) => Err(fault),
                    Ok(message) => match text_member(json, Field::FinishReason) {
                        Err(fault) => Err(fault),
                        Ok(finish_reason) => Ok(ChoiceView { index, message, finish_reason }),
                    },
                },
            },
        }
    }
}

/// What the items of `choices` decode to: the choices in the order of the
/// items, or the failure of the first item that fails.
pub open spec fn decode_choices_spec(items: Seq<JsonView>) -> Result<Seq<ChoiceView>, DecodeFault>
    decreases items.len(),
{
    if items.len() == 0 {
        Ok(Seq::empty())
    } else {
        match decode_choices_spec(items.drop_last()) {
            Err(fault) => Err(fault),
            Ok(choices) => match decode_choice_spec(items.last()) {
                Err(fault) => Err(fault),
                Ok(choice) => Ok(choices.push(choice)),
            },
        }
    }
}

/// What a JSON document decodes to as a response. It must be an object; its
/// fields are read in the order `id`, `object`, `created`, `model`,
/// `choices`, `usage`, and the first that is missing or of the wrong kind
/// decides the failure. Members under other keys are passed over.
pub open spec fn decode_response_spec(json: JsonView) -> Result<ResponseView, DecodeFault> {
    if !(json is Object) {
        Err(DecodeFault::WrongType(Field::Response))
    } else {
        match text_member(json, Field::Id) {
            Err(fault) => Err(fault),
            Ok(id) => match text_member(json, Field::Object) {
                Err(fault) => Err(fault),
                Ok(object) => match natural_member(json, Field::Created) {
                    Err(fault) => Err(fault),
                    Ok(created) => match text_member(json, Field::Model) {
                        Err(fault) => Err(fault),
                        Ok(model) => match array_member(json, Field::Choices) {
                            Err(fault) => Err(fault),
                            Ok(items) => match decode_choices_spec(items) {
                                Err(fault) => Err(fault),
                                Ok(choices) => match object_member(json, Field::Usage) {
                                    Err(fault) => Err(fault),
                                    Ok(report) => match decode_usage_spec(report) {
                                        Err(fault) => Err(fault),
                                        Ok(usage) => Ok(
                                            ResponseView {
                                                id,
                                                object,
                                                created,
                                                model,
                                                choices,
                                                usage,
                                            },
                                        ),
                                    },
                                },
                            },
                        },
                    },
                },
            },
        }
    }
}

/// What a text decodes to as a response: what the JSON document in it
/// decodes to, and a failure where the text is no JSON document.
pub open spec fn decode_text_spec(text: Seq<char>) -> Result<ResponseView, DecodeFault> {
    match parsed_json(text) {
        None => Err(DecodeFault::Malformed),
        Some(json) => decode_response_spec(json),
    }
}

/// Reads the text under the key of `field`.
fn text_field(json: &Json, field: Field) -> (outcome: Result<String, DecodeError>)
    ensures
        match outcome {
            Ok(text) => text_member(json@, field) == Ok::<Seq<char>, DecodeFault>(text@),
            Err(error) => text_member(json@, field) == Err::<Seq<char>, DecodeFault>(error@),
        },
{
    match json.get(field.name()) {
        None => Err(DecodeError::MissingField(field)),
        Some(value) => match value {
            Json::Text(text) => Ok(text.clone()),
            _ => Err(DecodeError::WrongType(field)),
        },
    }
}

/// Reads the non-negative integer under the key of `field`.
fn natural_field(json: &Json, field: Field) -> (outcome: Result<u64, DecodeError>)
    ensures
        match outcome {
            Ok(n) => natural_member(json@, field) == Ok::<u64, DecodeFault>(n),
            Err(error) => natural_member(json@, field) == Err::<u64, DecodeFault>(error@),
        },
{
    match json.get(field.name()) {
        None => Err(DecodeError::MissingField(field)),
        Some(value) => match value {
            Json::Number(Some(n)) => Ok(*n),
            _ => Err(DecodeError::WrongType(field)),
        },
    }
}

/// Finds the object under the key of `field`.
fn object_field(json: &Json, field: Field) -> (outcome: Result<&Json, DecodeError>)
    ensures
        match outcome {
            Ok(object) => object_member(json@, field) == Ok::<JsonView, DecodeFault>(object@),
            Err(error) => object_member(json@, field) == Err::<JsonView, DecodeFault>(error@),
        },
{
    match json.get(field.name()) {
        None => Err(DecodeError::MissingField(field)),
        Some(value) => match value {
            Json::Object(_) => Ok(value),
            _ => Err(DecodeError::WrongType(field)),
        },
    }
}

/// The views of a list of documents.
pub open spec fn documents_view(items: Seq<Json>) -> Seq<JsonView> {
    items.map_values(|item: Json| item@)
}

/// Finds the array under the key of `field`.
fn array_field(json: &Json, field: Field) -> (outcome: Result<&Vec<Json>, DecodeError>)
    ensures
        match outcome {
            Ok(items) => array_member(json@, field) == Ok::<Seq<JsonView>, DecodeFault>(
                documents_view(items@),
            ),
            Err(error) => array_member(json@, field) == Err::<Seq<JsonView>, DecodeFault>(error@),
        },
{
    match json.get(field.name()) {
        None => Err(DecodeError::MissingField(field)),
        Some(value) => match value {
            Json::Array(items) => {
                proof {
                    lemma_array_view(*items);
                    assert(value@->Array_0 =~= documents_view(items@));
                }
                Ok(items)
            },
            _ => Err(DecodeError::WrongType(field)),
        },
    }
}

/// Decodes the object of a message.
pub fn decode_message(json: &Json) -> (outcome: Result<Message, DecodeError>)
    ensures
        match outcome {
            Ok(message) => decode_message_spec(json@) == Ok::<MessageView, DecodeFault>(message@),
            Err(error) => decode_message_spec(json@) == Err::<MessageView, DecodeFault>(error@),
        },
{
    let name = match text_field(json, Field::Role) {
        Ok(name) => name,
        Err(error) => return Err(error),
    };
    let role = match Role::from_name(name.as_str()) {
        Some(role) => role,
        None => return Err(DecodeError::UnknownRole(name)),
    };
    let content = match text_field(json, Field::Content) {
        Ok(content) => content,
        Err(error) => return Err(error),
    };
    Ok(Message { role, content })
}

/// Decodes the object of a usage report.
pub fn decode_usage(json: &Json) -> (outcome: Result<UsageInfo, DecodeError>)
    ensures
        match outcome {
            Ok(usage) => decode_usage_spec(json@) == Ok::<UsageInfo, DecodeFault>(usage),
            Err(error) => decode_usage_spec(json@) == Err::<UsageInfo, DecodeFault>(error@),
        },
{
    let prompt_tokens = match natural_field(json, Field::PromptTokens) {
        Ok(n) => n,
        Err(error) => return Err(error),
    };
    let completion_tokens = match natural_field(json, Field::CompletionTokens) {
        Ok(n) => n,
        Err(error) => return Err(error),
    };
    let total_tokens = match natural_field(json, Field::TotalTokens) {
        Ok(n) => n,
        Err(error) => return Err(error),
    };
    Ok(UsageInfo { prompt_tokens, completion_tokens, total_tokens })
}

/// Decodes one item of `choices`.
pub fn decode_choice(json: &Json) -> (outcome: Result<Choice, DecodeError>)
    ensures
        match outcome {
            Ok(choice) => decode_choice_spec(json@) == Ok::<ChoiceView, DecodeFault>(choice@),
            Err(error) => decode_choice_spec(json@) == Err::<ChoiceView, DecodeFault>(error@),
        },
{
    match json {
        Json::Object(_) => {},
        _ => return Err(DecodeError::WrongType(Field::Choice)),
    }
    let index = match natural_field(json, Field::Index) {
        Ok(n) => n,
        Err(error) => return Err(error),
    };
    let object = match object_field(json, Field::Message) {
        Ok(object) => object,
        Err(error) => return Err(error),
    };
    let message = match decode_message(object) {
        Ok(message) => message,
        Err(error) => return Err(error),
    };
    let finish_reason = match text_field(json, Field::FinishReason) {
        Ok(text) => text,
        Err(error) => return Err(error),
    };
    Ok(Choice { index, message, finish_reason })
}

/// Decodes the items of `choices`, in their order, up to the first that
/// fails.
pub fn decode_choices(items: &Vec<Json>) -> (outcome: Result<Vec<Choice>, DecodeError>)
    ensures
        match outcome {
            Ok(choices) => decode_choices_spec(documents_view(items@)) == Ok::<
                Seq<ChoiceView>,
                DecodeFault,
            >(choices_view(choices@)),
            Err(error) => decode_choices_spec(documents_view(items@)) == Err::<
                Seq<ChoiceView>,
                DecodeFault,
            >(error@),
        },
{
    let ghost all = documents_view(items@);
    let mut choices: Vec<Choice> = Vec::new();
    let mut i: usize = 0;
    assert(choices_view(choices@) =~= Seq::<ChoiceView>::empty());
    while i < items.len()
        invariant
            i <= items.len(),
            all == documents_view(items@),
            decode_choices_spec(all.take(i as int)) == Ok::<Seq<ChoiceView>, DecodeFault>(
                choices_view(choices@),
            ),
        decreases items.len() - i,
    {
        proof {
            assert(all.take(i + 1).drop_last() =~= all.take(i as int));
            assert(all.take(i + 1).last() == items@[i as int]@);
        }
        match decode_choice(&items[i]) {
            Ok(choice) => {
                let ghost before = choices_view(choices@);
                choices.push(choice);
                assert(choices_view(choices@) =~= before.push(choice@));
            },
            Err(error) => {
                proof {
                    lemma_choices_fail_at(all, i as int);
                }
                return Err(error);
            },
        }
        i = i + 1;
    }
    assert(all.take(items@.len() as int) =~= all);
    Ok(choices)
}

/// Where the items before `at` decode and the item at `at` fails, the whole
/// list fails as that item does.
pub proof fn lemma_choices_fail_at(items: Seq<JsonView>, at: int)
    requires
        0 <= at < items.len(),
        decode_choices_spec(items.take(at)) is Ok,
        decode_choice_spec(items[at]) is Err,
    ensures
        decode_choices_spec(items) == Err::<Seq<ChoiceView>, DecodeFault>(
            decode_choice_spec(items[at])->Err_0,
        ),
    decreases items.len() - at,
{
    let upto = items.take(at + 1);
    assert(upto.drop_last() =~= items.take(at));
    assert(upto.last() == items[at]);
    lemma_choices_fail_from(items, at + 1);
}

/// A failure among the first `upto` items stays the failure of the whole
/// list.
pub proof fn lemma_choices_fail_from(items: Seq<JsonView>, upto: int)
    requires
        0 <= upto <= items.len(),
        decode_choices_spec(items.take(upto)) is Err,
    ensures
        decode_choices_spec(items) == decode_choices_spec(items.take(upto)),
    decreases items.len() - upto,
{
    if upto == items.len() {
        assert(items.take(upto) =~= items);
    } else {
        assert(items.take(upto + 1).drop_last() =~= items.take(upto));
        lemma_choices_fail_from(items, upto + 1);
    }
}

/// Decodes a JSON document as a response.
pub fn decode_json(json: &Json) -> (outcome: Result<SuccessfullConversationResponse, DecodeError>)
    ensures
        match outcome {
            Ok(response) => decode_response_spec(json@) == Ok::<ResponseView, DecodeFault>(
                response@,
            ),
            Err(error) => decode_response_spec(json@) == Err::<ResponseView, DecodeFault>(error@),
        },
{
    match json {
        Json::Object(_) => {},
        _ => return Err(DecodeError::WrongType(Field::Response)),
    }
    let id = match text_field(json, Field::Id) {
        Ok(text) => text,
        Err(error) => return Err(error),
    };
    let object = match text_field(json, Field::Object) {
        Ok(text) => text,
        Err(error) => return Err(error),
    };
    let created = match natural_field(json, Field::Created) {
        Ok(n) => n,
        Err(error) => return Err(error),
    };
    let model = match text_field(json, Field::Model) {
        Ok(text) => text,
        Err(error) => return Err(error),
    };
    let items = match array_field(json, Field::Choices) {
        Ok(items) => items,
        Err(error) => return Err(error),
    };
    let choices = match decode_choices(items) {
        Ok(choices) => choices,
        Err(error) => return Err(error),
    };
    let report = match object_field(json, Field::Usage) {
        Ok(report) => report,
        Err(error) => return Err(error),
    };
    let usage = match decode_usage(report) {
        Ok(usage) => usage,
        Err(error) => return Err(error),
    };
    Ok(SuccessfullConversationResponse { id, object, created, model, choices, usage })
}

/// Decodes the text of an answer as a response. A text that is no JSON
/// document fails with the parser's report; a document of another shape
/// fails with the field that is missing or of the wrong kind.
pub fn decode(raw_text: &str) -> (outcome: Result<SuccessfullConversationResponse, DecodeError>)
    ensures
        match outcome {
            Ok(response) => decode_text_spec(raw_text@) == Ok::<ResponseView, DecodeFault>(
                response@,
            ),
            Err(error) => decode_text_spec(raw_text@) == Err::<ResponseView, DecodeFault>(error@),
        },
{
    match parse_json(raw_text) {
        Ok(json) => decode_json(&json),
        Err(report) => Err(DecodeError::Malformed(report)),
    }
}

/// The JSON object of a message: its role by its wire name, then its
/// content.
pub open spec fn message_json(message: MessageView) -> JsonView {
    JsonView::Object(
        seq![
            ("role"@, JsonView::Text(message.role.wire_name())),
            ("content"@, JsonView::Text(message.content)),
        ],
    )
}

/// The JSON object of a usage report.
pub open spec fn usage_json(usage: UsageInfo) -> JsonView {
    JsonView::Object(
        seq![
            ("prompt_tokens"@, JsonView::Number(Some(usage.prompt_tokens))),
            ("completion_tokens"@, JsonView::Number(Some(usage.completion_tokens))),
            ("total_tokens"@, JsonView::Number(Some(usage.total_tokens))),
        ],
    )
}

/// The JSON object of a choice.
pub open spec fn choice_json(choice: ChoiceView) -> JsonView {
    JsonView::Object(
        seq![
            ("index"@, JsonView::Number(Some(choice.index))),
            ("message"@, message_json(choice.message)),
            ("finish_reason"@, JsonView::Text(choice.finish_reason)),
        ],
    )
}

/// The JSON objects of a list of choices, in its order.
pub open spec fn choices_json(choices: Seq<ChoiceView>) -> Seq<JsonView> {
    choices.map_values(|choice: ChoiceView| choice_json(choice))
}

/// The JSON object of a response, in the shape in which the backend sends
/// one.
pub open spec fn response_json(response: ResponseView) -> JsonView {
    JsonView::Object(
        seq![
            ("id"@, JsonView::Text(response.id)),
            ("object"@, JsonView::Text(response.object)),
            ("created"@, JsonView::Number(Some(response.created))),
            ("model"@, JsonView::Text(response.model)),
            ("choices"@, JsonView::Array(choices_json(response.choices))),
            ("usage"@, usage_json(response.usage)),
        ],
    )
}

/// Decoding the JSON object of a message gives the message back.
pub proof fn lemma_decode_message_json(message: MessageView)
    ensures
        decode_message_spec(message_json(message)) == Ok::<MessageView, DecodeFault>(message),
{
    reveal_strlit("role");
    reveal_strlit("content");
    let members = message_json(message)->Object_0;
    assert("role"@.len() != "content"@.len());
    lemma_member_at(members, "role"@, 0);
    lemma_member_at(members, "content"@, 1);
    message.role.lemma_wire_name_round_trip();
}

/// Decoding the JSON object of a usage report gives the report back.
pub proof fn lemma_decode_usage_json(usage: UsageInfo)
    ensures
        decode_usage_spec(usage_json(usage)) == Ok::<UsageInfo, DecodeFault>(usage),
{
    reveal_strlit("prompt_tokens");
    reveal_strlit("completion_tokens");
    reveal_strlit("total_tokens");
    let members = usage_json(usage)->Object_0;
    assert("prompt_tokens"@.len() == 13);
    assert("completion_tokens"@.len() == 17);
    assert("total_tokens"@.len() == 12);
    lemma_member_at(members, "prompt_tokens"@, 0);
    lemma_member_at(members, "completion_tokens"@, 1);
    lemma_member_at(members, "total_tokens"@, 2);
}

/// Decoding the JSON object of a choice gives the choice back.
pub proof fn lemma_decode_choice_json(choice: ChoiceView)
    ensures
        decode_choice_spec(choice_json(choice)) == Ok::<ChoiceView, DecodeFault>(choice),
{
    reveal_strlit("index");
    reveal_strlit("message");
    reveal_strlit("finish_reason");
    let members = choice_json(choice)->Object_0;
    assert("index"@.len() == 5);
    assert("message"@.len() == 7);
    assert("finish_reason"@.len() == 13);
    lemma_member_at(members, "index"@, 0);
    lemma_member_at(members, "message"@, 1);
    lemma_member_at(members, "finish_reason"@, 2);
    lemma_decode_message_json(choice.message);
}

/// Decoding the JSON objects of a list of choices gives the list back, in
/// its order.
pub proof fn lemma_decode_choices_json(choices: Seq<ChoiceView>)
    ensures
        decode_choices_spec(choices_json(choices)) == Ok::<Seq<ChoiceView>, DecodeFault>(choices),
    decreases choices.len(),
{
    let items = choices_json(choices);
    if choices.len() == 0 {
        assert(choices =~= Seq::<ChoiceView>::empty());
    } else {
        assert(items.drop_last() =~= choices_json(choices.drop_last()));
        lemma_decode_choices_json(choices.drop_last());
        lemma_decode_choice_json(choices.last());
        assert(choices.drop_last().push(choices.last()) =~= choices);
    }
}

/// Decoding the JSON object of a response gives the response back: every
/// scalar field, and the choices in their order.
pub proof fn lemma_decode_response_json(response: ResponseView)
    ensures
        decode_response_spec(response_json(response)) == Ok::<ResponseView, DecodeFault>(response),
{
    reveal_strlit("id");
    reveal_strlit("object");
    reveal_strlit("created");
    reveal_strlit("model");
    reveal_strlit("choices");
    reveal_strlit("usage");
    let members = response_json(response)->Object_0;
    assert("id"@.len() == 2);
    assert("object"@.len() == 6);
    assert("created"@.len() == 7);
    assert("model"@.len() == 5);
    assert("choices"@.len() == 7);
    assert("usage"@.len() == 5);
    assert("created"@[1] == 'r' && "choices"@[1] == 'h');
    assert("model"@[0] == 'm' && "usage"@[0] == 'u');
    lemma_member_at(members, "id"@, 0);
    lemma_member_at(members, "object"@, 1);
    lemma_member_at(members, "created"@, 2);
    lemma_member_at(members, "model"@, 3);
    lemma_member_at(members, "choices"@, 4);
    lemma_member_at(members, "usage"@, 5);
    lemma_decode_choices_json(response.choices);
    lemma_decode_usage_json(response.usage);
}

/// The choices that decode are as many as the items, and each is what its
/// item decodes to: nothing is dropped and nothing changes place.
pub proof fn lemma_decoded_choices_in_order(items: Seq<JsonView>)
    requires
        decode_choices_spec(items) is Ok,
    ensures
        decode_choices_spec(items)->Ok_0.len() == items.len(),
        forall|i: int|
            0 <= i < items.len() ==> decode_choice_spec(#[trigger] items[i]) == Ok::<
                ChoiceView,
                DecodeFault,
            >(decode_choices_spec(items)->Ok_0[i]),
    decreases items.len(),
{
    if items.len() > 0 {
        lemma_decoded_choices_in_order(items.drop_last());
        let front = decode_choices_spec(items.drop_last())->Ok_0;
        assert forall|i: int| 0 <= i < items.len() implies decode_choice_spec(
            #[trigger] items[i],
        ) == Ok::<ChoiceView, DecodeFault>(decode_choices_spec(items)->Ok_0[i]) by {
            if i < items.len() - 1 {
                assert(items.drop_last()[i] == items[i]);
            }
        }
    }
}

/// A document without the member `choices` does not decode.
pub proof fn lemma_missing_choices_fails(json: JsonView)
    requires
        json.get("choices"@) is None,
    ensures
        decode_response_spec(json) is Err,
        text_member(json, Field::Id) is Ok && text_member(json, Field::Object) is Ok
            && natural_member(json, Field::Created) is Ok && text_member(json, Field::Model)
            is Ok ==> decode_response_spec(json) == Err::<ResponseView, DecodeFault>(
            DecodeFault::MissingField(Field::Choices),
        ),
{
}

/// A text whose document has no member `choices`, and a text that is no
/// document, do not decode.
pub proof fn lemma_text_without_choices_fails(text: Seq<char>)
    requires
        parsed_json(text) matches Some(json) ==> json.get("choices"@) is None,
    ensures
        decode_text_spec(text) is Err,
{
    if parsed_json(text) is Some {
        lemma_missing_choices_fails(parsed_json(text)->Some_0);
    }
}

/// A response with no choices decodes, to a response with no choices.
pub proof fn lemma_no_choices_decodes(response: ResponseView)
    requires
        response.choices.len() == 0,
    ensures
        decode_response_spec(response_json(response)) matches Ok(decoded) && decoded.choices.len()
            == 0,
{
    lemma_decode_response_json(response);
}

} // verus!
