use ask::openai::request::{
    command_messages, encode_message, frame_message, frame_request, join, question_messages,
    resolve_model, resolve_temperature, CLI_ASKING_PREMESSAGE, DEFAULT_MODEL,
    OPENAI_COMPLETIONS_URL,
};
use ask::openai::{
    build_request, encode_request, prepare, ConversationRequest, Message, Model, Role, Temperature,
};

fn message(role: Role, content: &str) -> Message {
    Message { role, content: content.to_string() }
}

fn literal(text: &str) -> Temperature {
    Temperature::from_literal(text).unwrap()
}

#[test]
fn a_request_without_choices_has_the_defaults() {
    let request = build_request(None, None, vec![message(Role::User, "hi")]);
    assert!(request.model() == Model::Gpt3_5Turbo);
    assert!(request.model() == DEFAULT_MODEL);
    assert_eq!(request.temperature().literal(), "0.7");
    assert_eq!(request.temperature().literal().parse::<f64>(), Ok(0.7));
}

#[test]
fn a_request_has_what_the_caller_chose() {
    let request = build_request(
        Some(Model::Gpt3_5Turbo),
        Some(literal("1.25")),
        vec![message(Role::User, "hi")],
    );
    assert!(request.model() == Model::Gpt3_5Turbo);
    assert_eq!(request.temperature().literal(), "1.25");
}

#[test]
fn a_request_keeps_the_messages_and_their_order() {
    let messages = vec![
        message(Role::System, "be brief"),
        message(Role::User, "first"),
        message(Role::Assistant, "second"),
        message(Role::User, "first"),
        message(Role::User, ""),
    ];
    let request = build_request(None, Some(literal("0")), messages.clone());
    assert_eq!(request.messages(), &messages);
}

#[test]
fn the_same_request_comes_from_the_constructor() {
    let messages = vec![message(Role::User, "hi")];
    let request = ConversationRequest::new(Model::Gpt3_5Turbo, literal("2"), messages.clone());
    assert!(request.model() == Model::Gpt3_5Turbo);
    assert_eq!(request.temperature().literal(), "2");
    assert_eq!(request.messages(), &messages);
}

#[test]
fn defaults_are_resolved_one_by_one() {
    assert!(resolve_model(None) == Model::Gpt3_5Turbo);
    assert!(resolve_model(Some(Model::Gpt3_5Turbo)) == Model::Gpt3_5Turbo);
    assert_eq!(resolve_temperature(None).literal(), "0.7");
    assert_eq!(resolve_temperature(Some(literal("1e-3"))).literal(), "1e-3");
}

#[test]
fn a_question_is_one_message_of_the_user() {
    assert_eq!(question_messages("why?".to_string()), vec![message(Role::User, "why?")]);
    assert_eq!(question_messages(String::new()), vec![message(Role::User, "")]);
}

#[test]
fn a_command_request_is_the_instruction_and_then_the_task() {
    let messages = command_messages("list the files".to_string());
    assert_eq!(messages.len(), 2);
    assert_eq!(messages[0], message(Role::System, CLI_ASKING_PREMESSAGE));
    assert_eq!(messages[1], message(Role::User, "list the files"));
}

#[test]
fn the_instruction_asks_for_one_line_and_no_commentary() {
    assert!(CLI_ASKING_PREMESSAGE.starts_with("You are the console application"));
    assert!(CLI_ASKING_PREMESSAGE.contains("just with one line of script"));
    assert!(CLI_ASKING_PREMESSAGE.contains("DO NOT add some sort of comments"));
    assert!(CLI_ASKING_PREMESSAGE.ends_with("Just the described script."));
    assert_eq!(CLI_ASKING_PREMESSAGE.len(), 320);
}

#[test]
fn a_message_is_framed_as_an_object_of_role_and_content() {
    assert_eq!(frame_message("\"user\"", "\"hi\""), "{\"role\":\"user\",\"content\":\"hi\"}");
    assert_eq!(frame_message("", ""), "{\"role\":,\"content\":}");
    assert_eq!(frame_message("a", "b"), "{\"role\":a,\"content\":b}");
}

#[test]
fn texts_are_joined_by_commas() {
    assert_eq!(join(&vec![]), "");
    assert_eq!(join(&vec!["a".to_string()]), "a");
    assert_eq!(join(&vec!["a".to_string(), "b".to_string()]), "a,b");
    assert_eq!(join(&vec!["".to_string(), "".to_string(), "c".to_string()]), ",,c");
}

#[test]
fn a_request_is_framed_as_an_object_of_model_messages_and_temperature() {
    assert_eq!(
        frame_request("\"m\"", &vec!["{}".to_string(), "{}".to_string()], "0.7"),
        "{\"model\":\"m\",\"messages\":[{},{}],\"temperature\":0.7}"
    );
    assert_eq!(frame_request("M", &vec![], "T"), "{\"model\":M,\"messages\":[],\"temperature\":T}");
}

#[test]
fn a_message_is_written_with_its_role_by_name() {
    assert_eq!(
        encode_message(&message(Role::Assistant, "hello")),
        "{\"role\":\"assistant\",\"content\":\"hello\"}"
    );
    assert_eq!(
        encode_message(&message(Role::System, "")),
        "{\"role\":\"system\",\"content\":\"\"}"
    );
}

#[test]
fn what_json_reserves_is_escaped_in_a_content() {
    assert_eq!(
        encode_message(&message(Role::User, "say \"hi\"\\\n\tnow\u{1}")),
        "{\"role\":\"user\",\"content\":\"say \\\"hi\\\"\\\\\\n\\tnow\\u0001\"}"
    );
    assert_eq!(
        encode_message(&message(Role::User, "ünï/cødé 日本 🙂")),
        "{\"role\":\"user\",\"content\":\"ünï/cødé 日本 🙂\"}"
    );
}

#[test]
fn a_request_is_written_as_the_body_that_the_backend_expects() {
    let request = build_request(None, None, vec![message(Role::User, "hi")]);
    assert_eq!(
        encode_request(&request),
        "{\"model\":\"gpt-3.5-turbo\",\"messages\":[{\"role\":\"user\",\"content\":\"hi\"}],\"temperature\":0.7}"
    );
}

#[test]
fn a_body_holds_every_message_in_order() {
    let request = build_request(
        Some(Model::Gpt3_5Turbo),
        Some(literal("1.5e0")),
        vec![message(Role::System, "s"), message(Role::User, "u"), message(Role::Assistant, "a")],
    );
    assert_eq!(
        encode_request(&request),
        "{\"model\":\"gpt-3.5-turbo\",\"messages\":[{\"role\":\"system\",\"content\":\"s\"},{\"role\":\"user\",\"content\":\"u\"},{\"role\":\"assistant\",\"content\":\"a\"}],\"temperature\":1.5e0}"
    );
}

#[test]
fn a_body_reads_back_as_json_with_the_same_fields() {
    let content = "a \"quoted\" line\nwith {braces}, [brackets] and a \\ backslash";
    let request = build_request(
        None,
        Some(literal("0.25")),
        vec![message(Role::System, "x"), message(Role::User, content)],
    );
    let body = encode_request(&request);
    let value: serde_json::Value = serde_json::from_str(&body).unwrap();
    let object = value.as_object().unwrap();
    assert_eq!(object.len(), 3);
    assert_eq!(value["model"].as_str(), Some("gpt-3.5-turbo"));
    assert_eq!(value["temperature"].as_f64(), Some(0.25));
    let messages = value["messages"].as_array().unwrap();
    assert_eq!(messages.len(), 2);
    assert_eq!(messages[0]["role"].as_str(), Some("system"));
    assert_eq!(messages[0]["content"].as_str(), Some("x"));
    assert_eq!(messages[1]["role"].as_str(), Some("user"));
    assert_eq!(messages[1]["content"].as_str(), Some(content));
    assert_eq!(messages[1].as_object().unwrap().len(), 2);
}

#[test]
fn the_call_goes_to_the_endpoint_with_the_key_and_the_body() {
    let request = build_request(None, None, vec![message(Role::User, "hi")]);
    let post = prepare("sk-test".to_string(), &request);
    assert_eq!(post.url, "https://api.openai.com/v1/chat/completions");
    assert_eq!(post.url, OPENAI_COMPLETIONS_URL);
    assert_eq!(post.bearer_token, "sk-test");
    assert_eq!(post.body, encode_request(&request));
}
