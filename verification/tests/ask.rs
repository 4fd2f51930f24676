use ask::openai::request::CLI_ASKING_PREMESSAGE;
use ask::openai::{
    ask_sync, conclude, exchange, build_request, AskError, DecodeError, Field, HttpPost, Message,
    Model, Role, Temperature, TransportError,
};
use ask::{ask_cli, ask_question_sync};
use std::cell::{Cell, RefCell};

const HELLO: &str = "{\"id\":\"1\",\"object\":\"chat.completion\",\"created\":0,\"model\":\"gpt-3.5-turbo\",\"choices\":[{\"index\":0,\"message\":{\"role\":\"assistant\",\"content\":\"hello\"},\"finish_reason\":\"stop\"}],\"usage\":{\"prompt_tokens\":1,\"completion_tokens\":1,\"total_tokens\":2}}";

fn refused() -> TransportError {
    TransportError { cause: "connection refused".to_string() }
}

#[test]
fn an_answer_of_the_transport_comes_back_decoded() {
    let calls = Cell::new(0);
    let answer = ask_sync(
        "sk-test".to_string(),
        Model::Gpt3_5Turbo,
        Temperature::default(),
        vec![Message { role: Role::User, content: "hi".to_string() }],
        |_post: HttpPost| {
            calls.set(calls.get() + 1);
            Ok(HELLO.to_string())
        },
    );
    let response = answer.expect("the answer decodes");
    assert_eq!(response.choices[0].message.content, "hello");
    assert_eq!(calls.get(), 1);
}

#[test]
fn a_failure_of_the_transport_is_a_request_error_and_is_not_tried_again() {
    let calls = Cell::new(0);
    let answer = ask_sync(
        "sk-test".to_string(),
        Model::Gpt3_5Turbo,
        Temperature::default(),
        vec![Message { role: Role::User, content: "hi".to_string() }],
        |_post: HttpPost| {
            calls.set(calls.get() + 1);
            Err(refused())
        },
    );
    match answer {
        Err(AskError::RequestError(error)) => assert_eq!(error, refused()),
        other => panic!("{other:?}"),
    }
    assert_eq!(calls.get(), 1);
}

#[test]
fn an_answer_that_does_not_decode_is_a_parsing_error_and_is_not_tried_again() {
    let calls = Cell::new(0);
    let answer = ask_question_sync(
        "sk-test".to_string(),
        None,
        "hi".to_string(),
        None,
        |_post: HttpPost| {
            calls.set(calls.get() + 1);
            Ok("{\"error\":{\"message\":\"You exceeded your current quota\"}}".to_string())
        },
    );
    assert!(matches!(
        answer,
        Err(AskError::ParsingError(DecodeError::MissingField(Field::Id)))
    ));
    assert_eq!(calls.get(), 1);
}

#[test]
fn the_transport_gets_the_call_that_carries_the_request() {
    let seen = RefCell::new(Vec::new());
    let _ = ask_sync(
        "sk-secret".to_string(),
        Model::Gpt3_5Turbo,
        Temperature::from_literal("1.5").unwrap(),
        vec![
            Message { role: Role::System, content: "be brief".to_string() },
            Message { role: Role::User, content: "why?".to_string() },
        ],
        |post: HttpPost| {
            seen.borrow_mut().push(post);
            Err(refused())
        },
    );
    assert_eq!(
        seen.into_inner(),
        vec![HttpPost {
            url: "https://api.openai.com/v1/chat/completions".to_string(),
            bearer_token: "sk-secret".to_string(),
            body: "{\"model\":\"gpt-3.5-turbo\",\"messages\":[{\"role\":\"system\",\"content\":\"be brief\"},{\"role\":\"user\",\"content\":\"why?\"}],\"temperature\":1.5}".to_string(),
        }]
    );
}

#[test]
fn a_question_goes_out_as_one_message_with_the_defaults() {
    let seen = RefCell::new(Vec::new());
    let answer = ask_question_sync(
        "k".to_string(),
        None,
        "what is \"rust\"?".to_string(),
        None,
        |post: HttpPost| {
            seen.borrow_mut().push(post);
            Ok(HELLO.to_string())
        },
    );
    assert_eq!(answer.unwrap().choices[0].message.content, "hello");
    let seen = seen.into_inner();
    assert_eq!(seen.len(), 1);
    assert_eq!(seen[0].url, "https://api.openai.com/v1/chat/completions");
    assert_eq!(seen[0].bearer_token, "k");
    assert_eq!(
        seen[0].body,
        "{\"model\":\"gpt-3.5-turbo\",\"messages\":[{\"role\":\"user\",\"content\":\"what is \\\"rust\\\"?\"}],\"temperature\":0.7}"
    );
}

#[test]
fn a_question_goes_out_with_what_the_caller_chose() {
    let seen = RefCell::new(Vec::new());
    let _ = ask_question_sync(
        "k".to_string(),
        Some(Model::Gpt3_5Turbo),
        "q".to_string(),
        Temperature::from_literal("0"),
        |post: HttpPost| {
            seen.borrow_mut().push(post);
            Err(refused())
        },
    );
    assert_eq!(
        seen.into_inner()[0].body,
        "{\"model\":\"gpt-3.5-turbo\",\"messages\":[{\"role\":\"user\",\"content\":\"q\"}],\"temperature\":0}"
    );
}

#[test]
fn a_command_request_goes_out_as_the_instruction_and_the_task() {
    let seen = RefCell::new(Vec::new());
    let answer = ask_cli(
        "k".to_string(),
        None,
        "list the files".to_string(),
        None,
        |post: HttpPost| {
            seen.borrow_mut().push(post);
            Ok(HELLO.to_string())
        },
    );
    assert!(answer.is_ok());
    let seen = seen.into_inner();
    assert_eq!(seen.len(), 1);
    let body: serde_json::Value = serde_json::from_str(&seen[0].body).unwrap();
    let messages = body["messages"].as_array().unwrap();
    assert_eq!(messages.len(), 2);
    assert_eq!(messages[0]["role"].as_str(), Some("system"));
    assert_eq!(messages[0]["content"].as_str(), Some(CLI_ASKING_PREMESSAGE));
    assert_eq!(messages[1]["role"].as_str(), Some("user"));
    assert_eq!(messages[1]["content"].as_str(), Some("list the files"));
    assert_eq!(body["model"].as_str(), Some("gpt-3.5-turbo"));
    assert_eq!(body["temperature"].as_f64(), Some(0.7));
    assert_eq!(
        seen[0].body,
        format!(
            "{{\"model\":\"gpt-3.5-turbo\",\"messages\":[{{\"role\":\"system\",\"content\":\"{CLI_ASKING_PREMESSAGE}\"}},{{\"role\":\"user\",\"content\":\"list the files\"}}],\"temperature\":0.7}}"
        )
    );
}

#[test]
fn an_exchange_uses_the_transport_once() {
    let calls = Cell::new(0);
    let request = build_request(
        None,
        None,
        vec![Message { role: Role::User, content: "hi".to_string() }],
    );
    let answer = exchange("k".to_string(), &request, |_post: HttpPost| {
        calls.set(calls.get() + 1);
        Ok("[]".to_string())
    });
    assert!(matches!(
        answer,
        Err(AskError::ParsingError(DecodeError::WrongType(Field::Response)))
    ));
    assert_eq!(calls.get(), 1);
}

#[test]
fn the_outcome_of_an_exchange_is_classified() {
    assert_eq!(conclude(Ok(HELLO.to_string())).unwrap().choices[0].message.content, "hello");
    assert!(matches!(
        conclude(Err(refused())),
        Err(AskError::RequestError(error)) if error.cause == "connection refused"
    ));
    assert!(matches!(
        conclude(Ok("oops".to_string())),
        Err(AskError::ParsingError(DecodeError::Malformed(_)))
    ));
    assert!(matches!(
        conclude(Ok("{}".to_string())),
        Err(AskError::ParsingError(DecodeError::MissingField(Field::Id)))
    ));
}

#[test]
fn a_failure_has_its_message() {
    assert_eq!(AskError::RequestError(refused()).message(), "connection refused");
    assert_eq!(AskError::WrongApiKey.message(), "<default error>");
    assert_eq!(AskError::NotEnoughtCredit.message(), "<default error>");
    assert_eq!(
        AskError::ParsingError(DecodeError::MissingField(Field::Choices)).message(),
        "missing field `choices`"
    );
    match conclude(Ok("{".to_string())) {
        Err(error) => {
            assert_eq!(error.message(), "EOF while parsing an object at line 1 column 1")
        }
        Ok(_) => panic!("no JSON must not decode"),
    }
}
