use ask::openai::{Message, Role};

#[test]
fn each_role_has_its_lower_case_name() {
    assert_eq!(Role::User.name(), "user");
    assert_eq!(Role::System.name(), "system");
    assert_eq!(Role::Assistant.name(), "assistant");
}

#[test]
fn a_role_is_read_back_from_its_name() {
    for role in [Role::User, Role::System, Role::Assistant] {
        assert_eq!(Role::from_name(role.name()), Some(role));
    }
}

#[test]
fn a_role_name_is_matched_exactly() {
    for name in ["", "User", "USER", "user ", " user", "users", "bot", "assistant\n", "sys"] {
        assert_eq!(Role::from_name(name), None, "{name:?}");
    }
}

#[test]
fn a_message_is_plain_data() {
    let message = Message { role: Role::Assistant, content: "hello".to_string() };
    let copy = message.clone();
    assert_eq!(copy, message);
    assert_eq!(copy.role, Role::Assistant);
    assert_eq!(copy.content, "hello");
}
