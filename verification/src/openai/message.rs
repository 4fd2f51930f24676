//! The speakers of a conversation and what they say.

use crate::text::same_text;
use vstd::prelude::*;

verus! {

/// Who speaks in a message.
#[derive(Clone, Copy, Debug, PartialEq, Eq, Structural)]
pub enum Role {
    User,
    System,
    Assistant,
}

impl Role {
    /// The text that stands for the role on the wire.
    pub open spec fn wire_name(self) -> Seq<char> {
        match self {
            Role::User => "user"@,
            Role::System => "system"@,
            Role::Assistant => "assistant"@,
        }
    }

    /// The role that a text on the wire stands for, if it is one of the
    /// three.
    pub open spec fn of_wire_name(text: Seq<char>) -> Option<Role> {
        if text == "user"@ {
            Some(Role::User)
        } else if text == "system"@ {
            Some(Role::System)
        } else if text == "assistant"@ {
            Some(Role::Assistant)
        } else {
            None
        }
    }

    /// Reading a role's wire name gives the role back.
    pub proof fn lemma_wire_name_round_trip(self)
        ensures
            Role::of_wire_name(self.wire_name()) == Some(self),
    {
        reveal_strlit("user");
        reveal_strlit("system");
        reveal_strlit("assistant");
        assert("user"@.len() == 4);
        assert("system"@.len() == 6);
        assert("assistant"@.len() == 9);
    }

    /// A text that reads as a role is that role's wire name.
    pub proof fn lemma_of_wire_name_exact(text: Seq<char>, role: Role)
        requires
            Role::of_wire_name(text) == Some(role),
        ensures
            text == role.wire_name(),
    {
    }

    /// The text that stands for the role on the wire.
    pub fn name(&self) -> (name: &'static str)
        ensures
            name@ == self.wire_name(),
    {
        match self {
            Role::User => "user",
            Role::System => "system",
            Role::Assistant => "assistant",
        }
    }

    /// Reads a role from its text on the wire. The match is exact: any other
    /// text, in whatever case, is no role.
    pub fn from_name(text: &str) -> (found: Option<Role>)
        ensures
            found == Role::of_wire_name(text@),
    {
        if same_text(text, "user") {
            Some(Role::User)
        } else if same_text(text, "system") {
            Some(Role::System)
        } else if same_text(text, "assistant") {
            Some(Role::Assistant)
        } else {
            None
        }
    }
}

/// One message of a conversation.
#[derive(Clone, Debug, PartialEq, Eq)]
pub struct Message {
    pub role: Role,
    pub content: String,
}

/// The mathematical value of a [`Message`].
pub ghost struct MessageView {
    pub role: Role,
    pub content: Seq<char>,
}

impl View for Message {
    type V = MessageView;

    open spec fn view(&self) -> MessageView {
        MessageView { role: self.role, content: self.content@ }
    }
}

/// The values of a list of messages, in its order.
pub open spec fn messages_view(messages: Seq<Message>) -> Seq<MessageView> {
    messages.map_values(|m: Message| m@)
}

} // verus!
