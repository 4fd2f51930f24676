//! What can go wrong between sending a request and holding its answer.

use crate::json::diagnostic;
use vstd::prelude::*;
use vstd::string::StringExecFns;

verus! {

/// A place in a response that the decoder reads.
#[derive(Clone, Copy, Debug, PartialEq, Eq, Structural)]
pub enum Field {
    /// The response as a whole.
    Response,
    Id,
    Object,
    Created,
    Model,
    Choices,
    /// One item of `choices`.
    Choice,
    Index,
    Message,
    Role,
    Content,
    FinishReason,
    Usage,
    PromptTokens,
    CompletionTokens,
    TotalTokens,
}

impl Field {
    /// The key of the field in its JSON object. The response as a whole and
    /// an item of `choices` have no key; they are called by what they are.
    pub open spec fn key(self) -> Seq<char> {
        match self {
            Field::Response => "response"@,
            Field::Id => "id"@,
            Field::Object => "object"@,
            Field::Created => "created"@,
            Field::Model => "model"@,
            Field::Choices => "choices"@,
            Field::Choice => "choice"@,
            Field::Index => "index"@,
            Field::Message => "message"@,
            Field::Role => "role"@,
            Field::Content => "content"@,
            Field::FinishReason => "finish_reason"@,
            Field::Usage => "usage"@,
            Field::PromptTokens => "prompt_tokens"@,
            Field::CompletionTokens => "completion_tokens"@,
            Field::TotalTokens => "total_tokens"@,
        }
    }

    /// The key of the field in its JSON object.
    pub fn name(&self) -> (name: &'static str)
        ensures
            name@ == self.key(),
    {
        match self {
            Field::Response => "response",
            Field::Id => "id",
            Field::Object => "object",
            Field::Created => "created",
            Field::Model => "model",
            Field::Choices => "choices",
            Field::Choice => "choice",
            Field::Index => "index",
            Field::Message => "message",
            Field::Role => "role",
            Field::Content => "content",
            Field::FinishReason => "finish_reason",
            Field::Usage => "usage",
            Field::PromptTokens => "prompt_tokens",
            Field::CompletionTokens => "completion_tokens",
            Field::TotalTokens => "total_tokens",
        }
    }
}

/// Why a text could not be decoded as a response.
#[derive(Debug)]
pub enum DecodeError {
    /// The text is not JSON. This carries the parser's own report.
    Malformed(serde_json::Error),
    /// A field that the response must have is not there.
    MissingField(Field),
    /// A field is there and holds a value of another kind than it must.
    WrongType(Field),
    /// A message names a role that is none of the three. This carries the
    /// name.
    UnknownRole(String),
}

/// The mathematical value of a [`DecodeError`]. Of a parser's report it
/// keeps only that there was one.
pub ghost enum DecodeFault {
    Malformed,
    MissingField(Field),
    WrongType(Field),
    UnknownRole(Seq<char>),
}

impl View for DecodeError {
    type V = DecodeFault;

    open spec fn view(&self) -> DecodeFault {
        match self {
            DecodeError::Malformed(_) => DecodeFault::Malformed,
            DecodeError::MissingField(field) => DecodeFault::MissingField(*field),
            DecodeError::WrongType(field) => DecodeFault::WrongType(*field),
            DecodeError::UnknownRole(name) => DecodeFault::UnknownRole(name@),
        }
    }
}

impl DecodeFault {
    /// The message of a failure that the decoder itself found. The message
    /// of a parser's report is the parser's.
    pub open spec fn message(self) -> Seq<char> {
        match self {
            DecodeFault::Malformed => Seq::empty(),
            DecodeFault::MissingField(field) => "missing field `"@ + field.key() + "`"@,
            DecodeFault::WrongType(field) => "invalid type for `"@ + field.key() + "`"@,
            DecodeFault::UnknownRole(name) => "unknown variant `"@ + name
                + "`, expected one of `user`, `system`, `assistant`"@,
        }
    }
}

impl DecodeError {
    /// The failure in words.
    pub fn message(&self) -> (message: String)
        ensures
            !(self@ is Malformed) ==> message@ == self@.message(),
    {
        match self {
            DecodeError::Malformed(report) => diagnostic(report),
            DecodeError::MissingField(field) => {
                let mut message = String::new();
                message.append("missing field `");
                message.append(field.name());
                message.append("`");
                assert(message@ =~= self@.message());
                message
            },
            DecodeError::WrongType(field) => {
                let mut message = String::new();
                message.append("invalid type for `");
                message.append(field.name());
                message.append("`");
                assert(message@ =~= self@.message());
                message
            },
            DecodeError::UnknownRole(name) => {
                let mut message = String::new();
                message.append("unknown variant `");
                message.append(name.as_str());
                message.append("`, expected one of `user`, `system`, `assistant`");
                assert(message@ =~= self@.message());
                message
            },
        }
    }
}

/// A failure of the HTTP exchange itself, with its cause in words.
#[derive(Clone, Debug, PartialEq, Eq)]
pub struct TransportError {
    pub cause: String,
}

/// Why a question got no answer.
#[derive(Debug)]
pub enum AskError {
    /// The HTTP exchange failed.
    RequestError(TransportError),
    /// The backend refused the key. Nothing in this library tells such a
    /// refusal from another answer yet, so nothing returns this.
    WrongApiKey,
    /// The backend refused for want of credit. Nothing returns this yet
    /// either.
    NotEnoughtCredit,
    /// The answer came and could not be decoded.
    ParsingError(DecodeError),
}

/// The mathematical value of an [`AskError`].
pub ghost enum AskFault {
    RequestError(Seq<char>),
    WrongApiKey,
    NotEnoughtCredit,
    ParsingError(DecodeFault),
}

impl View for AskError {
    type V = AskFault;

    open spec fn view(&self) -> AskFault {
        match self {
            AskError::RequestError(error) => AskFault::RequestError(error.cause@),
            AskError::WrongApiKey => AskFault::WrongApiKey,
            AskError::NotEnoughtCredit => AskFault::NotEnoughtCredit,
            AskError::ParsingError(error) => AskFault::ParsingError(error@),
        }
    }
}

impl AskFault {
    /// The message of a failure, but for that of a parser's report, which is
    /// the parser's.
    pub open spec fn message(self) -> Seq<char> {
        match self {
            AskFault::RequestError(cause) => cause,
            AskFault::ParsingError(fault) => fault.message(),
            _ => "<default error>"@,
        }
    }
}

impl AskError {
    /// The failure in words: the cause of a failed exchange, the message of
    /// a failed decoding, and a fixed text for the rest.
    pub fn message(&self) -> (message: String)
        ensures
            self@ != AskFault::ParsingError(DecodeFault::Malformed) ==> message@
                == self@.message(),
    {
        match self {
            AskError::RequestError(error) => error.cause.clone(),
            AskError::ParsingError(error) => error.message(),
            _ => "<default error>".to_owned(),
        }
    }
}

} // verus!
