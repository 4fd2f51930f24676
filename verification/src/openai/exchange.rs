//! One exchange with the backend: the HTTP call that carries a request, and
//! what its outcome means.
//!
//! The library makes no network call of its own. It says which call is to be
//! made, hands it to the caller's transport, and reads what came back.

use crate::openai::error::{AskError, AskFault, TransportError};
use crate::openai::request::{
    encode_request, request_text, ConversationRequest, RequestView, OPENAI_COMPLETIONS_URL,
};
use crate::openai::response::{
    decode, decode_text_spec, ResponseView, SuccessfullConversationResponse,
};
use vstd::prelude::*;

verus! {

/// An HTTP `POST` with a JSON body and a bearer token, ready to be sent.
#[derive(Clone, Debug, PartialEq, Eq)]
pub struct HttpPost {
    /// Where the call goes.
    pub url: String,
    /// The credential, which goes into the header `Authorization` behind
    /// the word `Bearer`.
    pub bearer_token: String,
    /// The body, which is JSON.
    pub body: String,
}

/// The mathematical value of an [`HttpPost`].
pub ghost struct HttpPostView {
    pub url: Seq<char>,
    pub bearer_token: Seq<char>,
    pub body: Seq<char>,
}

impl View for HttpPost {
    type V = HttpPostView;

    open spec fn view(&self) -> HttpPostView {
        HttpPostView { url: self.url@, bearer_token: self.bearer_token@, body: self.body@ }
    }
}

/// The call that carries a request: to the one endpoint, with the caller's
/// key as the bearer token and the request as the body.
pub open spec fn post_for(api_key: Seq<char>, request: RequestView) -> HttpPostView {
    HttpPostView {
        url: OPENAI_COMPLETIONS_URL@,
        bearer_token: api_key,
        body: request_text(request),
    }
}

/// Makes the call that carries a request.
pub fn prepare(api_key: String, request: &ConversationRequest) -> (post: HttpPost)
    ensures
        post@ == post_for(api_key@, request@),
{
    HttpPost {
        url: OPENAI_COMPLETIONS_URL.to_owned(),
        bearer_token: api_key,
        body: encode_request(request),
    }
}

/// The value of what a transport hands back: the text of the answer, or the
/// cause of the failure.
pub open spec fn outcome_view(outcome: Result<String, TransportError>) -> Result<
    Seq<char>,
    Seq<char>,
> {
    match outcome {
        Ok(text) => Ok(text@),
        Err(error) => Err(error.cause@),
    }
}

/// The value of what the caller gets: the response, or the failure.
pub open spec fn answer_view(answer: Result<SuccessfullConversationResponse, AskError>) -> Result<
    ResponseView,
    AskFault,
> {
    match answer {
        Ok(response) => Ok(response@),
        Err(error) => Err(error@),
    }
}

/// What the outcome of an exchange means. A failed exchange is a request
/// error with the same cause. An answer is decoded: it is the response that
/// it decodes to, or a parsing error with the decoder's failure.
pub open spec fn conclude_spec(outcome: Result<Seq<char>, Seq<char>>) -> Result<
    ResponseView,
    AskFault,
> {
    match outcome {
        Err(cause) => Err(AskFault::RequestError(cause)),
        Ok(text) => match decode_text_spec(text) {
            Ok(response) => Ok(response),
            Err(fault) => Err(AskFault::ParsingError(fault)),
        },
    }
}

/// Turns the outcome of an exchange into what the caller gets.
pub fn conclude(outcome: Result<String, TransportError>) -> (answer: Result<
    SuccessfullConversationResponse,
    AskError,
>)
    ensures
        answer_view(answer) == conclude_spec(outcome_view(outcome)),
        answer_view(answer) != Err::<ResponseView, AskFault>(AskFault::WrongApiKey),
        answer_view(answer) != Err::<ResponseView, AskFault>(AskFault::NotEnoughtCredit),
{
    match outcome {
        Err(error) => Err(AskError::RequestError(error)),
        Ok(text) => match decode(text.as_str()) {
            Ok(response) => Ok(response),
            Err(error) => Err(AskError::ParsingError(error)),
        },
    }
}

/// Whether a transport takes the call that carries `request`.
pub open spec fn accepts<F: FnOnce(HttpPost) -> Result<String, TransportError>>(
    send: F,
    api_key: Seq<char>,
    request: RequestView,
) -> bool {
    forall|post: HttpPost|
        post@ == post_for(api_key, request) ==> #[trigger] call_requires(send, (post,))
}

/// Whether `answer` is what one exchange through a transport can give: the
/// transport got the call that carries `request`, and `answer` is what its
/// outcome means.
pub open spec fn exchanged<F: FnOnce(HttpPost) -> Result<String, TransportError>>(
    send: F,
    api_key: Seq<char>,
    request: RequestView,
    answer: Result<ResponseView, AskFault>,
) -> bool {
    exists|post: HttpPost, outcome: Result<String, TransportError>|
        post@ == post_for(api_key, request) && #[trigger] call_ensures(send, (post,), outcome)
            && answer == conclude_spec(outcome_view(outcome))
}

/// Makes one exchange: hands the call that carries `request` to the
/// transport, once, and turns what comes back into the answer.
pub fn exchange<F: FnOnce(HttpPost) -> Result<String, TransportError>>(
    api_key: String,
    request: &ConversationRequest,
    send: F,
) -> (answer: Result<SuccessfullConversationResponse, AskError>)
    requires
        accepts(send, api_key@, request@),
    ensures
        exchanged(send, api_key@, request@, answer_view(answer)),
{
    let post = prepare(api_key, request);
    let ghost sent = post;
    let outcome = send(post);
    let ghost got = outcome;
    let answer = conclude(outcome);
    proof {
        assert(call_ensures(send, (sent,), got));
    }
    answer
}

} // verus!
