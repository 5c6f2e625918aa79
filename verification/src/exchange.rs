//! One exchange with the token endpoint: the request that is sent and the
//! classification of what comes back.

use vstd::prelude::*;
use crate::error::{Error, ErrorView};
use crate::persist::{named, Tokens, TokensView};
use crate::wire::{encode_form, form_encoded, integer_member, json_integer_member, json_text_member, text_member};

verus! {

/// A form-encoded POST for the token endpoint.
#[derive(Debug, PartialEq, Eq)]
pub struct TokenRequest {
    pub url: String,
    pub body: String,
}

/// A request by its values.
pub struct TokenRequestView {
    pub url: Seq<char>,
    pub body: Seq<char>,
}

impl View for TokenRequest {
    type V = TokenRequestView;

    open spec fn view(&self) -> TokenRequestView {
        TokenRequestView { url: self.url@, body: self.body@ }
    }
}

/// What the transport reports of one request.
#[derive(Debug, PartialEq, Eq)]
pub enum Reply {
    /// The endpoint answered with a status and a body.
    Answer { status: u16, body: String },
    /// No answer: the connection, TLS or the wait for the answer failed.
    Failed,
}

/// The result of an exchange, by its values.
pub open spec fn outcome_view(outcome: Result<Tokens, Error>) -> Result<TokensView, ErrorView> {
    match outcome {
        Ok(tokens) => Ok(tokens@),
        Err(e) => Err(e@),
    }
}

/// The request for `form` at `token_url`: the fields in the caller's order.
pub open spec fn request_for(form: Seq<(Seq<char>, Seq<char>)>, token_url: Seq<char>) -> TokenRequestView {
    TokenRequestView { url: token_url, body: form_encoded(form) }
}

/// A status from 200 to 299.
pub open spec fn is_success(status: u16) -> bool {
    200 <= status < 300
}

/// The tokens that an answer with a success status issues at time `now`:
/// all three members have to be present, and the expiration, `now` plus the
/// life in seconds, has to be a time that an `i64` holds. Anything else is
/// a parse error that carries the body.
pub open spec fn issued(
    access_token: Option<Seq<char>>,
    refresh_token: Option<Seq<char>>,
    expires_in: Option<i64>,
    now: i64,
    body: Seq<char>,
) -> Result<TokensView, ErrorView> {
    if access_token is Some && refresh_token is Some && expires_in is Some && i64::MIN <= now
        + expires_in->Some_0 <= i64::MAX {
        Ok(
            TokensView {
                access_token: access_token->Some_0,
                expiration: (now + expires_in->Some_0) as i64,
                refresh_token: refresh_token->Some_0,
            },
        )
    } else {
        Err(ErrorView::ResponseParseError { body, status: None })
    }
}

/// Tokens issued with a life that is not negative need no refresh at the
/// time of their issue.
pub proof fn lemma_issued_tokens_are_fresh(
    access_token: Option<Seq<char>>,
    refresh_token: Option<Seq<char>>,
    expires_in: Option<i64>,
    now: i64,
    body: Seq<char>,
)
    requires
        issued(access_token, refresh_token, expires_in, now, body) is Ok,
        expires_in->Some_0 >= 0,
    ensures
        issued(access_token, refresh_token, expires_in, now, body)->Ok_0.expiration >= now,
{
}

/// The failure that an answer with another status stands for: the
/// server's error where both members are present, else a parse error that
/// carries the body and the status.
pub open spec fn refused(
    error: Option<Seq<char>>,
    description: Option<Seq<char>>,
    status: u16,
    body: Seq<char>,
) -> ErrorView {
    if error is Some && description is Some {
        ErrorView::OAuthServerError { error: error->Some_0, description: description->Some_0 }
    } else {
        ErrorView::ResponseParseError { body, status: Some(status) }
    }
}

/// What an answer means at time `now`.
pub open spec fn classified(status: u16, body: Seq<char>, now: i64) -> Result<TokensView, ErrorView> {
    if is_success(status) {
        issued(
            json_text_member(body, "access_token"@),
            json_text_member(body, "refresh_token"@),
            json_integer_member(body, "expires_in"@),
            now,
            body,
        )
    } else {
        Err(
            refused(
                json_text_member(body, "error"@),
                json_text_member(body, "error_description"@),
                status,
                body,
            ),
        )
    }
}

/// Builds the POST for `form` at `token_url`.
pub fn request_tokens(form: &Vec<(String, String)>, token_url: &str) -> (request: TokenRequest)
    ensures
        request@ == request_for(named(form@), token_url@),
{
    TokenRequest { url: token_url.to_owned(), body: encode_form(form) }
}

/// Whether `status` is a success status.
pub fn status_is_success(status: u16) -> (r: bool)
    ensures
        r == is_success(status),
{
    200 <= status && status < 300
}

/// The tokens issued by an answer with a success status whose members
/// were read as given.
pub fn tokens_from_members(
    access_token: Option<String>,
    refresh_token: Option<String>,
    expires_in: Option<i64>,
    now: i64,
    body: &str,
) -> (r: Result<Tokens, Error>)
    ensures
        outcome_view(r) == issued(
            match access_token {
                Some(t) => Some(t@),
                None => None,
            },
            match refresh_token {
                Some(t) => Some(t@),
                None => None,
            },
            expires_in,
            now,
            body@,
        ),
{
    match (access_token, refresh_token, expires_in) {
        (Some(access_token), Some(refresh_token), Some(life)) => match now.checked_add(life) {
            Some(expiration) => Ok(Tokens { access_token, expiration, refresh_token }),
            None => Err(Error::ResponseParseError { body: body.to_owned(), status: None }),
        },
        _ => Err(Error::ResponseParseError { body: body.to_owned(), status: None }),
    }
}

/// The failure reported by an answer with a failure status whose members
/// were read as given.
pub fn failure_from_members(
    error: Option<String>,
    description: Option<String>,
    status: u16,
    body: &str,
) -> (e: Error)
    ensures
        e@ == refused(
            match error {
                Some(t) => Some(t@),
                None => None,
            },
            match description {
                Some(t) => Some(t@),
                None => None,
            },
            status,
            body@,
        ),
{
    match (error, description) {
        (Some(error), Some(description)) => Error::OAuthServerError { error, description },
        _ => Error::ResponseParseError { body: body.to_owned(), status: Some(status) },
    }
}

/// Classifies an answer of the token endpoint received at time `now`.
pub fn classify_response(status: u16, body: &str, now: i64) -> (r: Result<Tokens, Error>)
    ensures
        outcome_view(r) == classified(status, body@, now),
{
    if status_is_success(status) {
        let access_token = text_member(body, "access_token");
        let refresh_token = text_member(body, "refresh_token");
        let expires_in = integer_member(body, "expires_in");
        tokens_from_members(access_token, refresh_token, expires_in, now, body)
    } else {
        let error = text_member(body, "error");
        let description = text_member(body, "error_description");
        Err(failure_from_members(error, description, status, body))
    }
}

/// What a reply means at time `now`: a missing answer is a transport
/// error, an answer is classified.
pub open spec fn exchanged(reply: Reply, now: i64) -> Result<TokensView, ErrorView> {
    match reply {
        Reply::Answer { status, body } => classified(status, body@, now),
        Reply::Failed => Err(ErrorView::TransportError),
    }
}

/// Turns the transport's report into tokens or the failure to surface.
pub fn exchange_outcome(reply: &Reply, now: i64) -> (r: Result<Tokens, Error>)
    ensures
        outcome_view(r) == exchanged(*reply, now),
{
    match reply {
        Reply::Answer { status, body } => classify_response(*status, body.as_str(), now),
        Reply::Failed => Err(Error::TransportError),
    }
}

} // verus!
