//! What a handler answers: a status, headers that matter, and a body.

use crate::models::{
    optional_text, CreateUrlResponse, CreateUrlResponseView, DiscordUserView, ErrorResponse,
    MeResponse, SuccessResponse, UrlRecord, UrlRecordView,
};
use vstd::prelude::*;

verus! {

/// The response statuses the service uses.
#[derive(Clone, Copy, Debug, PartialEq, Eq, Structural)]
pub enum Status {
    Okay,
    Found,
    TemporaryRedirect,
    BadRequest,
    Unauthorized,
    NotFound,
    Conflict,
    Gone,
    InternalServerError,
}

impl Status {
    /// The numeric status code.
    pub open spec fn code_of(self) -> u16 {
        match self {
            Status::Okay => 200,
            Status::Found => 302,
            Status::TemporaryRedirect => 307,
            Status::BadRequest => 400,
            Status::Unauthorized => 401,
            Status::NotFound => 404,
            Status::Conflict => 409,
            Status::Gone => 410,
            Status::InternalServerError => 500,
        }
    }

    /// The numeric status code.
    pub fn code(self) -> (code: u16)
        ensures
            code == self.code_of(),
    {
        match self {
            Status::Okay => 200,
            Status::Found => 302,
            Status::TemporaryRedirect => 307,
            Status::BadRequest => 400,
            Status::Unauthorized => 401,
            Status::NotFound => 404,
            Status::Conflict => 409,
            Status::Gone => 410,
            Status::InternalServerError => 500,
        }
    }
}

/// A response with a plain-text body, possibly a redirect or one that sets a
/// cookie.
#[derive(Debug)]
pub struct Reply {
    pub status: Status,
    pub location: Option<String>,
    pub set_cookie: Option<String>,
    pub body: String,
}

/// Mathematical view of a [`Reply`].
pub struct ReplyView {
    pub status: Status,
    pub location: Option<Seq<char>>,
    pub set_cookie: Option<Seq<char>>,
    pub body: Seq<char>,
}

impl View for Reply {
    type V = ReplyView;

    open spec fn view(&self) -> ReplyView {
        ReplyView {
            status: self.status,
            location: optional_text(self.location),
            set_cookie: optional_text(self.set_cookie),
            body: self.body@,
        }
    }
}

/// A reply that carries only a status and a text.
pub open spec fn plain_reply(status: Status, body: Seq<char>) -> ReplyView {
    ReplyView { status, location: None, set_cookie: None, body }
}

/// A reply that sends the client to `location`.
pub open spec fn redirect_reply(status: Status, location: Seq<char>) -> ReplyView {
    ReplyView { status, location: Some(location), set_cookie: None, body: Seq::empty() }
}

impl Reply {
    /// A reply that carries only a status and a text.
    pub fn plain(status: Status, body: &str) -> (reply: Reply)
        ensures
            reply@ == plain_reply(status, body@),
    {
        Reply { status, location: None, set_cookie: None, body: body.to_owned() }
    }

    /// A reply that sends the client to `location`.
    pub fn redirect(status: Status, location: String) -> (reply: Reply)
        ensures
            reply@ == redirect_reply(status, location@),
    {
        Reply { status, location: Some(location), set_cookie: None, body: String::new() }
    }
}

/// The body of a JSON response.
#[derive(Debug)]
pub enum JsonBody {
    Error(ErrorResponse),
    Created(CreateUrlResponse),
    Urls(Vec<UrlRecord>),
    Success(SuccessResponse),
    Me(MeResponse),
}

/// Mathematical view of a [`JsonBody`].
pub enum JsonBodyView {
    Error(Seq<char>),
    Created(CreateUrlResponseView),
    Urls(Seq<UrlRecordView>),
    Success(bool),
    Me(DiscordUserView),
}

impl View for JsonBody {
    type V = JsonBodyView;

    open spec fn view(&self) -> JsonBodyView {
        match self {
            JsonBody::Error(e) => JsonBodyView::Error(e.error@),
            JsonBody::Created(c) => JsonBodyView::Created(c@),
            JsonBody::Urls(urls) => JsonBodyView::Urls(urls@.map_values(|r: UrlRecord| r@)),
            JsonBody::Success(s) => JsonBodyView::Success(s.success),
            JsonBody::Me(m) => JsonBodyView::Me(m.user@),
        }
    }
}

/// A response with a JSON body.
#[derive(Debug)]
pub struct JsonReply {
    pub status: Status,
    pub body: JsonBody,
}

/// Mathematical view of a [`JsonReply`].
pub struct JsonReplyView {
    pub status: Status,
    pub body: JsonBodyView,
}

impl View for JsonReply {
    type V = JsonReplyView;

    open spec fn view(&self) -> JsonReplyView {
        JsonReplyView { status: self.status, body: self.body@ }
    }
}

/// The JSON reply that reports a failure with a reason.
pub open spec fn error_reply(status: Status, reason: Seq<char>) -> JsonReplyView {
    JsonReplyView { status, body: JsonBodyView::Error(reason) }
}

impl JsonReply {
    /// The JSON reply that reports a failure with a reason.
    pub fn error(status: Status, reason: &str) -> (reply: JsonReply)
        ensures
            reply@ == error_reply(status, reason@),
    {
        JsonReply { status, body: JsonBody::Error(ErrorResponse { error: reason.to_owned() }) }
    }
}

} // verus!
