//! The administrative endpoints: who may use them and what they answer.
//!
//! The caller reads the session from the request and performs the store
//! operation; the functions here decide the responses.

use crate::http::{error_reply, JsonBody, JsonBodyView, JsonReply, JsonReplyView, Status};
use crate::models::{DiscordUser, MeResponse, SuccessResponse, UrlRecord};
use vstd::prelude::*;

verus! {

/// The reply to a request without a session.
pub open spec fn unauthorized() -> JsonReplyView {
    error_reply(Status::Unauthorized, "Unauthorized"@)
}

/// The reply to a request that the store failed.
pub open spec fn database_error() -> JsonReplyView {
    error_reply(Status::InternalServerError, "Database error"@)
}

/// The reply to a write that the store performed.
pub open spec fn success() -> JsonReplyView {
    JsonReplyView { status: Status::Okay, body: JsonBodyView::Success(true) }
}

/// Whether the request carries a session.
pub fn check_auth(session: &Option<DiscordUser>) -> (signed_in: bool)
    ensures
        signed_in == session.is_some(),
{
    session.is_some()
}

/// Guards an administrative endpoint: nothing stands in the way of a request
/// that carries a session, any other is answered as unauthorized before the
/// store is touched.
pub fn guard(session: &Option<DiscordUser>) -> (refusal: Option<JsonReply>)
    ensures
        session.is_some() ==> refusal.is_none(),
        session.is_none() ==> refusal.is_some() && refusal.unwrap()@ == unauthorized(),
{
    if check_auth(session) {
        None
    } else {
        Some(JsonReply::error(Status::Unauthorized, "Unauthorized"))
    }
}

/// Answers the listing of all records with what the store returned, in the
/// store's order, which is newest first.
pub fn list_urls(result: Result<Vec<UrlRecord>, sqlx::Error>) -> (reply: JsonReply)
    ensures
        match result {
            Ok(list) => reply@ == (JsonReplyView {
                status: Status::Okay,
                body: JsonBodyView::Urls(list@.map_values(|r: UrlRecord| r@)),
            }),
            Err(_) => reply@ == database_error(),
        },
{
    match result {
        Ok(list) => JsonReply { status: Status::Okay, body: JsonBody::Urls(list) },
        Err(_) => JsonReply::error(Status::InternalServerError, "Database error"),
    }
}

/// Answers a write with what the store returned for it.
fn write_reply(result: Result<(), sqlx::Error>) -> (reply: JsonReply)
    ensures
        reply@ == if result is Ok {
            success()
        } else {
            database_error()
        },
{
    match result {
        Ok(_) => JsonReply {
            status: Status::Okay,
            body: JsonBody::Success(SuccessResponse { success: true }),
        },
        Err(_) => JsonReply::error(Status::InternalServerError, "Database error"),
    }
}

/// Answers a deletion with what the store returned for it.
pub fn delete_url(result: Result<(), sqlx::Error>) -> (reply: JsonReply)
    ensures
        reply@ == if result is Ok {
            success()
        } else {
            database_error()
        },
{
    write_reply(result)
}

/// Answers a change of expiry with what the store returned for it.
pub fn update_url(result: Result<(), sqlx::Error>) -> (reply: JsonReply)
    ensures
        reply@ == if result is Ok {
            success()
        } else {
            database_error()
        },
{
    write_reply(result)
}

/// Tells a signed-in user who they are.
pub fn get_me(session: Option<DiscordUser>) -> (reply: JsonReply)
    ensures
        match session {
            Some(user) => reply@ == (JsonReplyView {
                status: Status::Okay,
                body: JsonBodyView::Me(user@),
            }),
            None => reply@ == unauthorized(),
        },
{
    match session {
        Some(user) => JsonReply { status: Status::Okay, body: JsonBody::Me(MeResponse { user }) },
        None => JsonReply::error(Status::Unauthorized, "Unauthorized"),
    }
}

} // verus!
