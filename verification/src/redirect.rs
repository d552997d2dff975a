//! Resolution service: turns an inbound slug into a redirect decision.
//!
//! A lookup ends in one of three states. An unknown slug is not found. A
//! record that is not expired redirects to its URL and counts one click. An
//! expired record is gone; it stays in the store and counts no click.

use crate::clock::{expired, expiry_of, now, read_expiry, Instant};
use crate::http::{plain_reply, redirect_reply, Reply, ReplyView, Status};
use crate::models::{UrlRecord, UrlRecordView};
use crate::store::{Lookup, LookupView};
use crate::text::{contains_char, same_text};
use vstd::prelude::*;
use vstd::string::*;

verus! {

/// What a requested path calls for, before the store is touched.
#[derive(Clone, Copy, Debug, PartialEq, Eq, Structural)]
pub enum Route {
    /// The path has a `.`: it names a static asset, not a slug.
    NotFound,
    /// The path belongs to the single-page application.
    ServeIndex,
    /// The path is a slug to look up.
    Lookup,
}

/// Paths that belong to the single-page application.
pub open spec fn is_reserved_path(path: Seq<char>) -> bool {
    path == "dashboard"@ || path == "login"@ || path == "logout"@
}

/// What a requested path calls for.
pub open spec fn route_of(path: Seq<char>) -> Route {
    if path.contains('.') {
        Route::NotFound
    } else if is_reserved_path(path) {
        Route::ServeIndex
    } else {
        Route::Lookup
    }
}

/// Receives a requested path and decides whether the store is asked at all.
pub fn handle_redirect(path: &str) -> (route: Route)
    ensures
        route == route_of(path@),
{
    if contains_char(path, '.') {
        Route::NotFound
    } else if same_text(path, "dashboard") || same_text(path, "login") || same_text(
        path,
        "logout",
    ) {
        Route::ServeIndex
    } else {
        Route::Lookup
    }
}

/// The terminal state of a lookup.
#[derive(Debug)]
pub enum Resolution {
    /// No record has this slug.
    NotFound,
    /// The record has expired.
    Gone,
    /// The store failed.
    StoreError,
    /// The record is live: redirect to this URL and count one click.
    Redirect(String),
}

/// Mathematical view of a [`Resolution`].
pub enum ResolutionView {
    NotFound,
    Gone,
    StoreError,
    Redirect(Seq<char>),
}

impl View for Resolution {
    type V = ResolutionView;

    open spec fn view(&self) -> ResolutionView {
        match self {
            Resolution::NotFound => ResolutionView::NotFound,
            Resolution::Gone => ResolutionView::Gone,
            Resolution::StoreError => ResolutionView::StoreError,
            Resolution::Redirect(url) => ResolutionView::Redirect(url@),
        }
    }
}

impl ResolutionView {
    /// Whether this resolution schedules a click increment.
    pub open spec fn counts_click(self) -> bool {
        self is Redirect
    }

    /// The response for this resolution.
    pub open spec fn reply(self) -> ReplyView {
        match self {
            ResolutionView::NotFound => plain_reply(Status::NotFound, "URL not found"@),
            ResolutionView::Gone => plain_reply(Status::Gone, "URL has expired"@),
            ResolutionView::StoreError => plain_reply(
                Status::InternalServerError,
                "Database error"@,
            ),
            ResolutionView::Redirect(url) => redirect_reply(Status::TemporaryRedirect, url),
        }
    }
}

/// The terminal state for a record that expires at `expiry`, judged at `now`:
/// gone if the expiry lies strictly before `now`, else a redirect.
pub open spec fn judgment(
    record: UrlRecordView,
    expiry: Option<Instant>,
    now: Instant,
) -> ResolutionView {
    match expiry {
        Some(end) => if end.before(now) {
            ResolutionView::Gone
        } else {
            ResolutionView::Redirect(record.original_url)
        },
        None => ResolutionView::Redirect(record.original_url),
    }
}

/// The terminal state for what the store answered, judged at `now`.
pub open spec fn resolution(lookup: LookupView, now: Instant) -> ResolutionView {
    match lookup {
        LookupView::Missing => ResolutionView::NotFound,
        LookupView::Failed => ResolutionView::StoreError,
        LookupView::Found(record) => judgment(record, expiry_of(record.expires_at), now),
    }
}

/// A record is gone exactly when it has expired.
pub proof fn law_gone_exactly_when_expired(record: UrlRecordView, now: Instant)
    ensures
        resolution(LookupView::Found(record), now) == if expired(record.expires_at, now) {
            ResolutionView::Gone
        } else {
            ResolutionView::Redirect(record.original_url)
        },
{
}

/// Judges a record whose expiry, if it has a readable one, is `expiry`.
pub fn judge(record: &UrlRecord, expiry: Option<Instant>, now: Instant) -> (state: Resolution)
    ensures
        state@ == judgment(record@, expiry, now),
{
    match expiry {
        Some(end) => {
            if end.is_before(&now) {
                Resolution::Gone
            } else {
                Resolution::Redirect(record.original_url.clone())
            }
        },
        None => Resolution::Redirect(record.original_url.clone()),
    }
}

/// Resolves what the store answered to a lookup, judging expiry at `now`.
pub fn resolve_at(lookup: &Lookup, now: Instant) -> (state: Resolution)
    ensures
        state@ == resolution(lookup@, now),
{
    match lookup {
        Lookup::Missing => Resolution::NotFound,
        Lookup::Failed => Resolution::StoreError,
        Lookup::Found(record) => judge(record, read_expiry(&record.expires_at), now),
    }
}

/// Resolves what the store answered to a lookup, judging expiry by the clock,
/// which is read only for a record with a readable expiry. Whatever the clock
/// reads, a missing record is not found, a failed lookup is a store error, and
/// a record without a readable expiry redirects.
pub fn resolve(lookup: &Lookup) -> (state: Resolution)
    ensures
        exists|now: Instant| state@ == resolution(lookup@, now),
{
    match lookup {
        Lookup::Missing => {
            let state = Resolution::NotFound;
            assert(state@ == resolution(lookup@, Instant { secs: 0, nanos: 0 }));
            state
        },
        Lookup::Failed => {
            let state = Resolution::StoreError;
            assert(state@ == resolution(lookup@, Instant { secs: 0, nanos: 0 }));
            state
        },
        Lookup::Found(record) => {
            let expiry = read_expiry(&record.expires_at);
            let at = match expiry {
                Some(_) => now(),
                None => Instant { secs: 0, nanos: 0 },
            };
            let state = judge(record, expiry, at);
            assert(state@ == resolution(lookup@, at));
            state
        },
    }
}

impl Resolution {
    /// Whether the caller is to increment the clicks of the slug, in the
    /// background and without regard to the outcome.
    pub fn counts_click(&self) -> (yes: bool)
        ensures
            yes == self@.counts_click(),
    {
        match self {
            Resolution::Redirect(_) => true,
            _ => false,
        }
    }

    /// The response for this resolution.
    pub fn reply(self) -> (reply: Reply)
        ensures
            reply@ == self@.reply(),
    {
        match self {
            Resolution::NotFound => Reply::plain(Status::NotFound, "URL not found"),
            Resolution::Gone => Reply::plain(Status::Gone, "URL has expired"),
            Resolution::StoreError => Reply::plain(Status::InternalServerError, "Database error"),
            Resolution::Redirect(url) => Reply::redirect(Status::TemporaryRedirect, url),
        }
    }
}

} // verus!
