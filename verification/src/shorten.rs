//! Allocation coordinator: turns a shorten request into one persisted record
//! with a unique slug, or fails explicitly.
//!
//! The coordinator never looks a slug up before inserting it. It asks the
//! store to insert and reacts to what the store answers: a custom slug that is
//! taken is a conflict; a generated slug that is taken is drawn again, up to
//! [`MAX_ATTEMPTS`] insertions in all.

use crate::http::{error_reply, JsonBody, JsonBodyView, JsonReply, JsonReplyView, Status};
use crate::models::{
    copy_optional_text, CreateUrlRequest, CreateUrlRequestView, CreateUrlResponse,
    CreateUrlResponseView,
};
use crate::slug::{
    generate_slug, is_generated_slug, lemma_generated_slug_exists, GENERATED_SLUG_LEN,
};
use crate::store::InsertOutcome;
use crate::text::trimmed;
use vstd::prelude::*;
use vstd::string::*;

verus! {

/// Number of insertions tried for a generated slug before giving up.
pub const MAX_ATTEMPTS: usize = 5;

/// Why a shorten request failed.
#[derive(Clone, Copy, Debug, PartialEq, Eq, Structural)]
pub enum ShortenError {
    /// The request named no URL.
    EmptyUrl,
    /// The custom slug is taken.
    Conflict,
    /// Every generated slug that was tried is taken.
    AllocationExhausted,
    /// The store failed.
    Store,
}

impl ShortenError {
    /// The response status for this failure.
    pub open spec fn status_of(self) -> Status {
        match self {
            ShortenError::EmptyUrl => Status::BadRequest,
            ShortenError::Conflict => Status::Conflict,
            ShortenError::AllocationExhausted => Status::InternalServerError,
            ShortenError::Store => Status::InternalServerError,
        }
    }

    /// The reason given to the client.
    pub open spec fn reason_of(self) -> Seq<char> {
        match self {
            ShortenError::EmptyUrl => "URL is required"@,
            ShortenError::Conflict => "Slug already exists"@,
            ShortenError::AllocationExhausted => "Failed to generate unique slug"@,
            ShortenError::Store => "Database error"@,
        }
    }

    /// The response status for this failure.
    pub fn status(self) -> (status: Status)
        ensures
            status == self.status_of(),
    {
        match self {
            ShortenError::EmptyUrl => Status::BadRequest,
            ShortenError::Conflict => Status::Conflict,
            ShortenError::AllocationExhausted => Status::InternalServerError,
            ShortenError::Store => Status::InternalServerError,
        }
    }

    /// The reason given to the client.
    pub fn reason(self) -> (reason: &'static str)
        ensures
            reason@ == self.reason_of(),
    {
        match self {
            ShortenError::EmptyUrl => "URL is required",
            ShortenError::Conflict => "Slug already exists",
            ShortenError::AllocationExhausted => "Failed to generate unique slug",
            ShortenError::Store => "Database error",
        }
    }
}

/// One insertion that the coordinator asks for.
#[derive(Debug)]
pub struct Attempt {
    /// The slug to insert.
    pub slug: String,
    /// Whether the client chose the slug.
    pub custom: bool,
    /// Which insertion of this request it is, counted from 1.
    pub number: usize,
}

/// Mathematical view of an [`Attempt`].
pub struct AttemptView {
    pub slug: Seq<char>,
    pub custom: bool,
    pub number: nat,
}

impl Attempt {
    /// The first insertion of a request.
    pub fn first(slug: String, custom: bool) -> (attempt: Attempt)
        ensures
            attempt@ == (AttemptView { slug: slug@, custom, number: 1 }),
    {
        Attempt { slug, custom, number: 1 }
    }
}

impl View for Attempt {
    type V = AttemptView;

    open spec fn view(&self) -> AttemptView {
        AttemptView { slug: self.slug@, custom: self.custom, number: self.number as nat }
    }
}

/// What the coordinator does next: ask the store for an insertion, or finish.
#[derive(Debug)]
pub enum ShortenStep {
    /// Insert the attempt's slug with the request's URL and expiry, then
    /// report what the store answered.
    Insert(Attempt),
    /// The request is settled.
    Done(Result<CreateUrlResponse, ShortenError>),
}

/// Mathematical view of a [`ShortenStep`].
pub enum ShortenStepView {
    Insert(AttemptView),
    Done(Result<CreateUrlResponseView, ShortenError>),
}

impl View for ShortenStep {
    type V = ShortenStepView;

    open spec fn view(&self) -> ShortenStepView {
        match self {
            ShortenStep::Insert(attempt) => ShortenStepView::Insert(attempt@),
            ShortenStep::Done(Ok(response)) => ShortenStepView::Done(Ok(response@)),
            ShortenStep::Done(Err(error)) => ShortenStepView::Done(Err(*error)),
        }
    }
}

/// The response that reports a persisted record: the short URL is the base
/// URL, a slash and the slug; URL and expiry are echoed.
pub open spec fn created_response(
    request: CreateUrlRequestView,
    slug: Seq<char>,
    base_url: Seq<char>,
) -> CreateUrlResponseView {
    CreateUrlResponseView {
        success: true,
        short_url: base_url + "/"@ + slug,
        slug,
        original_url: request.url,
        expires_at: request.expires_at,
    }
}

/// First step for a request, where `candidate` is the slug to try if the
/// client chose none. An empty URL is refused before the store is touched; a
/// custom slug is trimmed and tried as it is.
pub open spec fn first_step(
    request: CreateUrlRequestView,
    candidate: Seq<char>,
) -> ShortenStepView {
    if request.url.len() == 0 {
        ShortenStepView::Done(Err(ShortenError::EmptyUrl))
    } else {
        match request.custom_slug {
            Some(custom) => ShortenStepView::Insert(
                AttemptView { slug: trimmed(custom), custom: true, number: 1 },
            ),
            None => ShortenStepView::Insert(
                AttemptView { slug: candidate, custom: false, number: 1 },
            ),
        }
    }
}

/// Step that follows the store's answer to `attempt`, where `candidate` is the
/// slug to try next if another insertion is due.
pub open spec fn next_step(
    request: CreateUrlRequestView,
    attempt: AttemptView,
    outcome: InsertOutcome,
    candidate: Seq<char>,
    base_url: Seq<char>,
) -> ShortenStepView {
    match outcome {
        InsertOutcome::Inserted => ShortenStepView::Done(
            Ok(created_response(request, attempt.slug, base_url)),
        ),
        InsertOutcome::Failed => ShortenStepView::Done(Err(ShortenError::Store)),
        InsertOutcome::UniqueViolation => if attempt.custom {
            ShortenStepView::Done(Err(ShortenError::Conflict))
        } else if attempt.number >= MAX_ATTEMPTS {
            ShortenStepView::Done(Err(ShortenError::AllocationExhausted))
        } else {
            ShortenStepView::Insert(
                AttemptView { slug: candidate, custom: false, number: attempt.number + 1 },
            )
        },
    }
}

/// Begins a shorten request with a given candidate slug.
pub fn create_short_url_with(request: &CreateUrlRequest, candidate: String) -> (step: ShortenStep)
    ensures
        step@ == first_step(request@, candidate@),
{
    if request.url.as_str().is_empty() {
        return ShortenStep::Done(Err(ShortenError::EmptyUrl));
    }
    match &request.custom_slug {
        Some(custom) => ShortenStep::Insert(
            Attempt::first(custom.as_str().trim().to_owned(), true),
        ),
        None => ShortenStep::Insert(Attempt::first(candidate, false)),
    }
}

/// Continues a shorten request after the store answered `attempt`, with a
/// given candidate slug for the next insertion.
pub fn insert_answered_with(
    request: &CreateUrlRequest,
    attempt: Attempt,
    outcome: InsertOutcome,
    candidate: String,
    base_url: &str,
) -> (step: ShortenStep)
    ensures
        step@ == next_step(request@, attempt@, outcome, candidate@, base_url@),
{
    match outcome {
        InsertOutcome::Inserted => {
            let mut short_url = base_url.to_owned();
            short_url.append("/");
            short_url.append(attempt.slug.as_str());
            ShortenStep::Done(
                Ok(
                    CreateUrlResponse {
                        success: true,
                        short_url,
                        slug: attempt.slug,
                        original_url: request.url.clone(),
                        expires_at: copy_optional_text(&request.expires_at),
                    },
                ),
            )
        },
        InsertOutcome::Failed => ShortenStep::Done(Err(ShortenError::Store)),
        InsertOutcome::UniqueViolation => {
            if attempt.custom {
                ShortenStep::Done(Err(ShortenError::Conflict))
            } else if attempt.number >= MAX_ATTEMPTS {
                ShortenStep::Done(Err(ShortenError::AllocationExhausted))
            } else {
                ShortenStep::Insert(
                    Attempt { slug: candidate, custom: false, number: attempt.number + 1 },
                )
            }
        },
    }
}

/// Begins a shorten request: refuses an empty URL, tries the custom slug if
/// there is one, else a freshly drawn slug of six symbols.
pub fn create_short_url(request: &CreateUrlRequest) -> (step: ShortenStep)
    ensures
        exists|candidate: Seq<char>|
            is_generated_slug(candidate) && step@ == first_step(request@, candidate),
{
    if request.url.as_str().is_empty() || request.custom_slug.is_some() {
        let step = create_short_url_with(request, String::new());
        proof {
            let unused = lemma_generated_slug_exists();
            assert(step@ == first_step(request@, unused));
        }
        step
    } else {
        let candidate = generate_slug(GENERATED_SLUG_LEN);
        let ghost drawn = candidate@;
        let step = create_short_url_with(request, candidate);
        assert(is_generated_slug(drawn) && step@ == first_step(request@, drawn));
        step
    }
}

/// Continues a shorten request after the store answered `attempt`: a written
/// record is reported, a taken custom slug is a conflict, a taken generated
/// slug is replaced by a freshly drawn one until [`MAX_ATTEMPTS`] insertions
/// were tried.
pub fn insert_answered(
    request: &CreateUrlRequest,
    attempt: Attempt,
    outcome: InsertOutcome,
    base_url: &str,
) -> (step: ShortenStep)
    ensures
        exists|candidate: Seq<char>|
            is_generated_slug(candidate) && step@ == next_step(
                request@,
                attempt@,
                outcome,
                candidate,
                base_url@,
            ),
{
    let ghost before = attempt@;
    let retry = match outcome {
        InsertOutcome::UniqueViolation => !attempt.custom && attempt.number < MAX_ATTEMPTS,
        _ => false,
    };
    if retry {
        let candidate = generate_slug(GENERATED_SLUG_LEN);
        let ghost drawn = candidate@;
        let step = insert_answered_with(request, attempt, outcome, candidate, base_url);
        assert(is_generated_slug(drawn) && step@ == next_step(
            request@,
            before,
            outcome,
            drawn,
            base_url@,
        ));
        step
    } else {
        let step = insert_answered_with(request, attempt, outcome, String::new(), base_url);
        proof {
            let unused = lemma_generated_slug_exists();
            assert(step@ == next_step(request@, before, outcome, unused, base_url@));
        }
        step
    }
}

/// The response for a settled request.
pub open spec fn shorten_reply_spec(
    result: Result<CreateUrlResponseView, ShortenError>,
) -> JsonReplyView {
    match result {
        Ok(response) => JsonReplyView {
            status: Status::Okay,
            body: JsonBodyView::Created(response),
        },
        Err(error) => error_reply(error.status_of(), error.reason_of()),
    }
}

/// Turns a settled request into its response.
pub fn shorten_reply(result: Result<CreateUrlResponse, ShortenError>) -> (reply: JsonReply)
    ensures
        reply@ == shorten_reply_spec(
            match result {
                Ok(response) => Ok(response@),
                Err(error) => Err(error),
            },
        ),
{
    match result {
        Ok(response) => JsonReply { status: Status::Okay, body: JsonBody::Created(response) },
        Err(error) => JsonReply::error(error.status(), error.reason()),
    }
}

} // verus!
