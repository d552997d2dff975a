//! The service as a whole: shorten and redirect requests run against an
//! available store, and the laws that hold of them.
//!
//! A run feeds the coordinator the answers that the store model gives, so the
//! laws here are statements about the step functions of the coordinator and
//! the resolution service together with a store that enforces unique slugs.

use crate::clock::{expired, Instant};
use crate::models::{CreateUrlRequestView, CreateUrlResponseView};
use crate::redirect::{resolution, route_of, ResolutionView, Route};
use crate::shorten::{
    created_response, first_step, next_step, AttemptView, ShortenError, ShortenStepView,
    MAX_ATTEMPTS,
};
use crate::slug::{is_generated_slug, is_slug_char};
use crate::store::{InsertOutcome, LookupView, StoreModel};
use crate::text::trimmed;
use vstd::prelude::*;

verus! {

/// How a shorten request ended.
pub struct ShortenRun {
    /// The store afterwards.
    pub store: StoreModel,
    /// What the client is told.
    pub result: Result<CreateUrlResponseView, ShortenError>,
    /// How many insertions the store was asked for.
    pub insertions: nat,
}

/// Upper bound on the insertions that can still follow `step`.
pub open spec fn insertions_left(step: ShortenStepView) -> nat {
    match step {
        ShortenStepView::Done(_) => 0,
        ShortenStepView::Insert(attempt) => if attempt.custom || attempt.number >= MAX_ATTEMPTS {
            1
        } else {
            (MAX_ATTEMPTS + 1 - attempt.number) as nat
        },
    }
}

/// Whatever the store answers and whatever slug is drawn, a request begins
/// with at most `MAX_ATTEMPTS` insertions ahead of it and every answer leaves
/// fewer: the coordinator cannot loop.
pub proof fn law_attempts_are_bounded(
    request: CreateUrlRequestView,
    attempt: AttemptView,
    outcome: InsertOutcome,
    candidate: Seq<char>,
    base_url: Seq<char>,
)
    ensures
        insertions_left(first_step(request, candidate)) <= MAX_ATTEMPTS,
        insertions_left(next_step(request, attempt, outcome, candidate, base_url))
            < insertions_left(ShortenStepView::Insert(attempt)),
{
}

/// Runs a request from `step` to its end. The store answers every insertion
/// and assigns `id` and `created_at` to the record it writes; `candidates[n]`
/// is the slug drawn after the `n`-th insertion collided.
pub open spec fn run_from(
    store: StoreModel,
    request: CreateUrlRequestView,
    base_url: Seq<char>,
    step: ShortenStepView,
    candidates: Seq<Seq<char>>,
    id: int,
    created_at: Seq<char>,
) -> ShortenRun
    decreases insertions_left(step),
{
    match step {
        ShortenStepView::Done(result) => ShortenRun { store, result, insertions: 0 },
        ShortenStepView::Insert(attempt) => {
            let outcome = store.insert_answer(attempt.slug);
            let after = if outcome == InsertOutcome::Inserted {
                store.insert(attempt.slug, request.url, request.expires_at, id, created_at)
            } else {
                store
            };
            let next = next_step(
                request,
                attempt,
                outcome,
                candidates[attempt.number as int],
                base_url,
            );
            let rest = run_from(after, request, base_url, next, candidates, id, created_at);
            ShortenRun { store: rest.store, result: rest.result, insertions: rest.insertions + 1 }
        },
    }
}

/// Runs a shorten request against `store`. `candidates[0]` is the slug drawn
/// at the start.
pub open spec fn shorten(
    store: StoreModel,
    request: CreateUrlRequestView,
    base_url: Seq<char>,
    candidates: Seq<Seq<char>>,
    id: int,
    created_at: Seq<char>,
) -> ShortenRun {
    run_from(
        store,
        request,
        base_url,
        first_step(request, candidates[0]),
        candidates,
        id,
        created_at,
    )
}

/// What a `GET` on a path is answered with.
pub enum Served {
    /// Not found, without a lookup.
    NotFound,
    /// The page of the single-page application.
    Index,
    /// The terminal state of a lookup.
    Resolved(ResolutionView),
}

/// How a `GET` ended.
pub struct GetRun {
    /// The store once the scheduled click, if any, was counted.
    pub store: StoreModel,
    /// What the client is answered.
    pub served: Served,
}

/// Runs a `GET` on `path` against `store` at time `now`.
pub open spec fn get(store: StoreModel, path: Seq<char>, now: Instant) -> GetRun {
    match route_of(path) {
        Route::NotFound => GetRun { store, served: Served::NotFound },
        Route::ServeIndex => GetRun { store, served: Served::Index },
        Route::Lookup => {
            let state = resolution(store.lookup(path), now);
            GetRun {
                store: if state.counts_click() {
                    store.increment_clicks(path)
                } else {
                    store
                },
                served: Served::Resolved(state),
            }
        },
    }
}

/// The first `MAX_ATTEMPTS` candidates are generated slugs.
pub open spec fn candidates_generated(candidates: Seq<Seq<char>>) -> bool {
    &&& candidates.len() >= MAX_ATTEMPTS
    &&& forall|i: int| 0 <= i < MAX_ATTEMPTS ==> is_generated_slug(#[trigger] candidates[i])
}

/// A generated slug has no `.` and is neither `dashboard` nor `login`.
pub proof fn lemma_generated_slug_routes(slug: Seq<char>)
    requires
        is_generated_slug(slug),
        slug != "logout"@,
    ensures
        route_of(slug) == Route::Lookup,
{
    reveal_strlit("dashboard");
    reveal_strlit("login");
    if slug.contains('.') {
        let i = choose|i: int| 0 <= i < slug.len() && slug[i] == '.';
        assert(is_slug_char(slug[i]));
    }
}

/// What holds of a run that starts with an insertion.
proof fn lemma_run(
    store: StoreModel,
    request: CreateUrlRequestView,
    base_url: Seq<char>,
    step: ShortenStepView,
    candidates: Seq<Seq<char>>,
    id: int,
    created_at: Seq<char>,
)
    requires
        step is Insert,
        step->Insert_0.number >= 1,
    ensures
        ({
            let attempt = step->Insert_0;
            let run = run_from(store, request, base_url, step, candidates, id, created_at);
            &&& 1 <= run.insertions <= insertions_left(step)
            &&& match run.result {
                Ok(response) => {
                    &&& !store.holds(response.slug)
                    &&& run.store == store.insert(
                        response.slug,
                        request.url,
                        request.expires_at,
                        id,
                        created_at,
                    )
                    &&& response == created_response(request, response.slug, base_url)
                    &&& response.slug == attempt.slug || (!attempt.custom && exists|k: int|
                        attempt.number <= k < MAX_ATTEMPTS && response.slug == candidates[k])
                },
                Err(error) => {
                    &&& run.store == store
                    &&& store.holds(attempt.slug)
                    &&& attempt.custom ==> error == ShortenError::Conflict
                    &&& !attempt.custom ==> error == ShortenError::AllocationExhausted
                        && run.insertions == insertions_left(step)
                },
            }
        }),
    decreases insertions_left(step),
{
    reveal_with_fuel(run_from, 2);
    let attempt = step->Insert_0;
    let outcome = store.insert_answer(attempt.slug);
    if outcome == InsertOutcome::UniqueViolation && !attempt.custom && attempt.number
        < MAX_ATTEMPTS {
        let candidate = candidates[attempt.number as int];
        let next = next_step(request, attempt, outcome, candidate, base_url);
        lemma_run(store, request, base_url, next, candidates, id, created_at);
        let rest = run_from(store, request, base_url, next, candidates, id, created_at);
        if let Ok(response) = rest.result {
            if response.slug != candidate {
                let k = choose|k: int|
                    attempt.number + 1 <= k < MAX_ATTEMPTS && response.slug == candidates[k];
                assert(attempt.number <= k < MAX_ATTEMPTS && response.slug == candidates[k]);
            } else {
                let k = attempt.number as int;
                assert(attempt.number <= k < MAX_ATTEMPTS && response.slug == candidates[k]);
            }
        }
    }
}

/// A shorten request ends either with exactly one new record, under a slug
/// that was free, or with an explicit failure that leaves the store as it
/// was. It asks the store for at most `MAX_ATTEMPTS` insertions. A custom slug
/// is never replaced by another: it is persisted as trimmed, or the request
/// fails with a conflict because that slug is taken.
pub proof fn law_one_record_or_explicit_failure(
    store: StoreModel,
    request: CreateUrlRequestView,
    base_url: Seq<char>,
    candidates: Seq<Seq<char>>,
    id: int,
    created_at: Seq<char>,
)
    ensures
        ({
            let run = shorten(store, request, base_url, candidates, id, created_at);
            &&& run.insertions <= MAX_ATTEMPTS
            &&& request.url.len() == 0 <==> run.result == Err::<
                CreateUrlResponseView,
                ShortenError,
            >(ShortenError::EmptyUrl)
            &&& request.url.len() == 0 ==> run.insertions == 0
            &&& match run.result {
                Ok(response) => {
                    &&& !store.holds(response.slug)
                    &&& run.store == store.insert(
                        response.slug,
                        request.url,
                        request.expires_at,
                        id,
                        created_at,
                    )
                    &&& response == created_response(request, response.slug, base_url)
                    &&& request.custom_slug matches Some(custom) ==> response.slug == trimmed(
                        custom,
                    ) && run.insertions == 1
                },
                Err(error) => {
                    &&& run.store == store
                    &&& error != ShortenError::Store
                    &&& error == ShortenError::Conflict <==> request.url.len() > 0
                        && request.custom_slug is Some
                    &&& error == ShortenError::Conflict ==> store.holds(
                        trimmed(request.custom_slug->0),
                    ) && run.insertions == 1
                    &&& error == ShortenError::AllocationExhausted ==> run.insertions
                        == MAX_ATTEMPTS
                },
            }
        }),
{
    reveal_with_fuel(run_from, 2);
    let step = first_step(request, candidates[0]);
    if request.url.len() > 0 {
        lemma_run(store, request, base_url, step, candidates, id, created_at);
    }
}

/// A request without a custom slug, when it succeeds, returns a slug of six
/// symbols of the alphabet, and a later `GET` on that slug redirects to the
/// original URL, unless the record has expired by then or the slug drawn is
/// the reserved path `logout`. Such a request fails only by exhausting its
/// attempts, and then leaves the store as it was.
pub proof fn law_generated_slug_resolves(
    store: StoreModel,
    request: CreateUrlRequestView,
    base_url: Seq<char>,
    candidates: Seq<Seq<char>>,
    id: int,
    created_at: Seq<char>,
    now: Instant,
)
    requires
        request.url.len() > 0,
        request.custom_slug is None,
        candidates_generated(candidates),
    ensures
        ({
            let run = shorten(store, request, base_url, candidates, id, created_at);
            match run.result {
                Ok(response) => {
                    &&& is_generated_slug(response.slug)
                    &&& response.original_url == request.url
                    &&& !expired(request.expires_at, now) && response.slug != "logout"@ ==> get(
                        run.store,
                        response.slug,
                        now,
                    ).served == Served::Resolved(ResolutionView::Redirect(request.url))
                },
                Err(error) => error == ShortenError::AllocationExhausted && run.store == store,
            }
        }),
{
    let step = first_step(request, candidates[0]);
    lemma_run(store, request, base_url, step, candidates, id, created_at);
    let run = shorten(store, request, base_url, candidates, id, created_at);
    if let Ok(response) = run.result {
        assert(is_generated_slug(candidates[0]));
        if response.slug != "logout"@ {
            lemma_generated_slug_routes(response.slug);
        }
    }
}

/// A custom slug that is not yet taken is persisted exactly as trimmed, with
/// one insertion. A second request for the same custom slug is then a
/// conflict and leaves the store, and so the existing record, as it was.
pub proof fn law_custom_slug_persists_then_conflicts(
    store: StoreModel,
    request: CreateUrlRequestView,
    second: CreateUrlRequestView,
    base_url: Seq<char>,
    candidates: Seq<Seq<char>>,
    id: int,
    created_at: Seq<char>,
    second_id: int,
    second_created_at: Seq<char>,
)
    requires
        request.url.len() > 0,
        second.url.len() > 0,
        request.custom_slug is Some,
        second.custom_slug == request.custom_slug,
        !store.holds(trimmed(request.custom_slug->0)),
    ensures
        ({
            let slug = trimmed(request.custom_slug->0);
            let first = shorten(store, request, base_url, candidates, id, created_at);
            let again = shorten(
                first.store,
                second,
                base_url,
                candidates,
                second_id,
                second_created_at,
            );
            &&& first.result == Ok::<CreateUrlResponseView, ShortenError>(
                created_response(request, slug, base_url),
            )
            &&& first.insertions == 1
            &&& first.store == store.insert(slug, request.url, request.expires_at, id, created_at)
            &&& first.store.lookup(slug) matches LookupView::Found(record) && record.slug == slug
                && record.original_url == request.url && record.clicks == 0
            &&& again.result == Err::<CreateUrlResponseView, ShortenError>(ShortenError::Conflict)
            &&& again.insertions == 1
            &&& again.store == first.store
        }),
{
    reveal_with_fuel(run_from, 3);
}

/// A `GET` on a slug whose expiry is a timestamp strictly before now is
/// answered as gone; no click is counted and the record stays in place.
pub proof fn law_expired_is_gone(store: StoreModel, slug: Seq<char>, now: Instant)
    requires
        route_of(slug) == Route::Lookup,
        store.lookup(slug) matches LookupView::Found(record) && expired(record.expires_at, now),
    ensures
        get(store, slug, now).served == Served::Resolved(ResolutionView::Gone),
        !resolution(store.lookup(slug), now).counts_click(),
        get(store, slug, now).store == store,
{
}

/// A `GET` on a slug without an expiry, or with one that has not passed,
/// redirects to the record's URL and counts exactly one click: the clicks of
/// that record grow by one and nothing else in the store changes.
pub proof fn law_redirect_counts_one_click(store: StoreModel, slug: Seq<char>, now: Instant)
    requires
        route_of(slug) == Route::Lookup,
        store.lookup(slug) matches LookupView::Found(record) && !expired(record.expires_at, now),
    ensures
        ({
            let record = store.records[slug];
            let run = get(store, slug, now);
            &&& run.served == Served::Resolved(ResolutionView::Redirect(record.original_url))
            &&& run.store.holds(slug)
            &&& run.store.records[slug].clicks == record.clicks + 1
            &&& run.store.records[slug] == (crate::models::UrlRecordView {
                clicks: record.clicks + 1,
                ..record
            })
            &&& forall|other: Seq<char>|
                other != slug ==> run.store.lookup(other) == store.lookup(other)
        }),
{
}

/// A `GET` on a path with a `.`, or on a slug that no record has, is answered
/// as not found, counts no click and leaves the store as it was.
pub proof fn law_unknown_or_dotted_is_not_found(store: StoreModel, path: Seq<char>, now: Instant)
    requires
        path.contains('.') || (route_of(path) == Route::Lookup && !store.holds(path)),
    ensures
        path.contains('.') ==> get(store, path, now).served == Served::NotFound,
        !path.contains('.') ==> get(store, path, now).served == Served::Resolved(
            ResolutionView::NotFound,
        ),
        route_of(path) == Route::Lookup ==> !resolution(store.lookup(path), now).counts_click(),
        get(store, path, now).store == store,
{
}

/// When every slug that is drawn is taken, a request without a custom slug
/// fails with allocation exhaustion after exactly `MAX_ATTEMPTS` insertions,
/// and the store is as it was.
pub proof fn law_collisions_exhaust_attempts(
    store: StoreModel,
    request: CreateUrlRequestView,
    base_url: Seq<char>,
    candidates: Seq<Seq<char>>,
    id: int,
    created_at: Seq<char>,
)
    requires
        request.url.len() > 0,
        request.custom_slug is None,
        candidates.len() >= MAX_ATTEMPTS,
        forall|i: int| 0 <= i < MAX_ATTEMPTS ==> store.holds(#[trigger] candidates[i]),
    ensures
        ({
            let run = shorten(store, request, base_url, candidates, id, created_at);
            &&& run.result == Err::<CreateUrlResponseView, ShortenError>(
                ShortenError::AllocationExhausted,
            )
            &&& run.insertions == MAX_ATTEMPTS
            &&& run.store == store
        }),
{
    reveal_with_fuel(run_from, 7);
    assert(store.holds(candidates[0]));
    assert(store.holds(candidates[1]));
    assert(store.holds(candidates[2]));
    assert(store.holds(candidates[3]));
    assert(store.holds(candidates[4]));
}

} // verus!
