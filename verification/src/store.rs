//! The URL store as the service sees it: what it answers to an insertion and
//! to a lookup, and a mathematical model of its contents.
//!
//! The store itself is a database outside this library. Uniqueness of slugs is
//! its responsibility: the coordinator never checks before it inserts, it
//! reacts to the violation that the store reports. The model says what the
//! service relies on: one record per slug, ids that are never reused, clicks
//! that only grow, and slug and URL fixed at insertion.

use crate::models::{UrlRecord, UrlRecordView};
use vstd::prelude::*;
use vstd::string::*;

verus! {

/// What the store answered to an insertion.
#[derive(Clone, Copy, Debug, PartialEq, Eq, Structural)]
pub enum InsertOutcome {
    /// The record was written.
    Inserted,
    /// A record with this slug exists already; nothing was written.
    UniqueViolation,
    /// The store failed for another reason; nothing was written.
    Failed,
}

/// What the store answered to a lookup by slug.
#[derive(Debug)]
pub enum Lookup {
    Found(UrlRecord),
    Missing,
    Failed,
}

/// Mathematical view of a [`Lookup`].
pub enum LookupView {
    Found(UrlRecordView),
    Missing,
    Failed,
}

impl View for Lookup {
    type V = LookupView;

    open spec fn view(&self) -> LookupView {
        match self {
            Lookup::Found(record) => LookupView::Found(record@),
            Lookup::Missing => LookupView::Missing,
            Lookup::Failed => LookupView::Failed,
        }
    }
}

/// `sqlx::Error`, the error type of the database driver. Its contents are
/// hidden from the library.
#[verifier::external_type_specification]
#[verifier::external_body]
pub struct ExDriverError(sqlx::Error);

/// `sqlx::Error::as_database_error` followed by
/// `DatabaseError::is_unique_violation`: whether the database itself refused
/// the statement because a unique or primary-key constraint forbids it. What
/// it answers depends on the error's hidden contents, so nothing is claimed.
#[verifier::external_body]
fn is_unique_violation(error: &sqlx::Error) -> (yes: bool) {
    match error.as_database_error() {
        Some(refusal) => refusal.is_unique_violation(),
        None => false,
    }
}

/// The outcome of an insertion that succeeded, or else failed with or without
/// a violation of uniqueness.
pub open spec fn insert_outcome_of(succeeded: bool, unique_violation: bool) -> InsertOutcome {
    if succeeded {
        InsertOutcome::Inserted
    } else if unique_violation {
        InsertOutcome::UniqueViolation
    } else {
        InsertOutcome::Failed
    }
}

/// The outcome of an insertion that succeeded, or else failed with or without
/// a violation of uniqueness.
pub fn insert_outcome(succeeded: bool, unique_violation: bool) -> (outcome: InsertOutcome)
    ensures
        outcome == insert_outcome_of(succeeded, unique_violation),
{
    if succeeded {
        InsertOutcome::Inserted
    } else if unique_violation {
        InsertOutcome::UniqueViolation
    } else {
        InsertOutcome::Failed
    }
}

/// Reads what the driver returned for an insertion. Success is an inserted
/// record; of the errors, the violation of a unique constraint is the
/// collision signal, and every other is a failure of the store.
pub fn classify_insert(result: &Result<(), sqlx::Error>) -> (outcome: InsertOutcome)
    ensures
        result is Ok <==> outcome == InsertOutcome::Inserted,
{
    match result {
        Ok(_) => insert_outcome(true, false),
        Err(error) => insert_outcome(false, is_unique_violation(error)),
    }
}

/// What a lookup result of the driver means.
pub open spec fn lookup_of(result: Result<Option<UrlRecord>, sqlx::Error>) -> LookupView {
    match result {
        Ok(Some(record)) => LookupView::Found(record@),
        Ok(None) => LookupView::Missing,
        Err(_) => LookupView::Failed,
    }
}

/// Reads what the driver returned for a lookup by slug.
pub fn classify_lookup(result: Result<Option<UrlRecord>, sqlx::Error>) -> (lookup: Lookup)
    ensures
        lookup@ == lookup_of(result),
{
    match result {
        Ok(Some(record)) => Lookup::Found(record),
        Ok(None) => Lookup::Missing,
        Err(_) => Lookup::Failed,
    }
}

/// The contents of a store as a mathematical value: its records by slug, so
/// that no two records share a slug.
pub struct StoreModel {
    pub records: Map<Seq<char>, UrlRecordView>,
}

impl StoreModel {
    /// Whether a record with this slug exists.
    pub open spec fn holds(self, slug: Seq<char>) -> bool {
        self.records.dom().contains(slug)
    }

    /// Every record is filed under its own slug, has counted no negative
    /// number of clicks, and shares its id with no other record.
    pub open spec fn well_formed(self) -> bool {
        &&& forall|slug: Seq<char>| #[trigger]
            self.holds(slug) ==> self.records[slug].slug == slug && self.records[slug].clicks >= 0
        &&& forall|a: Seq<char>, b: Seq<char>|
            #![trigger self.holds(a), self.holds(b)]
            self.holds(a) && self.holds(b) && a != b ==> self.records[a].id != self.records[b].id
    }

    /// Whether `id` is larger than every id in use, as a newly assigned id is.
    pub open spec fn is_fresh(self, id: int) -> bool {
        forall|slug: Seq<char>| #[trigger] self.holds(slug) ==> self.records[slug].id < id
    }

    /// What a lookup of `slug` answers when the store is available.
    pub open spec fn lookup(self, slug: Seq<char>) -> LookupView {
        if self.holds(slug) {
            LookupView::Found(self.records[slug])
        } else {
            LookupView::Missing
        }
    }

    /// What an insertion of `slug` answers when the store is available.
    pub open spec fn insert_answer(self, slug: Seq<char>) -> InsertOutcome {
        if self.holds(slug) {
            InsertOutcome::UniqueViolation
        } else {
            InsertOutcome::Inserted
        }
    }

    /// The store after a successful insertion: one more record, with no
    /// clicks, under the id and creation time that the store assigned.
    pub open spec fn insert(
        self,
        slug: Seq<char>,
        original_url: Seq<char>,
        expires_at: Option<Seq<char>>,
        id: int,
        created_at: Seq<char>,
    ) -> StoreModel {
        StoreModel {
            records: self.records.insert(
                slug,
                UrlRecordView { id, slug, original_url, created_at, clicks: 0, expires_at },
            ),
        }
    }

    /// The store after one click on `slug` was counted.
    pub open spec fn increment_clicks(self, slug: Seq<char>) -> StoreModel {
        if self.holds(slug) {
            let record = self.records[slug];
            StoreModel {
                records: self.records.insert(
                    slug,
                    UrlRecordView { clicks: record.clicks + 1, ..record },
                ),
            }
        } else {
            self
        }
    }

    /// The store after the record with this id, if there is one, was deleted.
    pub open spec fn delete(self, id: int) -> StoreModel {
        StoreModel {
            records: self.records.remove_keys(
                Set::new(|slug: Seq<char>| self.holds(slug) && self.records[slug].id == id),
            ),
        }
    }

    /// The store after the expiry of the record with this id, if there is
    /// one, was set or cleared.
    pub open spec fn update_expiry(self, id: int, expires_at: Option<Seq<char>>) -> StoreModel {
        StoreModel {
            records: Map::new(
                |slug: Seq<char>| self.holds(slug),
                |slug: Seq<char>|
                    if self.records[slug].id == id {
                        UrlRecordView { expires_at, ..self.records[slug] }
                    } else {
                        self.records[slug]
                    },
            ),
        }
    }

    /// Whether `later` can follow `self` in the life of a store: every record
    /// that is in both has kept its id, slug, URL and creation time, and has
    /// lost no clicks.
    pub open spec fn precedes(self, later: StoreModel) -> bool {
        forall|slug: Seq<char>|
            #![trigger later.holds(slug)]
            self.holds(slug) && later.holds(slug) ==> {
                let old = self.records[slug];
                let new = later.records[slug];
                &&& new.id == old.id
                &&& new.slug == old.slug
                &&& new.original_url == old.original_url
                &&& new.created_at == old.created_at
                &&& new.clicks >= old.clicks
            }
    }
}

/// Every operation of the store keeps it well formed and leaves the identity
/// of its records alone: an insertion of a new slug under a fresh id, a
/// counted click, a deletion, and a change of expiry. Slug and URL of a record
/// never change, and its clicks never decrease.
pub proof fn law_store_operations_keep_records(
    store: StoreModel,
    slug: Seq<char>,
    original_url: Seq<char>,
    expires_at: Option<Seq<char>>,
    id: int,
    created_at: Seq<char>,
)
    requires
        store.well_formed(),
    ensures
        store.increment_clicks(slug).well_formed(),
        store.precedes(store.increment_clicks(slug)),
        store.delete(id).well_formed(),
        store.precedes(store.delete(id)),
        store.update_expiry(id, expires_at).well_formed(),
        store.precedes(store.update_expiry(id, expires_at)),
        !store.holds(slug) && store.is_fresh(id) ==> store.insert(
            slug,
            original_url,
            expires_at,
            id,
            created_at,
        ).well_formed(),
        !store.holds(slug) ==> store.precedes(
            store.insert(slug, original_url, expires_at, id, created_at),
        ),
{
    let clicked = store.increment_clicks(slug);
    assert forall|s: Seq<char>| #[trigger] clicked.holds(s) implies clicked.records[s].slug == s
        && clicked.records[s].clicks >= 0 by {
        assert(store.holds(s));
    }
    assert forall|a: Seq<char>, b: Seq<char>|
        #![trigger clicked.holds(a), clicked.holds(b)]
        clicked.holds(a) && clicked.holds(b) && a != b implies clicked.records[a].id
        != clicked.records[b].id by {
        assert(store.holds(a) && store.holds(b));
    }
    let deleted = store.delete(id);
    assert forall|s: Seq<char>| #[trigger] deleted.holds(s) implies deleted.records[s].slug == s
        && deleted.records[s].clicks >= 0 by {
        assert(store.holds(s));
    }
    assert forall|a: Seq<char>, b: Seq<char>|
        #![trigger deleted.holds(a), deleted.holds(b)]
        deleted.holds(a) && deleted.holds(b) && a != b implies deleted.records[a].id
        != deleted.records[b].id by {
        assert(store.holds(a) && store.holds(b));
    }
    let updated = store.update_expiry(id, expires_at);
    assert forall|s: Seq<char>| #[trigger] updated.holds(s) implies updated.records[s].slug == s
        && updated.records[s].clicks >= 0 by {
        assert(store.holds(s));
    }
    assert forall|a: Seq<char>, b: Seq<char>|
        #![trigger updated.holds(a), updated.holds(b)]
        updated.holds(a) && updated.holds(b) && a != b implies updated.records[a].id
        != updated.records[b].id by {
        assert(store.holds(a) && store.holds(b));
    }
    if !store.holds(slug) && store.is_fresh(id) {
        let grown = store.insert(slug, original_url, expires_at, id, created_at);
        assert forall|s: Seq<char>| #[trigger] grown.holds(s) implies grown.records[s].slug == s
            && grown.records[s].clicks >= 0 by {
            if s != slug {
                assert(store.holds(s));
            }
        }
        assert forall|a: Seq<char>, b: Seq<char>|
            #![trigger grown.holds(a), grown.holds(b)]
            grown.holds(a) && grown.holds(b) && a != b implies grown.records[a].id
            != grown.records[b].id by {
            if a != slug {
                assert(store.holds(a));
            }
            if b != slug {
                assert(store.holds(b));
            }
        }
    }
}

/// The address under which the database file at `db_path` is opened, created
/// if it does not exist.
pub fn connection_string(db_path: &str) -> (address: String)
    ensures
        address@ == "sqlite:"@ + db_path@ + "?mode=rwc"@,
{
    let mut address = String::from_str("sqlite:");
    address.append(db_path);
    address.append("?mode=rwc");
    address
}

} // verus!
