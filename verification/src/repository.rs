//! The decisions of the short URL repository.
//!
//! Reading, saving and cleaning up talk to a database; the library decides
//! what to do at each step from what the database answered, and what to give
//! back.  A caller runs the steps: it performs the database work that an
//! action names and hands the answer to the next decision.
//!
//! The table is modelled as a map from identifiers to rows; `run_save`,
//! `run_retrieve` and `run_cleanup` compose the decisions with a table that
//! answers faithfully, and the laws at the end of this file are stated over
//! them.  The table keeps expirations in whole Unix seconds: a row is written
//! with its expiration rounded down to the second (`stored_expiration`), and
//! the row that an insert gives back is the row as written.

use vstd::prelude::*;

use crate::expiration::{expiration_accepts, MAX_TTL_NANOS};
use crate::long_url::{is_normal_url, url_serialization};
use crate::short_id::is_valid_short_id;
use crate::short_url::{
    conversion_error_matches, stored_to_view, ShortUrl, ShortUrlConversionError, ShortUrlView,
    StoredUrl, StoredUrlView,
};
use crate::clock::is_clock_reading;
use crate::timestamp::Timestamp;

verus! {

/// `expiration` has passed at `now`.
pub open spec fn is_expired_at(expiration: int, now: int) -> bool {
    expiration < now
}

/// Whether an entry expiring at `expiration` has expired at `now`.  An entry
/// is still live at the very instant of its expiration.
pub fn is_expired(expiration: Timestamp, now: Timestamp) -> (r: bool)
    ensures
        r == is_expired_at(expiration@, now@),
{
    expiration.unix_nanos() < now.unix_nanos()
}

/// The optional row, as mathematical values.
pub open spec fn opt_row_view(found: Option<StoredUrl>) -> Option<StoredUrlView> {
    match found {
        Some(row) => Some(row@),
        None => None,
    }
}

// ---------------------------------------------------------------------------
// Reading

/// What reading an entry gives, given the row that the table holds for the
/// identifier (if any), the instant `now_check` at which expiry is judged and
/// the instant `now_convert` at which the row is converted: nothing for no row
/// or an expired row, the short URL for a live row, and `None` (a failure)
/// when a live row does not convert.
pub open spec fn retrieve_outcome(
    found: Option<StoredUrlView>,
    now_check: int,
    now_convert: int,
) -> Option<Option<ShortUrlView>> {
    match found {
        None => Some(None),
        Some(row) => if is_expired_at(row.expiration, now_check) {
            Some(None)
        } else {
            match stored_to_view(row, now_convert) {
                Some(u) => Some(Some(u)),
                None => None,
            }
        },
    }
}

/// `r` is what reading gives for `found` at the two instants.
pub open spec fn retrieve_matches(
    r: Result<Option<ShortUrl>, ShortUrlConversionError>,
    found: Option<StoredUrlView>,
    now_check: int,
    now_convert: int,
) -> bool {
    match r {
        Ok(None) => retrieve_outcome(found, now_check, now_convert) == Some(None::<ShortUrlView>),
        Ok(Some(u)) => retrieve_outcome(found, now_check, now_convert) == Some(Some(u@)),
        Err(e) => {
            &&& retrieve_outcome(found, now_check, now_convert) is None
            &&& found matches Some(row)
            &&& conversion_error_matches(e, row, now_convert)
        },
    }
}

/// Decides the answer to a read, given the row found for the identifier:
/// expired rows are treated as absent, live rows are converted at
/// `now_convert`.
pub fn retrieve_found_at(found: Option<StoredUrl>, now_check: Timestamp, now_convert: Timestamp) -> (r:
    Result<Option<ShortUrl>, ShortUrlConversionError>)
    ensures
        retrieve_matches(r, opt_row_view(found), now_check@, now_convert@),
        r matches Ok(Some(u)) ==> !is_expired_at(u@.expiration, now_check@) && !is_expired_at(
            u@.expiration,
            now_convert@,
        ),
{
    match found {
        None => Ok(None),
        Some(row) => {
            if is_expired(row.expiration_time, now_check) {
                Ok(None)
            } else {
                match ShortUrl::try_from_at(row, now_convert) {
                    Ok(u) => Ok(Some(u)),
                    Err(e) => Err(e),
                }
            }
        },
    }
}

/// Decides the answer to a read, given the row found for the identifier:
/// `retrieve_found_at` with two readings of the clock, one to judge expiry
/// and one to convert a live row.
pub fn retrieve_found(found: Option<StoredUrl>) -> (r: Result<Option<ShortUrl>, ShortUrlConversionError>)
    ensures
        exists|now_check: int, now_convert: int|
            is_clock_reading(now_check) && is_clock_reading(now_convert) && #[trigger]
            retrieve_matches(r, opt_row_view(found), now_check, now_convert),
{
    let now_check = Timestamp::now();
    let now_convert = Timestamp::now();
    let r = retrieve_found_at(found, now_check, now_convert);
    assert(retrieve_matches(r, opt_row_view(found), now_check@, now_convert@));
    r
}

// ---------------------------------------------------------------------------
// Saving

/// The database step that failed.
#[derive(Clone, Copy, Debug, PartialEq, Eq, Structural)]
pub enum DbStage {
    QueryExisting,
    DeleteExpired,
    InsertNew,
    Transaction,
}

/// A failure that is not the caller's doing.
#[derive(Debug)]
pub enum InternalError {
    /// The live row already stored under the identifier does not convert.
    ConvertExisting(ShortUrlConversionError),
    /// The row that the database gave back after inserting does not convert.
    ConvertInserted(ShortUrlConversionError),
    /// The database refused a step; `detail` is its own description.
    Database { stage: DbStage, detail: String },
}

/// Why a short URL was not saved.
#[derive(Debug)]
pub enum SaveUrlError {
    /// A live entry already holds the identifier; it is given back.
    ItemAlreadyExists(Box<ShortUrl>),
    Internal(InternalError),
}

/// What the caller does after looking up the identifier being saved.
#[derive(Debug)]
pub enum SaveAction {
    /// Stop and roll the transaction back with this error.
    Abort(SaveUrlError),
    /// Insert the row, then commit.
    Insert(StoredUrl),
    /// Delete the expired row stored under `expired_id`, insert `row`, then
    /// commit.
    ReplaceExpired { expired_id: String, row: StoredUrl },
}

/// The decision after looking up the identifier, as mathematical values.
pub enum SaveDecision {
    /// A live entry converts to this short URL: refuse.
    Conflict(ShortUrlView),
    /// A live entry does not convert: fail.
    ConvertFailed,
    /// The identifier is free: insert.
    Insert,
    /// The entry under this identifier has expired: delete it, then insert.
    Replace(Seq<char>),
}

/// The decision for saving `to_insert` when the table holds `existing` under
/// its identifier, expiry being judged at `now_check` and an existing live row
/// being converted at `now_convert`.
pub open spec fn save_decision(
    existing: Option<StoredUrlView>,
    now_check: int,
    now_convert: int,
) -> SaveDecision {
    match existing {
        None => SaveDecision::Insert,
        Some(old) => if is_expired_at(old.expiration, now_check) {
            SaveDecision::Replace(old.id)
        } else {
            match stored_to_view(old, now_convert) {
                Some(u) => SaveDecision::Conflict(u),
                None => SaveDecision::ConvertFailed,
            }
        },
    }
}

/// `a` is the action that carries out the decision for saving `to_insert`.
pub open spec fn save_action_matches(
    a: SaveAction,
    to_insert: StoredUrlView,
    existing: Option<StoredUrlView>,
    now_check: int,
    now_convert: int,
) -> bool {
    match save_decision(existing, now_check, now_convert) {
        SaveDecision::Insert => a matches SaveAction::Insert(row) && row@ == to_insert,
        SaveDecision::Replace(id) => {
            &&& a matches SaveAction::ReplaceExpired { expired_id, row }
            &&& expired_id@ == id
            &&& row@ == to_insert
        },
        SaveDecision::Conflict(u) => {
            &&& a matches SaveAction::Abort(SaveUrlError::ItemAlreadyExists(b))
            &&& (*b)@ == u
        },
        SaveDecision::ConvertFailed => {
            &&& a matches SaveAction::Abort(
                SaveUrlError::Internal(InternalError::ConvertExisting(e)),
            )
            &&& existing matches Some(old)
            &&& conversion_error_matches(e, old, now_convert)
        },
    }
}

/// `r` is the end of a save whose transaction committed `inserted`, converted
/// at `now`.
pub open spec fn save_finish_matches(
    r: Result<ShortUrl, SaveUrlError>,
    inserted: StoredUrlView,
    now: int,
) -> bool {
    match r {
        Ok(u) => stored_to_view(inserted, now) == Some(u@),
        Err(e) => {
            &&& stored_to_view(inserted, now) is None
            &&& e matches SaveUrlError::Internal(InternalError::ConvertInserted(ce))
            &&& conversion_error_matches(ce, inserted, now)
        },
    }
}

/// The row that saving `short_url` writes.
pub fn save_begin(short_url: ShortUrl) -> (r: StoredUrl)
    ensures
        r@ == short_url_row(short_url@),
        is_valid_short_id(short_url@.short_id),
        is_normal_url(short_url@.url),
{
    short_url.to_stored()
}

/// Decides, inside the transaction, what saving `to_insert` does once the
/// row stored under its identifier (if any) is known: insert when there is
/// none, replace an expired one, and refuse when a live one exists, giving it
/// back.
pub fn save_on_existing_at(
    to_insert: StoredUrl,
    existing: Option<StoredUrl>,
    now_check: Timestamp,
    now_convert: Timestamp,
) -> (r: SaveAction)
    ensures
        save_action_matches(r, to_insert@, opt_row_view(existing), now_check@, now_convert@),
{
    match existing {
        None => SaveAction::Insert(to_insert),
        Some(old) => {
            if is_expired(old.expiration_time, now_check) {
                SaveAction::ReplaceExpired { expired_id: old.id, row: to_insert }
            } else {
                match ShortUrl::try_from_at(old, now_convert) {
                    Ok(u) => SaveAction::Abort(SaveUrlError::ItemAlreadyExists(Box::new(u))),
                    Err(e) => SaveAction::Abort(
                        SaveUrlError::Internal(InternalError::ConvertExisting(e)),
                    ),
                }
            }
        },
    }
}

/// Decides what saving `to_insert` does once the row stored under its
/// identifier (if any) is known: `save_on_existing_at` with two readings of
/// the clock, one to judge expiry and one to convert a live row.
pub fn save_on_existing(to_insert: StoredUrl, existing: Option<StoredUrl>) -> (r: SaveAction)
    ensures
        exists|now_check: int, now_convert: int|
            is_clock_reading(now_check) && is_clock_reading(now_convert) && #[trigger]
            save_action_matches(r, to_insert@, opt_row_view(existing), now_check, now_convert),
{
    let ghost ins = to_insert@;
    let ghost old = opt_row_view(existing);
    let now_check = Timestamp::now();
    let now_convert = Timestamp::now();
    let r = save_on_existing_at(to_insert, existing, now_check, now_convert);
    assert(save_action_matches(r, ins, old, now_check@, now_convert@));
    r
}

/// Ends a save whose transaction committed: converts the row that the
/// database gave back after inserting, at the instant `now`.
pub fn save_finish_at(inserted: StoredUrl, now: Timestamp) -> (r: Result<ShortUrl, SaveUrlError>)
    ensures
        save_finish_matches(r, inserted@, now@),
{
    match ShortUrl::try_from_at(inserted, now) {
        Ok(u) => Ok(u),
        Err(e) => Err(SaveUrlError::Internal(InternalError::ConvertInserted(e))),
    }
}

/// Ends a save whose transaction committed: converts the row that the
/// database gave back after inserting: `save_finish_at` at the current
/// instant.
pub fn save_finish(inserted: StoredUrl) -> (r: Result<ShortUrl, SaveUrlError>)
    ensures
        exists|now: int| is_clock_reading(now) && #[trigger] save_finish_matches(r, inserted@, now),
{
    let ghost ins = inserted@;
    let now = Timestamp::now();
    let r = save_finish_at(inserted, now);
    assert(save_finish_matches(r, ins, now@));
    r
}

// ---------------------------------------------------------------------------
// Laws of the single decisions

/// A read of an identifier with no row gives nothing.
pub proof fn lemma_read_absent(
    r: Result<Option<ShortUrl>, ShortUrlConversionError>,
    now_check: int,
    now_convert: int,
)
    requires
        retrieve_matches(r, None, now_check, now_convert),
    ensures
        r matches Ok(None),
{
}

/// A read hides a row whose expiration is before the instant at which expiry
/// is judged.
pub proof fn lemma_read_hides_expired(
    r: Result<Option<ShortUrl>, ShortUrlConversionError>,
    row: StoredUrlView,
    now_check: int,
    now_convert: int,
)
    requires
        retrieve_matches(r, Some(row), now_check, now_convert),
        row.expiration < now_check,
    ensures
        r matches Ok(None),
{
}

/// A read gives the short URL of a live row: with a good identifier and URL,
/// an expiration not before the instant expiry is judged at, and acceptable at
/// the instant of conversion (not before it, at most ten years of 365 days
/// after it), the result is the row's identifier, normalized URL and
/// expiration.
pub proof fn lemma_read_gives_live_row(
    r: Result<Option<ShortUrl>, ShortUrlConversionError>,
    row: StoredUrlView,
    now_check: int,
    now_convert: int,
)
    requires
        retrieve_matches(r, Some(row), now_check, now_convert),
        is_valid_short_id(row.id),
        url_serialization(row.long_url) is Some,
        now_check <= row.expiration,
        now_convert <= row.expiration <= now_convert + 3650 * 86_400_000_000_000,
    ensures
        r matches Ok(Some(u)) && u@ == (ShortUrlView {
            short_id: row.id,
            url: url_serialization(row.long_url)->0,
            expiration: row.expiration,
        }),
{
}

/// Saving into a free identifier inserts exactly the row being saved.
pub proof fn lemma_save_inserts_when_free(
    a: SaveAction,
    to_insert: StoredUrlView,
    now_check: int,
    now_convert: int,
)
    requires
        save_action_matches(a, to_insert, None, now_check, now_convert),
    ensures
        a matches SaveAction::Insert(row) && row@ == to_insert,
{
}

/// Saving never replaces a live entry: when the existing row's expiration is
/// not before the instant expiry is judged at, the save is aborted, whatever
/// the new row holds.
pub proof fn lemma_save_never_replaces_live(
    a: SaveAction,
    to_insert: StoredUrlView,
    existing: StoredUrlView,
    now_check: int,
    now_convert: int,
)
    requires
        save_action_matches(a, to_insert, Some(existing), now_check, now_convert),
        now_check <= existing.expiration,
    ensures
        a is Abort,
{
}

/// Refusing a live entry hands it back: when the existing row is live and
/// converts, the save is aborted with that entry's short URL.
pub proof fn lemma_save_returns_live_entry(
    a: SaveAction,
    to_insert: StoredUrlView,
    existing: StoredUrlView,
    now_check: int,
    now_convert: int,
)
    requires
        save_action_matches(a, to_insert, Some(existing), now_check, now_convert),
        now_check <= existing.expiration,
        is_valid_short_id(existing.id),
        url_serialization(existing.long_url) is Some,
        now_convert <= existing.expiration <= now_convert + 3650 * 86_400_000_000_000,
    ensures
        a matches SaveAction::Abort(SaveUrlError::ItemAlreadyExists(b)) && (*b)@ == (ShortUrlView {
            short_id: existing.id,
            url: url_serialization(existing.long_url)->0,
            expiration: existing.expiration,
        }),
{
}

/// Saving over an entry that has expired replaces it: the expired row is
/// deleted by its identifier and the new row is inserted unchanged.
pub proof fn lemma_save_replaces_expired(
    a: SaveAction,
    to_insert: StoredUrlView,
    existing: StoredUrlView,
    now_check: int,
    now_convert: int,
)
    requires
        save_action_matches(a, to_insert, Some(existing), now_check, now_convert),
        existing.expiration < now_check,
    ensures
        a matches SaveAction::ReplaceExpired { expired_id, row } && expired_id@ == existing.id
            && row@ == to_insert,
{
}

// ---------------------------------------------------------------------------
// The table, and the laws

/// The row that the table `t` holds under `id`, if any.
pub open spec fn table_find(t: Map<Seq<char>, StoredUrlView>, id: Seq<char>) -> Option<
    StoredUrlView,
> {
    if t.contains_key(id) {
        Some(t[id])
    } else {
        None
    }
}

/// Every row of `t` is stored under its own identifier.
pub open spec fn table_wf(t: Map<Seq<char>, StoredUrlView>) -> bool {
    forall|k: Seq<char>| #[trigger] t.contains_key(k) ==> t[k].id == k
}

/// How a save ended, as mathematical values.
pub enum SaveOutcome {
    /// Saved; the short URL that the inserted row converts to.
    Saved(ShortUrlView),
    /// Refused; the live short URL already stored under the identifier.
    Exists(ShortUrlView),
    /// Failed.
    Failed,
}

/// The row that saving the short URL `u` writes (see `save_begin`).
pub open spec fn short_url_row(u: ShortUrlView) -> StoredUrlView {
    StoredUrlView { id: u.short_id, long_url: u.url, expiration: u.expiration }
}

/// Nanoseconds in one second.
pub open spec fn nanos_per_second() -> int {
    1_000_000_000
}

/// The expiration that the table keeps for `expiration`: rounded down to a
/// whole Unix second.
pub open spec fn stored_expiration(expiration: int) -> int {
    expiration - expiration % nanos_per_second()
}

/// The row that the table keeps when `row` is written.
pub open spec fn as_written(row: StoredUrlView) -> StoredUrlView {
    StoredUrlView { expiration: stored_expiration(row.expiration), ..row }
}

/// Committing `row` into `t`, then converting the row as written at `now`.
pub open spec fn commit_save(t: Map<Seq<char>, StoredUrlView>, row: StoredUrlView, now: int) -> (
    Map<Seq<char>, StoredUrlView>,
    SaveOutcome,
) {
    let written = as_written(row);
    let after = t.insert(row.id, written);
    match stored_to_view(written, now) {
        Some(u) => (after, SaveOutcome::Saved(u)),
        None => (after, SaveOutcome::Failed),
    }
}

/// A whole save of `row` against the table `t`: look up its identifier, then
/// act on `save_decision` (an aborted transaction leaves `t` as it was), and
/// convert the inserted row at `now_finish`.
pub open spec fn run_save(
    t: Map<Seq<char>, StoredUrlView>,
    row: StoredUrlView,
    now_check: int,
    now_convert: int,
    now_finish: int,
) -> (Map<Seq<char>, StoredUrlView>, SaveOutcome) {
    match save_decision(table_find(t, row.id), now_check, now_convert) {
        SaveDecision::Conflict(u) => (t, SaveOutcome::Exists(u)),
        SaveDecision::ConvertFailed => (t, SaveOutcome::Failed),
        SaveDecision::Insert => commit_save(t, row, now_finish),
        SaveDecision::Replace(old_id) => commit_save(t.remove(old_id), row, now_finish),
    }
}

/// A whole read of `id` from the table `t`.
pub open spec fn run_retrieve(
    t: Map<Seq<char>, StoredUrlView>,
    id: Seq<char>,
    now_check: int,
    now_convert: int,
) -> Option<Option<ShortUrlView>> {
    retrieve_outcome(table_find(t, id), now_check, now_convert)
}

/// The table after deleting every row that has expired at `cutoff`.  The
/// table compares in whole seconds: the cutoff is taken rounded down to its
/// second, like the expirations it holds, so a row that expired less than a
/// second before `cutoff` may stay.
pub open spec fn run_cleanup(t: Map<Seq<char>, StoredUrlView>, cutoff: int) -> Map<
    Seq<char>,
    StoredUrlView,
> {
    Map::new(
        |k: Seq<char>|
            t.contains_key(k) && !is_expired_at(t[k].expiration, stored_expiration(cutoff)),
        |k: Seq<char>| t[k],
    )
}

/// Read after write: once a save has succeeded, reading the identifier at
/// any later instants up to the expiration gives back exactly the short URL
/// that the save returned.
pub proof fn lemma_retrieve_after_save(
    t: Map<Seq<char>, StoredUrlView>,
    row: StoredUrlView,
    now_check: int,
    now_convert: int,
    now_finish: int,
    saved: ShortUrlView,
    read_check: int,
    read_convert: int,
)
    requires
        run_save(t, row, now_check, now_convert, now_finish).1 == SaveOutcome::Saved(saved),
        now_finish <= read_check <= read_convert <= saved.expiration,
    ensures
        run_retrieve(
            run_save(t, row, now_check, now_convert, now_finish).0,
            row.id,
            read_check,
            read_convert,
        ) == Some(Some(saved)),
{
    let after = run_save(t, row, now_check, now_convert, now_finish).0;
    let written = as_written(row);
    assert(after.contains_key(row.id) && after[row.id] == written);
    assert(stored_to_view(written, now_finish) == Some(saved));
    assert(expiration_accepts(written.expiration, read_convert));
}

/// Saving is idempotent: saving the same row again, after a successful save
/// and before it expires, changes nothing and reports the entry that the first
/// save returned as already existing.
pub proof fn lemma_save_is_idempotent(
    t: Map<Seq<char>, StoredUrlView>,
    row: StoredUrlView,
    now_check: int,
    now_convert: int,
    now_finish: int,
    saved: ShortUrlView,
    again_check: int,
    again_convert: int,
    again_finish: int,
)
    requires
        run_save(t, row, now_check, now_convert, now_finish).1 == SaveOutcome::Saved(saved),
        now_finish <= again_check <= again_convert <= saved.expiration,
    ensures
        ({
            let after = run_save(t, row, now_check, now_convert, now_finish).0;
            run_save(after, row, again_check, again_convert, again_finish) == (
                after,
                SaveOutcome::Exists(saved),
            )
        }),
{
    let after = run_save(t, row, now_check, now_convert, now_finish).0;
    let written = as_written(row);
    assert(table_find(after, row.id) == Some(written));
    assert(stored_to_view(written, now_finish) == Some(saved));
    assert(expiration_accepts(written.expiration, again_convert));
}

/// A successful save returns the row's identifier, its expiration rounded
/// down to the whole second, and the normal form of its long URL.
pub proof fn lemma_saved_reflects_row(
    t: Map<Seq<char>, StoredUrlView>,
    row: StoredUrlView,
    now_check: int,
    now_convert: int,
    now_finish: int,
    saved: ShortUrlView,
)
    requires
        run_save(t, row, now_check, now_convert, now_finish).1 == SaveOutcome::Saved(saved),
    ensures
        saved.short_id == row.id,
        saved.expiration == stored_expiration(row.expiration),
        url_serialization(row.long_url) == Some(saved.url),
        expiration_accepts(stored_expiration(row.expiration), now_finish),
{
}

/// A live entry is never overwritten: when the table holds an unexpired row
/// under the identifier, a save leaves the table unchanged and does not
/// succeed.
pub proof fn lemma_live_entry_kept(
    t: Map<Seq<char>, StoredUrlView>,
    row: StoredUrlView,
    now_check: int,
    now_convert: int,
    now_finish: int,
)
    requires
        t.contains_key(row.id),
        !is_expired_at(t[row.id].expiration, now_check),
    ensures
        run_save(t, row, now_check, now_convert, now_finish).0 == t,
        !(run_save(t, row, now_check, now_convert, now_finish).1 is Saved),
{
}

/// A save touches no other identifier: every other row stays as it was, the
/// saved identifier ends up holding the new row as written or its previous
/// row, and rows stay stored under their own identifiers.
pub proof fn lemma_save_touches_only_its_key(
    t: Map<Seq<char>, StoredUrlView>,
    row: StoredUrlView,
    now_check: int,
    now_convert: int,
    now_finish: int,
)
    requires
        table_wf(t),
    ensures
        ({
            let after = run_save(t, row, now_check, now_convert, now_finish).0;
            &&& table_wf(after)
            &&& forall|k: Seq<char>|
                k != row.id ==> (#[trigger] after.contains_key(k) == t.contains_key(k)) && (
                t.contains_key(k) ==> after[k] == t[k])
            &&& (after.contains_key(row.id) && after[row.id] == as_written(row)) || after == t
        }),
{
    let after = run_save(t, row, now_check, now_convert, now_finish).0;
    match save_decision(table_find(t, row.id), now_check, now_convert) {
        SaveDecision::Replace(old_id) => {
            assert(old_id == row.id);
            assert(after =~= t.remove(old_id).insert(row.id, as_written(row)));
        },
        _ => {},
    }
}

/// A save writes its row when the identifier is free or its entry has
/// expired: the table then holds the row as written under the identifier and
/// is otherwise unchanged.
pub proof fn lemma_free_or_expired_slot_written(
    t: Map<Seq<char>, StoredUrlView>,
    row: StoredUrlView,
    now_check: int,
    now_convert: int,
    now_finish: int,
)
    requires
        table_wf(t),
        t.contains_key(row.id) ==> is_expired_at(t[row.id].expiration, now_check),
    ensures
        run_save(t, row, now_check, now_convert, now_finish).0 == t.insert(row.id, as_written(row)),
{
    if t.contains_key(row.id) {
        assert(t.remove(row.id).insert(row.id, as_written(row)) =~= t.insert(
            row.id,
            as_written(row),
        ));
    }
}

/// Saving the same short URL twice: for a valid short URL (valid identifier,
/// long URL in normal form) whose expiration is a whole second, a successful
/// save returns that short URL itself, and saving it again before it expires
/// changes nothing and reports that same short URL as already existing.
pub proof fn lemma_save_short_url_is_idempotent(
    t: Map<Seq<char>, StoredUrlView>,
    u: ShortUrlView,
    now_check: int,
    now_convert: int,
    now_finish: int,
    again_check: int,
    again_convert: int,
    again_finish: int,
)
    requires
        is_valid_short_id(u.short_id),
        is_normal_url(u.url),
        u.expiration % nanos_per_second() == 0,
        run_save(t, short_url_row(u), now_check, now_convert, now_finish).1 is Saved,
        now_finish <= again_check <= again_convert <= u.expiration,
    ensures
        run_save(t, short_url_row(u), now_check, now_convert, now_finish).1 == SaveOutcome::Saved(
            u,
        ),
        ({
            let after = run_save(t, short_url_row(u), now_check, now_convert, now_finish).0;
            run_save(after, short_url_row(u), again_check, again_convert, again_finish) == (
                after,
                SaveOutcome::Exists(u),
            )
        }),
{
    let row = short_url_row(u);
    let saved = run_save(t, row, now_check, now_convert, now_finish).1->Saved_0;
    lemma_saved_reflects_row(t, row, now_check, now_convert, now_finish, saved);
    assert(saved == u);
    lemma_save_is_idempotent(
        t,
        row,
        now_check,
        now_convert,
        now_finish,
        saved,
        again_check,
        again_convert,
        again_finish,
    );
}

/// Cleanup cannot be observed by reads: deleting the rows expired at `cutoff`
/// changes no read made at or after `cutoff`.
pub proof fn lemma_cleanup_unobservable(
    t: Map<Seq<char>, StoredUrlView>,
    cutoff: int,
    id: Seq<char>,
    read_check: int,
    read_convert: int,
)
    requires
        cutoff <= read_check,
    ensures
        run_retrieve(run_cleanup(t, cutoff), id, read_check, read_convert) == run_retrieve(
            t,
            id,
            read_check,
            read_convert,
        ),
{
}

/// Cleanup deletes exactly the rows expired at `cutoff` rounded down to its
/// second, and keeps every other row as it was.
pub proof fn lemma_cleanup_keeps_live_rows(t: Map<Seq<char>, StoredUrlView>, cutoff: int)
    ensures
        forall|k: Seq<char>| #[trigger]
            run_cleanup(t, cutoff).contains_key(k) <==> (t.contains_key(k) && !is_expired_at(
                t[k].expiration,
                stored_expiration(cutoff),
            )),
        forall|k: Seq<char>| #[trigger]
            run_cleanup(t, cutoff).contains_key(k) ==> run_cleanup(t, cutoff)[k] == t[k],
{
}

} // verus!
