//! The paste lifecycle: the decisions of create, fetch, delete and the
//! expiration sweep. The stores are driven by the caller, which performs
//! each step that these functions ask for and hands back its outcome.

use vstd::prelude::*;
use crate::clock::{Timestamp, elapsed_seconds, now, outlived, skewed};
use crate::error::AppError;
use crate::models::Paste;
use crate::words::views;

verus! {

/// The metadata store as a map from key to record.
pub type Records = Map<Seq<char>, Paste>;

/// The object store as a map from key to content.
pub type Objects = Map<Seq<char>, Seq<u8>>;

/// The record stored under `key`, if any.
pub open spec fn lookup(records: Records, key: Seq<char>) -> Option<Paste> {
    if records.contains_key(key) {
        Some(records[key])
    } else {
        None
    }
}

/// Whether a record is expired at `now` under an optional threshold; a
/// creation instant in the future is a clock fault.
pub open spec fn expiry(p: Paste, now: Timestamp, expiration_secs: Option<u64>) -> Result<
    bool,
    AppError,
> {
    match expiration_secs {
        None => Ok(false),
        Some(t) => if skewed(p.timestamp, now) {
            Err(AppError::ClockSkew)
        } else {
            Ok(outlived(p.timestamp, now, t))
        },
    }
}

/// Whether the content of a looked-up record may be served: an absent or
/// expired paste is `NotFound`.
pub open spec fn fetch_gate(record: Option<Paste>, now: Timestamp, expiration_secs: Option<u64>) -> Result<
    (),
    AppError,
> {
    match record {
        None => Err(AppError::NotFound),
        Some(p) => match expiry(p, now, expiration_secs) {
            Err(e) => Err(e),
            Ok(true) => Err(AppError::NotFound),
            Ok(false) => Ok(()),
        },
    }
}

/// The result of fetching `key`: `NotFound` for an absent or expired paste
/// and for a record whose object is missing, else the object's bytes.
pub open spec fn fetch_outcome(
    records: Records,
    objects: Objects,
    key: Seq<char>,
    now: Timestamp,
    expiration_secs: Option<u64>,
) -> Result<Seq<u8>, AppError> {
    match fetch_gate(lookup(records, key), now, expiration_secs) {
        Err(e) => Err(e),
        Ok(()) => if objects.contains_key(key) {
            Ok(objects[key])
        } else {
            Err(AppError::NotFound)
        },
    }
}

/// Whether a delete with credential `supplied` may remove the looked-up
/// record: an absent paste is `NotFound`; a paste without a credential is
/// refused whatever is supplied; otherwise a missing credential is
/// `MissingDeleteKey` and a different one `WrongDeleteKey`.
pub open spec fn delete_gate(supplied: Option<Seq<char>>, record: Option<Paste>) -> Result<
    (),
    AppError,
> {
    match record {
        None => Err(AppError::NotFound),
        Some(p) => match p.delete_key {
            None => Err(AppError::WrongDeleteKey),
            Some(k) => match supplied {
                None => Err(AppError::MissingDeleteKey),
                Some(s) => if k@ == s {
                    Ok(())
                } else {
                    Err(AppError::WrongDeleteKey)
                },
            },
        },
    }
}

/// The timestamp of a record is a well-formed instant.
pub open spec fn record_wf(p: Paste) -> bool {
    p.timestamp.wf()
}

/// Whether `paste` is expired at `now` under `expiration_secs`; no threshold
/// means nothing expires. Fails with `ClockSkew` when the paste was created
/// after `now`.
pub fn is_expired(paste: &Paste, now: Timestamp, expiration_secs: Option<u64>) -> (r: Result<
    bool,
    AppError,
>)
    requires
        record_wf(*paste),
        now.wf(),
    ensures
        r == expiry(*paste, now, expiration_secs),
{
    match expiration_secs {
        None => Ok(false),
        Some(t) => is_expired_inner(paste, now, t),
    }
}

/// Whether `paste` has outlived `expiration_secs` seconds at `now`; fails
/// with `ClockSkew` when it was created after `now`.
pub fn is_expired_inner(paste: &Paste, now: Timestamp, expiration_secs: u64) -> (r: Result<
    bool,
    AppError,
>)
    requires
        record_wf(*paste),
        now.wf(),
    ensures
        r == expiry(*paste, now, Some(expiration_secs)),
{
    match elapsed_seconds(paste.timestamp, now) {
        None => Err(AppError::ClockSkew),
        Some(e) => Ok(e > expiration_secs),
    }
}

/// Decides a fetch from the record looked up under its key: `Ok` when the
/// content may be read from the object store.
pub fn check_fetch(record: Option<&Paste>, now: Timestamp, expiration_secs: Option<u64>) -> (r:
    Result<(), AppError>)
    requires
        record matches Some(p) ==> record_wf(*p),
        now.wf(),
    ensures
        r == fetch_gate(
            match record {
                Some(p) => Some(*p),
                None => None,
            },
            now,
            expiration_secs,
        ),
{
    match record {
        None => Err(AppError::NotFound),
        Some(p) => match is_expired(p, now, expiration_secs) {
            Err(e) => Err(e),
            Ok(true) => Err(AppError::NotFound),
            Ok(false) => Ok(()),
        },
    }
}

/// Decides a fetch at the present instant of the system clock.
pub fn check_fetch_now(record: Option<&Paste>, expiration_secs: Option<u64>) -> (r: Result<
    (),
    AppError,
>)
    requires
        record matches Some(p) ==> record_wf(*p),
    ensures
        exists|at: Timestamp|
            at.wf() && r == fetch_gate(
                match record {
                    Some(p) => Some(*p),
                    None => None,
                },
                at,
                expiration_secs,
            ),
{
    let at = now();
    check_fetch(record, at, expiration_secs)
}

/// Decides a delete from the credential supplied and the record looked up
/// under its key: `Ok` when both the record and the object are to be
/// removed. The credentials are compared exactly.
pub fn authorize_delete(supplied: Option<&String>, record: Option<&Paste>) -> (r: Result<
    (),
    AppError,
>)
    ensures
        r == delete_gate(
            match supplied {
                Some(s) => Some(s@),
                None => None,
            },
            match record {
                Some(p) => Some(*p),
                None => None,
            },
        ),
{
    match record {
        None => Err(AppError::NotFound),
        Some(p) => match &p.delete_key {
            None => Err(AppError::WrongDeleteKey),
            Some(k) => match supplied {
                None => Err(AppError::MissingDeleteKey),
                Some(s) => if *k == *s {
                    Ok(())
                } else {
                    Err(AppError::WrongDeleteKey)
                },
            },
        },
    }
}

/// The outcome of a delete once both halves were attempted: a failure to
/// remove the record comes first; an object that is already gone counts as
/// removed.
pub open spec fn delete_settled(record_removed: Result<(), AppError>, object_removed: Result<(), AppError>) -> Result<
    (),
    AppError,
> {
    match record_removed {
        Err(e) => Err(e),
        Ok(()) => match object_removed {
            Ok(()) => Ok(()),
            Err(AppError::NotFound) => Ok(()),
            Err(e) => Err(e),
        },
    }
}

/// Settles an authorized delete (or one record of a sweep) from the
/// outcomes of removing the record and removing the object, both of which
/// the caller attempts.
pub fn finish_delete(record_removed: Result<(), AppError>, object_removed: Result<(), AppError>) -> (r:
    Result<(), AppError>)
    ensures
        r == delete_settled(record_removed, object_removed),
{
    match record_removed {
        Err(e) => Err(e),
        Ok(()) => match object_removed {
            Ok(()) => Ok(()),
            Err(AppError::NotFound) => Ok(()),
            Err(e) => Err(e),
        },
    }
}

/// The next step of a create. The record is inserted first and the content
/// written second; when the write fails the record is removed again, so
/// that no record is left without content.
#[derive(Debug)]
pub enum CreateStep {
    /// Write the uploaded content under the key of `record`.
    Write { record: Paste },
    /// Remove the record of `key`, whose content could not be written, then
    /// report `failure`.
    Undo { key: String, failure: AppError },
    /// The create is over.
    Done(Result<Paste, AppError>),
}

/// Continues a create once the metadata store answered the insert.
pub fn after_insert(inserted: Result<Paste, AppError>) -> (r: CreateStep)
    ensures
        match inserted {
            Ok(p) => r == CreateStep::Write { record: p },
            Err(e) => r == CreateStep::Done(Err(e)),
        },
{
    match inserted {
        Ok(p) => CreateStep::Write { record: p },
        Err(e) => CreateStep::Done(Err(e)),
    }
}

/// Continues a create once the object store answered the write of the
/// content of `record`.
pub fn after_write(record: Paste, written: Result<u64, AppError>) -> (r: CreateStep)
    ensures
        match written {
            Ok(_) => r == CreateStep::Done(Ok(record)),
            Err(e) => r == CreateStep::Undo { key: record.key, failure: e },
        },
{
    match written {
        Ok(_) => CreateStep::Done(Ok(record)),
        Err(e) => CreateStep::Undo { key: record.key, failure: e },
    }
}

/// Ends a create whose write failed, once the record was removed (or its
/// removal failed too): the write's failure is what the create reports.
pub fn after_undo(failure: AppError, undone: Result<(), AppError>) -> (r: CreateStep)
    ensures
        r == CreateStep::Done(Err(failure)),
{
    CreateStep::Done(Err(failure))
}

/// The keys of the records that a sweep at `now` with threshold
/// `expiration_secs` removes, in the order of `records`.
pub open spec fn expired_keys(records: Seq<Paste>, now: Timestamp, expiration_secs: u64) -> Seq<
    Seq<char>,
>
    decreases records.len(),
{
    if records.len() == 0 {
        Seq::empty()
    } else {
        let rest = expired_keys(records.drop_last(), now, expiration_secs);
        if outlived(records.last().timestamp, now, expiration_secs) {
            rest.push(records.last().key@)
        } else {
            rest
        }
    }
}

/// The keys of the records whose creation lies after `now`: clock faults
/// that a sweep reports and leaves in place.
pub open spec fn skewed_keys(records: Seq<Paste>, now: Timestamp) -> Seq<Seq<char>>
    decreases records.len(),
{
    if records.len() == 0 {
        Seq::empty()
    } else {
        let rest = skewed_keys(records.drop_last(), now);
        if skewed(records.last().timestamp, now) {
            rest.push(records.last().key@)
        } else {
            rest
        }
    }
}

/// The records that a sweep leaves in place.
pub open spec fn kept(records: Seq<Paste>, now: Timestamp, expiration_secs: u64) -> Seq<Paste>
    decreases records.len(),
{
    if records.len() == 0 {
        Seq::empty()
    } else {
        let rest = kept(records.drop_last(), now, expiration_secs);
        if outlived(records.last().timestamp, now, expiration_secs) {
            rest
        } else {
            rest.push(records.last())
        }
    }
}

/// Every record has a well-formed timestamp.
pub open spec fn all_wf(records: Seq<Paste>) -> bool {
    forall|i: int| 0 <= i < records.len() ==> record_wf(#[trigger] records[i])
}

/// What a sweep at instant `at` will do: the keys to remove, and the keys of
/// records whose creation lies in the future, which are reported and left
/// alone.
#[derive(Debug)]
pub struct PurgePlan {
    pub at: Timestamp,
    pub expired: Vec<String>,
    pub skewed: Vec<String>,
}

/// Plans a sweep of `records` at `now`: every record older than
/// `expiration_secs` seconds is to be removed.
pub fn plan_purge(records: &Vec<Paste>, now: Timestamp, expiration_secs: u64) -> (r: PurgePlan)
    requires
        all_wf(records@),
        now.wf(),
    ensures
        r.at == now,
        views(r.expired@) == expired_keys(records@, now, expiration_secs),
        views(r.skewed@) == skewed_keys(records@, now),
{
    let mut expired: Vec<String> = Vec::new();
    let mut skewed_list: Vec<String> = Vec::new();
    let mut i: usize = 0;
    while i < records.len()
        invariant
            i <= records@.len(),
            all_wf(records@),
            now.wf(),
            views(expired@) == expired_keys(records@.take(i as int), now, expiration_secs),
            views(skewed_list@) == skewed_keys(records@.take(i as int), now),
        decreases records@.len() - i,
    {
        let p = &records[i];
        proof {
            assert(records@.take(i as int + 1).drop_last() == records@.take(i as int));
            assert(records@.take(i as int + 1).last() == *p);
            assert(record_wf(records@[i as int]));
        }
        match is_expired_inner(p, now, expiration_secs) {
            Ok(true) => {
                expired.push(p.key.clone());
                assert(views(expired@) == views(expired@.drop_last()).push(p.key@));
            },
            Ok(false) => {},
            Err(_) => {
                skewed_list.push(p.key.clone());
                assert(views(skewed_list@) == views(skewed_list@.drop_last()).push(p.key@));
            },
        }
        i = i + 1;
    }
    assert(records@.take(records@.len() as int) == records@);
    PurgePlan { at: now, expired, skewed: skewed_list }
}

/// Plans a sweep of `records` at the present instant of the system clock.
pub fn plan_purge_now(records: &Vec<Paste>, expiration_secs: u64) -> (r: PurgePlan)
    requires
        all_wf(records@),
    ensures
        r.at.wf(),
        views(r.expired@) == expired_keys(records@, r.at, expiration_secs),
        views(r.skewed@) == skewed_keys(records@, r.at),
{
    plan_purge(records, now(), expiration_secs)
}

/// The number of successes among the outcomes of a sweep.
pub open spec fn count_ok(outcomes: Seq<Result<(), AppError>>) -> nat
    decreases outcomes.len(),
{
    if outcomes.len() == 0 {
        0
    } else {
        count_ok(outcomes.drop_last()) + if outcomes.last() is Ok {
            1nat
        } else {
            0nat
        }
    }
}

/// What a sweep did: how many records it looked at, removed, failed to
/// remove, and left alone for a creation time in the future.
#[derive(Clone, Copy, Debug, PartialEq, Eq, Structural)]
pub struct PurgeReport {
    pub examined: usize,
    pub removed: usize,
    pub failed: usize,
    pub skewed: usize,
}

/// Counts the outcome of a sweep of `examined` records that followed `plan`,
/// where `outcomes[i]` settles the removal of `plan.expired[i]`. One failure
/// does not stop the others: each is counted on its own.
pub fn tally_purge(examined: usize, plan: &PurgePlan, outcomes: &Vec<Result<(), AppError>>) -> (r:
    PurgeReport)
    requires
        outcomes@.len() == plan.expired@.len(),
    ensures
        r.examined == examined,
        r.removed == count_ok(outcomes@),
        r.removed + r.failed == outcomes@.len(),
        r.skewed == plan.skewed@.len(),
{
    let mut removed: usize = 0;
    let mut i: usize = 0;
    while i < outcomes.len()
        invariant
            i <= outcomes@.len(),
            removed == count_ok(outcomes@.take(i as int)),
            removed <= i,
        decreases outcomes@.len() - i,
    {
        proof {
            assert(outcomes@.take(i as int + 1).drop_last() == outcomes@.take(i as int));
        }
        if outcomes[i].is_ok() {
            removed = removed + 1;
        }
        i = i + 1;
    }
    assert(outcomes@.take(outcomes@.len() as int) == outcomes@);
    PurgeReport { examined, removed, failed: outcomes.len() - removed, skewed: plan.skewed.len() }
}

/// Round trip: once a record and its content are stored under the record's
/// key, a fetch of that key, made while the record has not expired, returns
/// exactly that content.
pub proof fn lemma_round_trip(
    records: Records,
    objects: Objects,
    p: Paste,
    content: Seq<u8>,
    now: Timestamp,
    expiration_secs: Option<u64>,
)
    requires
        expiry(p, now, expiration_secs) == Ok::<bool, AppError>(false),
    ensures
        fetch_outcome(
            records.insert(p.key@, p),
            objects.insert(p.key@, content),
            p.key@,
            now,
            expiration_secs,
        ) == Ok::<Seq<u8>, AppError>(content),
{
    assert(lookup(records.insert(p.key@, p), p.key@) == Some(p));
}

/// Authorization: a delete with a credential other than the stored one is
/// refused with `WrongDeleteKey`, one with the stored credential is let
/// through, and once the record and object are removed every later delete
/// and fetch of the key is `NotFound`.
pub proof fn lemma_delete_authorization(
    records: Records,
    objects: Objects,
    key: Seq<char>,
    supplied: Seq<char>,
    now: Timestamp,
    expiration_secs: Option<u64>,
)
    requires
        lookup(records, key) matches Some(p) && p.delete_key is Some,
    ensures
        lookup(records, key)->0.delete_key->0@ != supplied ==> delete_gate(
            Some(supplied),
            lookup(records, key),
        ) == Err::<(), AppError>(AppError::WrongDeleteKey),
        delete_gate(Some(lookup(records, key)->0.delete_key->0@), lookup(records, key)) == Ok::<
            (),
            AppError,
        >(()),
        forall|again: Option<Seq<char>>|
            delete_gate(again, #[trigger] lookup(records.remove(key), key)) == Err::<
                (),
                AppError,
            >(AppError::NotFound),
        fetch_outcome(records.remove(key), objects.remove(key), key, now, expiration_secs)
            == Err::<Seq<u8>, AppError>(AppError::NotFound),
{
    assert(!records.remove(key).contains_key(key));
}

/// A paste created without a delete credential can never be deleted: every
/// delete of it is refused with `WrongDeleteKey`, whatever credential is
/// supplied, or none.
pub proof fn lemma_no_credential(p: Paste, supplied: Option<Seq<char>>)
    requires
        p.delete_key is None,
    ensures
        delete_gate(supplied, Some(p)) == Err::<(), AppError>(AppError::WrongDeleteKey),
{
}

/// Expiration equivalence: under a threshold, a fetch finds a record
/// `NotFound` on account of its age exactly when a sweep at the same instant
/// removes it.
pub proof fn lemma_expiration_equivalence(p: Paste, now: Timestamp, expiration_secs: u64)
    ensures
        (fetch_gate(Some(p), now, Some(expiration_secs)) == Err::<(), AppError>(
            AppError::NotFound,
        )) <==> expired_keys(seq![p], now, expiration_secs) == seq![p.key@],
        (fetch_gate(Some(p), now, Some(expiration_secs)) == Err::<(), AppError>(
            AppError::NotFound,
        )) <==> kept(seq![p], now, expiration_secs).len() == 0,
{
    let s = seq![p];
    assert(s.drop_last() == Seq::<Paste>::empty());
    assert(s.last() == p);
    assert(expired_keys(s.drop_last(), now, expiration_secs) == Seq::<Seq<char>>::empty());
    assert(kept(s.drop_last(), now, expiration_secs) == Seq::<Paste>::empty());
    if outlived(p.timestamp, now, expiration_secs) {
        assert(expired_keys(s, now, expiration_secs) == seq![p.key@]);
    } else {
        assert(expired_keys(s, now, expiration_secs).len() == 0);
    }
}

/// The keys that a sweep removes are those of the records it does not keep,
/// so a second sweep at the same instant over what the first one kept
/// removes nothing.
pub proof fn lemma_sweep_idempotent(records: Seq<Paste>, now: Timestamp, expiration_secs: u64)
    ensures
        expired_keys(kept(records, now, expiration_secs), now, expiration_secs).len() == 0,
        kept(kept(records, now, expiration_secs), now, expiration_secs) == kept(
            records,
            now,
            expiration_secs,
        ),
    decreases records.len(),
{
    if records.len() > 0 {
        lemma_sweep_idempotent(records.drop_last(), now, expiration_secs);
        let rest = kept(records.drop_last(), now, expiration_secs);
        if !outlived(records.last().timestamp, now, expiration_secs) {
            let k = rest.push(records.last());
            assert(k.drop_last() == rest);
            assert(k.last() == records.last());
        }
    }
}

} // verus!
