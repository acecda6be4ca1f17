//! The state of the relayer, the events that change it, and what holds of
//! every history of such events.
//!
//! The state is two maps: job records under the text of their id, and proofs
//! under their content hash. It changes in four ways only: a submission is
//! accepted, a job completes, a job fails, or a proof is put in directly.

use crate::encoding::{hyphenated, lemma_hyphenated_injective};
use crate::models::{
    EmailProof, EmailProofView, ProcessingStatus, ProcessingStatusView, Status, Timestamp,
};
use crate::store::Store;
use vstd::prelude::*;

verus! {

/// The two stores of the relayer.
pub struct AppState {
    pub proofs: Store<EmailProof>,
    pub processing_status: Store<ProcessingStatus>,
}

/// The view of `AppState`: the records and the proofs, each as its view.
pub struct AppStateView {
    pub proofs: Map<Seq<char>, EmailProofView>,
    pub statuses: Map<Seq<char>, ProcessingStatusView>,
}

/// The proofs of a store, each as its view.
pub open spec fn proofs_view(stored: Map<Seq<char>, EmailProof>) -> Map<Seq<char>, EmailProofView> {
    Map::new(|k: Seq<char>| stored.contains_key(k), |k: Seq<char>| stored[k]@)
}

/// The records of a store, each as its view.
pub open spec fn statuses_view(stored: Map<Seq<char>, ProcessingStatus>) -> Map<
    Seq<char>,
    ProcessingStatusView,
> {
    Map::new(|k: Seq<char>| stored.contains_key(k), |k: Seq<char>| stored[k]@)
}

impl View for AppState {
    type V = AppStateView;

    open spec fn view(&self) -> AppStateView {
        AppStateView {
            proofs: proofs_view(self.proofs@),
            statuses: statuses_view(self.processing_status@),
        }
    }
}

/// The state before anything has happened.
pub open spec fn empty_state() -> AppStateView {
    AppStateView { proofs: Map::empty(), statuses: Map::empty() }
}

impl AppState {
    /// A state with two empty stores.
    pub fn new() -> (state: Self)
        ensures
            state@ == empty_state(),
    {
        let state = AppState { proofs: Store::new(), processing_status: Store::new() };
        assert(state@.proofs =~= empty_state().proofs);
        assert(state@.statuses =~= empty_state().statuses);
        state
    }
}

/// One change of the state.
pub enum Event {
    /// A submission was accepted under `id` at `now`.
    Accepted { id: u128, now: Timestamp },
    /// The job `id` ended at `now` with a proof.
    Completed { id: u128, now: Timestamp, proof: EmailProofView },
    /// The job `id` ended at `now` with an error.
    Failed { id: u128, now: Timestamp, message: Seq<char> },
    /// A proof was put into the proof store directly.
    Seeded { proof: EmailProofView },
}

/// The record of a submission that has just been accepted.
pub open spec fn fresh_record(id: u128, now: Timestamp) -> ProcessingStatusView {
    ProcessingStatusView {
        id,
        status: Status::Processing,
        created_at: now,
        updated_at: now,
        email_hash: None,
        error: None,
    }
}

/// A record once its job has completed with the proof stored under `hash`.
pub open spec fn completed_record(
    record: ProcessingStatusView,
    now: Timestamp,
    hash: Seq<char>,
) -> ProcessingStatusView {
    ProcessingStatusView {
        status: Status::Completed,
        updated_at: now,
        email_hash: Some(hash),
        ..record
    }
}

/// A record once its job has failed with `message`.
pub open spec fn failed_record(
    record: ProcessingStatusView,
    now: Timestamp,
    message: Seq<char>,
) -> ProcessingStatusView {
    ProcessingStatusView { status: Status::Failed, updated_at: now, error: Some(message), ..record }
}

/// Whether the record under `key` can still be settled: it is there and has
/// not reached a terminal status.
pub open spec fn is_open(statuses: Map<Seq<char>, ProcessingStatusView>, key: Seq<char>) -> bool {
    statuses.contains_key(key) && !statuses[key].status.is_terminal()
}

/// The state after an event.
/// - An accepted submission gets a fresh record under the text of its id.
/// - A completed job puts its proof under the proof's hash, in place of any
///   proof that was there, and settles its record if that is still open.
/// - A failed job settles its record if that is still open and leaves the
///   proofs alone.
/// - A seeded proof goes under its hash and leaves the records alone.
pub open spec fn step(s: AppStateView, e: Event) -> AppStateView {
    match e {
        Event::Accepted { id, now } => AppStateView {
            statuses: s.statuses.insert(hyphenated(id), fresh_record(id, now)),
            ..s
        },
        Event::Completed { id, now, proof } => AppStateView {
            proofs: s.proofs.insert(proof.email_hash, proof),
            statuses: if is_open(s.statuses, hyphenated(id)) {
                s.statuses.insert(
                    hyphenated(id),
                    completed_record(s.statuses[hyphenated(id)], now, proof.email_hash),
                )
            } else {
                s.statuses
            },
        },
        Event::Failed { id, now, message } => AppStateView {
            statuses: if is_open(s.statuses, hyphenated(id)) {
                s.statuses.insert(
                    hyphenated(id),
                    failed_record(s.statuses[hyphenated(id)], now, message),
                )
            } else {
                s.statuses
            },
            ..s
        },
        Event::Seeded { proof } => AppStateView {
            proofs: s.proofs.insert(proof.email_hash, proof),
            ..s
        },
    }
}

/// The state after a history of events that starts in `s`.
pub open spec fn run_from(s: AppStateView, events: Seq<Event>) -> AppStateView
    decreases events.len(),
{
    if events.len() == 0 {
        s
    } else {
        step(run_from(s, events.drop_last()), events.last())
    }
}

/// The state after a history of events that starts with empty stores.
pub open spec fn run(events: Seq<Event>) -> AppStateView {
    run_from(empty_state(), events)
}

/// The event hands out the id whose text is `key`.
pub open spec fn issues(e: Event, key: Seq<char>) -> bool {
    e matches Event::Accepted { id, .. } && hyphenated(id) == key
}

/// The proof that an event puts into the proof store, if it puts one.
pub open spec fn carried(e: Event) -> Option<EmailProofView> {
    match e {
        Event::Completed { proof, .. } => Some(proof),
        Event::Seeded { proof } => Some(proof),
        _ => None,
    }
}

/// The event puts a proof under `hash`.
pub open spec fn stores(e: Event, hash: Seq<char>) -> bool {
    carried(e) matches Some(proof) && proof.email_hash == hash
}

/// The hashes under which some event of the history has put a proof.
pub open spec fn completed_hashes(events: Seq<Event>) -> Set<Seq<char>> {
    Set::new(
        |hash: Seq<char>|
            exists|i: int| 0 <= i < events.len() && stores(#[trigger] events[i], hash),
    )
}

/// A record exists exactly for the ids that were handed out: a look-up under
/// any other text finds nothing, and one under the text of an id that was
/// handed out always finds its record.
pub proof fn lemma_records_are_of_issued_ids(events: Seq<Event>, key: Seq<char>)
    ensures
        run(events).statuses.contains_key(key) <==> exists|i: int|
            0 <= i < events.len() && issues(#[trigger] events[i], key),
    decreases events.len(),
{
    if events.len() > 0 {
        let earlier = events.drop_last();
        lemma_records_are_of_issued_ids(earlier, key);
        if run(earlier).statuses.contains_key(key) {
            let i = choose|i: int| 0 <= i < earlier.len() && issues(#[trigger] earlier[i], key);
            assert(issues(events[i], key));
        }
        if issues(events.last(), key) {
            assert(issues(events[events.len() - 1], key));
        }
        if exists|i: int| 0 <= i < events.len() && issues(#[trigger] events[i], key) {
            let i = choose|i: int| 0 <= i < events.len() && issues(#[trigger] events[i], key);
            if i < earlier.len() {
                assert(issues(earlier[i], key));
            }
        }
    }
}

/// The event hands out the id `id`.
pub open spec fn accepts(e: Event, id: u128) -> bool {
    e matches Event::Accepted { id: issued, .. } && issued == id
}

/// A record exists under the text of an id exactly when that id was handed
/// out.
pub proof fn lemma_record_exists_iff_issued(events: Seq<Event>, id: u128)
    ensures
        run(events).statuses.contains_key(hyphenated(id)) <==> exists|i: int|
            0 <= i < events.len() && accepts(#[trigger] events[i], id),
{
    let key = hyphenated(id);
    lemma_records_are_of_issued_ids(events, key);
    if run(events).statuses.contains_key(key) {
        let i = choose|i: int| 0 <= i < events.len() && issues(#[trigger] events[i], key);
        lemma_hyphenated_injective(events[i]->Accepted_id, id);
        assert(accepts(events[i], id));
    }
    if exists|i: int| 0 <= i < events.len() && accepts(#[trigger] events[i], id) {
        let i = choose|i: int| 0 <= i < events.len() && accepts(#[trigger] events[i], id);
        assert(issues(events[i], key));
    }
}

/// Both stores hold finitely many entries after any history.
pub proof fn lemma_stores_are_finite(events: Seq<Event>)
    ensures
        run(events).proofs.dom().finite(),
        run(events).statuses.dom().finite(),
    decreases events.len(),
{
    if events.len() > 0 {
        lemma_stores_are_finite(events.drop_last());
    }
}

/// The proof store holds exactly the hashes under which a proof was ever
/// put: its size is the number of distinct hashes of the history.
pub proof fn lemma_proofs_are_of_completed_hashes(events: Seq<Event>)
    ensures
        run(events).proofs.dom() == completed_hashes(events),
        run(events).proofs.dom().finite(),
        run(events).proofs.dom().len() == completed_hashes(events).len(),
    decreases events.len(),
{
    lemma_stores_are_finite(events);
    if events.len() > 0 {
        let earlier = events.drop_last();
        lemma_proofs_are_of_completed_hashes(earlier);
        assert forall|hash: Seq<char>|
            run(events).proofs.dom().contains(hash) <==> completed_hashes(events).contains(
                hash,
            ) by {
            if completed_hashes(earlier).contains(hash) {
                let i = choose|i: int|
                    0 <= i < earlier.len() && stores(#[trigger] earlier[i], hash);
                assert(stores(events[i], hash));
            }
            if stores(events.last(), hash) {
                assert(stores(events[events.len() - 1], hash));
            }
            if completed_hashes(events).contains(hash) {
                let i = choose|i: int| 0 <= i < events.len() && stores(#[trigger] events[i], hash);
                if i < earlier.len() {
                    assert(stores(earlier[i], hash));
                }
            }
        }
        assert(run(events).proofs.dom() =~= completed_hashes(events));
    } else {
        assert(run(events).proofs.dom() =~= completed_hashes(events));
    }
}

/// Every proof in the store is the proof that some event of the history put
/// under its hash.
pub proof fn lemma_stored_proof_has_origin(events: Seq<Event>, hash: Seq<char>)
    requires
        run(events).proofs.contains_key(hash),
    ensures
        exists|i: int|
            0 <= i < events.len() && stores(#[trigger] events[i], hash) && carried(events[i])
                == Some(run(events).proofs[hash]),
    decreases events.len(),
{
    let earlier = events.drop_last();
    if stores(events.last(), hash) {
        assert(stores(events[events.len() - 1], hash));
    } else {
        lemma_stored_proof_has_origin(earlier, hash);
        let i = choose|i: int|
            0 <= i < earlier.len() && stores(#[trigger] earlier[i], hash) && carried(earlier[i])
                == Some(run(earlier).proofs[hash]);
        assert(stores(events[i], hash));
    }
}

/// The event is about the record under `key`: it hands out, completes or
/// fails the id whose text is `key`.
pub open spec fn touches(e: Event, key: Seq<char>) -> bool {
    match e {
        Event::Accepted { id, .. } => hyphenated(id) == key,
        Event::Completed { id, .. } => hyphenated(id) == key,
        Event::Failed { id, .. } => hyphenated(id) == key,
        Event::Seeded { .. } => false,
    }
}

/// What one event does to one record. Afterwards the record is as before; or
/// it is the fresh record of an id that the event hands out; or it was open
/// and the event has settled it, as completed with the hash of the proof or
/// as failed with the message. No record disappears, and no status changes
/// but from an open one to a terminal one.
pub proof fn lemma_status_transitions(s: AppStateView, e: Event, key: Seq<char>)
    ensures
        s.statuses.contains_key(key) ==> step(s, e).statuses.contains_key(key),
        step(s, e).statuses.contains_key(key) ==> {
            let after = step(s, e).statuses[key];
            ||| s.statuses.contains_key(key) && after == s.statuses[key]
            ||| e matches Event::Accepted { id, now } && hyphenated(id) == key && after
                == fresh_record(id, now)
            ||| e matches Event::Completed { id, now, proof } && hyphenated(id) == key
                && is_open(s.statuses, key) && after == completed_record(
                s.statuses[key],
                now,
                proof.email_hash,
            )
            ||| e matches Event::Failed { id, now, message } && hyphenated(id) == key && is_open(
                s.statuses,
                key,
            ) && after == failed_record(s.statuses[key], now, message)
        },
{
}

/// A record changes only through events about its own id: a history without
/// such events leaves it as it is, and makes none where there was none.
pub proof fn lemma_untouched_record_stays(s: AppStateView, events: Seq<Event>, key: Seq<char>)
    requires
        forall|i: int| 0 <= i < events.len() ==> !touches(#[trigger] events[i], key),
    ensures
        run_from(s, events).statuses.contains_key(key) == s.statuses.contains_key(key),
        s.statuses.contains_key(key) ==> run_from(s, events).statuses[key] == s.statuses[key],
    decreases events.len(),
{
    if events.len() > 0 {
        let earlier = events.drop_last();
        assert forall|i: int| 0 <= i < earlier.len() implies !touches(
            #[trigger] earlier[i],
            key,
        ) by {
            assert(earlier[i] == events[i]);
        }
        lemma_untouched_record_stays(s, earlier, key);
        assert(!touches(events[events.len() - 1], key));
    }
}

/// The life of a job that goes well. A submission accepted under `id`, then
/// any events about other ids, then the completion of `id`: the record is
/// there all the while, and at the end it is completed, holds the hash of the
/// proof, and the proof is in the store under that hash.
pub proof fn lemma_accepted_then_completed(
    s: AppStateView,
    id: u128,
    accepted_at: Timestamp,
    between: Seq<Event>,
    completed_at: Timestamp,
    proof: EmailProofView,
)
    requires
        forall|i: int| 0 <= i < between.len() ==> !touches(#[trigger] between[i], hyphenated(id)),
    ensures
        ({
            let accepted = step(s, Event::Accepted { id, now: accepted_at });
            let waiting = run_from(accepted, between);
            let done = step(waiting, Event::Completed { id, now: completed_at, proof });
            &&& waiting.statuses.contains_key(hyphenated(id))
            &&& waiting.statuses[hyphenated(id)] == fresh_record(id, accepted_at)
            &&& done.statuses.contains_key(hyphenated(id))
            &&& done.statuses[hyphenated(id)] == completed_record(
                fresh_record(id, accepted_at),
                completed_at,
                proof.email_hash,
            )
            &&& done.proofs.contains_key(proof.email_hash)
            &&& done.proofs[proof.email_hash] == proof
        }),
{
    let accepted = step(s, Event::Accepted { id, now: accepted_at });
    lemma_untouched_record_stays(accepted, between, hyphenated(id));
}

/// A terminal record stays as it is: no event changes it, but for one that
/// hands out its id anew.
pub proof fn lemma_terminal_is_final(s: AppStateView, events: Seq<Event>, key: Seq<char>)
    requires
        s.statuses.contains_key(key),
        s.statuses[key].status.is_terminal(),
        forall|i: int| 0 <= i < events.len() ==> !issues(#[trigger] events[i], key),
    ensures
        run_from(s, events).statuses.contains_key(key),
        run_from(s, events).statuses[key] == s.statuses[key],
    decreases events.len(),
{
    if events.len() > 0 {
        let earlier = events.drop_last();
        assert forall|i: int| 0 <= i < earlier.len() implies !issues(
            #[trigger] earlier[i],
            key,
        ) by {
            assert(earlier[i] == events[i]);
        }
        lemma_terminal_is_final(s, earlier, key);
        assert(!issues(events[events.len() - 1], key));
    }
}

/// Once a proof is stored under a hash, some proof stays stored under it.
pub proof fn lemma_proofs_stay(s: AppStateView, e: Event, hash: Seq<char>)
    requires
        s.proofs.contains_key(hash),
    ensures
        step(s, e).proofs.contains_key(hash),
{
}

/// The view of a proof store after a proof went in.
pub proof fn lemma_proofs_view_insert(
    stored: Map<Seq<char>, EmailProof>,
    key: Seq<char>,
    proof: EmailProof,
)
    ensures
        proofs_view(stored.insert(key, proof)) == proofs_view(stored).insert(key, proof@),
{
    assert(proofs_view(stored.insert(key, proof)) =~= proofs_view(stored).insert(key, proof@));
}

/// The view of a status store after a record went in.
pub proof fn lemma_statuses_view_insert(
    stored: Map<Seq<char>, ProcessingStatus>,
    key: Seq<char>,
    record: ProcessingStatus,
)
    ensures
        statuses_view(stored.insert(key, record)) == statuses_view(stored).insert(key, record@),
{
    assert(statuses_view(stored.insert(key, record)) =~= statuses_view(stored).insert(
        key,
        record@,
    ));
}

} // verus!
