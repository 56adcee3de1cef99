//! The poll loop's state machine: Bootstrapping, then Cycling, until Stopped.
//!
//! One cycle folds the outcome of every configured query into the snapshot
//! store. A failed query is skipped and the cycle completes; during the
//! warm-up (bootstrapping) pass the store is populated but no notification is
//! emitted. The surrounding process performs the network calls and hands each
//! query's outcome to `run_cycle` as a plain value.

use vstd::prelude::*;

use crate::classifier::batch_events;
use crate::classifier::batch_store;
use crate::classifier::process_items;
use crate::classifier::Notification;
use crate::classifier::NotificationView;
use crate::credential::refresh_needed;
use crate::credential::spec_refresh_needed;
use crate::credential::Credential;
use crate::errors::QueryFailure;
use crate::item_summary::ItemSummary;
use crate::item_summary::ItemView;
use crate::store::SnapshotStore;

verus! {

/// What one configured query yielded this cycle.
#[derive(Debug)]
pub enum QueryOutcome {
    /// The query succeeded and returned these item records, newest first.
    Fetched(Vec<ItemSummary>),
    /// The query failed; it is skipped for this cycle.
    Failed(QueryFailure),
}

impl View for QueryOutcome {
    type V = Option<Seq<ItemView>>;

    open spec fn view(&self) -> Option<Seq<ItemView>> {
        match self {
            QueryOutcome::Fetched(items) => Option::Some(items.deep_view()),
            QueryOutcome::Failed(_) => Option::None,
        }
    }
}

/// The views of a whole cycle's query outcomes.
pub open spec fn outcomes_view(s: Seq<QueryOutcome>) -> Seq<Option<Seq<ItemView>>> {
    Seq::new(s.len(), |i: int| s[i]@)
}

/// The store after one cycle: each successful query's batch is folded in, in
/// query order; failed queries contribute nothing.
pub open spec fn cycle_store(
    m: Map<Seq<char>, ItemView>,
    outs: Seq<Option<Seq<ItemView>>>,
) -> Map<Seq<char>, ItemView>
    decreases outs.len(),
{
    if outs.len() == 0 {
        m
    } else {
        match outs.last() {
            Option::None => cycle_store(m, outs.drop_last()),
            Option::Some(items) => batch_store(cycle_store(m, outs.drop_last()), items),
        }
    }
}

/// The notifications of one cycle, in order: each successful query's events
/// against the store as it stood when that query's batch was processed.
pub open spec fn cycle_events(
    m: Map<Seq<char>, ItemView>,
    outs: Seq<Option<Seq<ItemView>>>,
) -> Seq<NotificationView>
    decreases outs.len(),
{
    if outs.len() == 0 {
        Seq::empty()
    } else {
        cycle_events(m, outs.drop_last()) + (match outs.last() {
            Option::None => Seq::empty(),
            Option::Some(items) => batch_events(cycle_store(m, outs.drop_last()), items),
        })
    }
}

/// Folds every query outcome of one cycle into the store. With `warming_up`
/// the notifications are suppressed entirely; otherwise they are exactly the
/// cycle's events.
pub fn process_cycle(
    store: &mut SnapshotStore,
    outcomes: &Vec<QueryOutcome>,
    warming_up: bool,
) -> (notes: Vec<Notification>)
    requires
        old(store).wf(),
    ensures
        final(store).wf(),
        final(store)@ == cycle_store(old(store)@, outcomes_view(outcomes@)),
        !warming_up ==> notes.deep_view() == cycle_events(old(store)@, outcomes_view(outcomes@)),
        warming_up ==> notes@.len() == 0,
{
    let mut notes: Vec<Notification> = Vec::new();
    let n = outcomes.len();
    let mut i: usize = 0;
    while i < n
        invariant
            n == outcomes.len(),
            i <= n,
            store.wf(),
            store@ == cycle_store(old(store)@, outcomes_view(outcomes@).take(i as int)),
            !warming_up ==> notes.deep_view() == cycle_events(
                old(store)@,
                outcomes_view(outcomes@).take(i as int),
            ),
            warming_up ==> notes@.len() == 0,
        decreases n - i,
    {
        proof {
            assert(outcomes_view(outcomes@).take(i + 1).drop_last() =~= outcomes_view(
                outcomes@,
            ).take(i as int));
            assert(outcomes_view(outcomes@).take(i + 1).last() == outcomes@[i as int]@);
        }
        match &outcomes[i] {
            QueryOutcome::Failed(_) => {
                proof {
                    assert(notes.deep_view() =~= notes.deep_view());
                }
            },
            QueryOutcome::Fetched(items) => {
                let mut batch = process_items(store, items);
                if !warming_up {
                    let ghost notes_before = notes.deep_view();
                    let ghost batch_view = batch.deep_view();
                    notes.append(&mut batch);
                    proof {
                        assert(notes.deep_view() =~= notes_before + batch_view);
                    }
                }
            },
        }
        i = i + 1;
    }
    proof {
        assert(outcomes_view(outcomes@).take(n as int) =~= outcomes_view(outcomes@));
    }
    notes
}

/// The phase of the poll loop.
#[derive(Clone, Copy, Debug, PartialEq, Eq, Structural)]
pub enum PollPhase {
    /// The first pass: the store is populated, notifications are suppressed.
    Bootstrapping,
    /// The steady state: every cycle's changes are notified.
    Cycling,
    /// No further work is started.
    Stopped,
}

/// The whole state the poll loop carries across cycles.
pub struct PollState {
    pub store: SnapshotStore,
    pub credential: Option<Credential>,
    pub phase: PollPhase,
}

impl PollState {
    /// The store keeps one entry per identifier.
    pub open spec fn wf(self) -> bool {
        self.store.wf()
    }

    /// A fetch may be issued at `now`: the loop is live and the credential is
    /// valid for at least the safety margin.
    pub open spec fn may_fetch(self, now: u64) -> bool {
        self.phase != PollPhase::Stopped && match self.credential {
            Option::None => false,
            Option::Some(c) => c.valid_at(now),
        }
    }

    /// Cold start: empty store, no credential, warm-up pass ahead.
    pub fn start() -> (s: PollState)
        ensures
            s.wf(),
            s.phase == PollPhase::Bootstrapping,
            s.store@ == Map::<Seq<char>, ItemView>::empty(),
            s.credential is None,
    {
        PollState {
            store: SnapshotStore::new(),
            credential: None,
            phase: PollPhase::Bootstrapping,
        }
    }

    /// Warm start from a restored store: no warm-up suppression.
    pub fn resume(store: SnapshotStore) -> (s: PollState)
        requires
            store.wf(),
        ensures
            s.wf(),
            s.phase == PollPhase::Cycling,
            s.store == store,
            s.credential is None,
    {
        PollState { store, credential: None, phase: PollPhase::Cycling }
    }

    /// Whether a token exchange must happen before this cycle's fetches.
    pub fn needs_refresh(&self, now: u64) -> (r: bool)
        ensures
            r == spec_refresh_needed(self.credential, now),
    {
        refresh_needed(&self.credential, now)
    }

    /// Installs the credential a token exchange at `now` returned.
    pub fn install_credential(&mut self, access_token: String, expires_in: u64, now: u64)
        ensures
            final(self).store == old(self).store,
            final(self).phase == old(self).phase,
            final(self).credential == Option::Some(
                Credential::issued_value(access_token, expires_in, now),
            ),
    {
        self.credential = Some(Credential::issued(access_token, expires_in, now));
    }

    /// One cycle. Every query outcome is folded into the store; a warm-up
    /// pass emits no notifications; afterwards the loop is in its steady
    /// state.
    pub fn run_cycle(&mut self, outcomes: &Vec<QueryOutcome>) -> (notes: Vec<Notification>)
        requires
            old(self).wf(),
            old(self).phase != PollPhase::Stopped,
        ensures
            final(self).wf(),
            final(self).phase == PollPhase::Cycling,
            final(self).credential == old(self).credential,
            final(self).store@ == cycle_store(old(self).store@, outcomes_view(outcomes@)),
            old(self).phase == PollPhase::Bootstrapping ==> notes@.len() == 0,
            old(self).phase == PollPhase::Cycling ==> notes.deep_view() == cycle_events(
                old(self).store@,
                outcomes_view(outcomes@),
            ),
    {
        let warming_up = matches!(self.phase, PollPhase::Bootstrapping);
        let notes = process_cycle(&mut self.store, outcomes, warming_up);
        self.phase = PollPhase::Cycling;
        notes
    }

    /// Cooperative stop: no further cycle is started; the store and the
    /// credential are kept as they are.
    pub fn stop(&mut self)
        ensures
            final(self).phase == PollPhase::Stopped,
            final(self).store == old(self).store,
            final(self).credential == old(self).credential,
    {
        self.phase = PollPhase::Stopped;
    }
}

/// Law: when the refresh decision keeps the held credential and the loop is
/// live, the fetch precondition holds: a fetch at `now` happens with
/// strictly more than the safety margin of token lifetime left.
pub proof fn lemma_no_refresh_means_fetchable(s: PollState, now: u64)
    requires
        s.phase != PollPhase::Stopped,
        !spec_refresh_needed(s.credential, now),
    ensures
        s.may_fetch(now),
{
}

/// Law (partial failure): when one query fails and another succeeds in the
/// same cycle, the successful query's items are still folded into the store
/// and still give rise to exactly their notifications; the cycle completes.
pub proof fn lemma_partial_failure(m: Map<Seq<char>, ItemView>, items: Seq<ItemView>)
    ensures
        cycle_store(m, seq![Option::None, Option::Some(items)]) == batch_store(m, items),
        cycle_events(m, seq![Option::None, Option::Some(items)]) == batch_events(m, items),
{
    let outs = seq![Option::<Seq<ItemView>>::None, Option::Some(items)];
    let first = seq![Option::<Seq<ItemView>>::None];
    let empty = Seq::<Option<Seq<ItemView>>>::empty();
    assert(cycle_store(m, empty) == m);
    assert(cycle_events(m, empty) == Seq::<NotificationView>::empty());
    assert(outs.drop_last() =~= first);
    assert(outs.last() == Option::<Seq<ItemView>>::Some(items));
    assert(first.drop_last() =~= empty);
    assert(first.last() == Option::<Seq<ItemView>>::None);
    assert(cycle_store(m, first) == cycle_store(m, empty));
    assert(cycle_events(m, first) =~= Seq::<NotificationView>::empty());
    assert(cycle_store(m, outs) == batch_store(cycle_store(m, first), items));
    assert(cycle_events(m, outs) =~= cycle_events(m, first) + batch_events(
        m,
        items,
    ));
    assert(cycle_events(m, outs) =~= batch_events(m, items));
}

} // verus!
