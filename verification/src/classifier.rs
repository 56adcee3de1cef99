//! The change classifier: compares each fetched item against the snapshot
//! store and labels it `Created`, `Updated` or `Unchanged`; equality for
//! change detection is defined over the sale price and the bid price alone.
//!
//! An item whose stable identifier cannot be derived (or is empty) is
//! skipped: never stored, never notified.

use vstd::prelude::*;
use vstd::pervasive::unreached;

use crate::item_summary::derived_id;
use crate::item_summary::ItemPrice;
use crate::item_summary::ItemSummary;
use crate::item_summary::ItemView;
use crate::item_summary::PriceView;
use crate::store::SnapshotStore;
use crate::text::str_eq;

verus! {

/// The label the classifier gives a fetched item.
#[derive(Clone, Copy, Debug, PartialEq, Eq, Structural)]
pub enum NotifEvent {
    Created,
    Updated,
    Unchanged,
}

/// One reportable change: the label, the new record, and (for an update) the
/// previously stored record so a delta can be rendered.
#[derive(Debug)]
pub struct Notification {
    pub event: NotifEvent,
    pub item: ItemSummary,
    pub previous: Option<ItemSummary>,
}

/// Mathematical view of a notification.
pub struct NotificationView {
    pub event: NotifEvent,
    pub item: ItemView,
    pub previous: Option<ItemView>,
}

impl View for Notification {
    type V = NotificationView;

    open spec fn view(&self) -> NotificationView {
        NotificationView {
            event: self.event,
            item: self.item@,
            previous: match self.previous {
                Option::None => Option::None,
                Option::Some(p) => Option::Some(p@),
            },
        }
    }
}

impl DeepView for Notification {
    type V = NotificationView;

    open spec fn deep_view(&self) -> NotificationView {
        self.view()
    }
}

/// The fields an item is compared on: the sale price and the bid price.
pub open spec fn fingerprint(v: ItemView) -> (Option<PriceView>, Option<PriceView>) {
    (v.price, v.current_bid_price)
}

/// The identifier under which an item is stored: the derived id, which must
/// be non-empty to be usable.
pub open spec fn usable_id(v: ItemView) -> Option<Seq<char>> {
    match derived_id(v.item_id) {
        Option::None => Option::None,
        Option::Some(id) => if id.len() == 0 {
            Option::None
        } else {
            Option::Some(id)
        },
    }
}

/// The label of an item against a store: absent means `Created`, present with
/// the same fingerprint means `Unchanged`, present with a different
/// fingerprint means `Updated`. (An item with no usable identifier is never
/// looked up; it reads as `Unchanged` here and is skipped by the pipeline.)
pub open spec fn spec_classify(m: Map<Seq<char>, ItemView>, v: ItemView) -> NotifEvent {
    match usable_id(v) {
        Option::None => NotifEvent::Unchanged,
        Option::Some(k) => if !m.contains_key(k) {
            NotifEvent::Created
        } else if fingerprint(m[k]) == fingerprint(v) {
            NotifEvent::Unchanged
        } else {
            NotifEvent::Updated
        },
    }
}

/// The store after one item is observed: the record is inserted (or
/// refreshed) under its identifier; an item with no usable identifier leaves
/// the store as it is.
pub open spec fn step_store(m: Map<Seq<char>, ItemView>, v: ItemView) -> Map<Seq<char>, ItemView> {
    match usable_id(v) {
        Option::None => m,
        Option::Some(k) => m.insert(k, v),
    }
}

/// The notification one observed item gives rise to, if any: `Created` and
/// `Updated` are reportable, `Unchanged` is not.
pub open spec fn step_event(m: Map<Seq<char>, ItemView>, v: ItemView) -> Option<NotificationView> {
    match usable_id(v) {
        Option::None => Option::None,
        Option::Some(k) => match spec_classify(m, v) {
            NotifEvent::Created => Option::Some(
                NotificationView { event: NotifEvent::Created, item: v, previous: Option::None },
            ),
            NotifEvent::Updated => Option::Some(
                NotificationView {
                    event: NotifEvent::Updated,
                    item: v,
                    previous: Option::Some(m[k]),
                },
            ),
            NotifEvent::Unchanged => Option::None,
        },
    }
}

/// Whether two records carry the same price pair. A price appearing or
/// disappearing counts as a difference.
pub fn same_fingerprint(a: &ItemSummary, b: &ItemSummary) -> (r: bool)
    ensures
        r == (fingerprint(a@) == fingerprint(b@)),
{
    let sale = match (&a.price, &b.price) {
        (None, None) => true,
        (Some(x), Some(y)) => str_eq(x.value.as_str(), y.value.as_str()) && str_eq(
            x.currency.as_str(),
            y.currency.as_str(),
        ),
        _ => false,
    };
    let bid = match (&a.current_bid_price, &b.current_bid_price) {
        (None, None) => true,
        (Some(x), Some(y)) => str_eq(x.value.as_str(), y.value.as_str()) && str_eq(
            x.currency.as_str(),
            y.currency.as_str(),
        ),
        _ => false,
    };
    sale && bid
}

/// Labels one item against the store, without changing the store.
pub fn classify(store: &SnapshotStore, item: &ItemSummary) -> (e: NotifEvent)
    requires
        store.wf(),
        usable_id(item@) is Some,
    ensures
        e == spec_classify(store@, item@),
{
    let id: &str = match item.id() {
        None => unreached(),
        Some(s) => s,
    };
    match store.get(id) {
        None => NotifEvent::Created,
        Some(old_item) => {
            if same_fingerprint(old_item, item) {
                NotifEvent::Unchanged
            } else {
                NotifEvent::Updated
            }
        },
    }
}

/// Observes one fetched item: labels it, commits the new record to the store,
/// and hands back the notification the observation gives rise to, if any.
pub fn observe(store: &mut SnapshotStore, item: &ItemSummary) -> (r: Option<Notification>)
    requires
        old(store).wf(),
    ensures
        final(store).wf(),
        final(store)@ == step_store(old(store)@, item@),
        match r {
            Option::None => step_event(old(store)@, item@) is None,
            Option::Some(n) => step_event(old(store)@, item@) == Option::Some(n@),
        },
{
    let id: &str = match item.id() {
        None => {
            return None;
        },
        Some(s) => s,
    };
    if id.is_empty() {
        return None;
    }
    let e = classify(store, item);
    let prev = store.put(id.to_owned(), item.clone());
    match e {
        NotifEvent::Created => Some(
            Notification { event: NotifEvent::Created, item: item.clone(), previous: None },
        ),
        NotifEvent::Updated => Some(
            Notification { event: NotifEvent::Updated, item: item.clone(), previous: prev },
        ),
        NotifEvent::Unchanged => None,
    }
}

/// The store after a whole batch of fetched items is observed in order.
pub open spec fn batch_store(m: Map<Seq<char>, ItemView>, items: Seq<ItemView>) -> Map<
    Seq<char>,
    ItemView,
>
    decreases items.len(),
{
    if items.len() == 0 {
        m
    } else {
        step_store(batch_store(m, items.drop_last()), items.last())
    }
}

/// An optional notification as a (possibly empty) sequence.
pub open spec fn opt_to_seq(e: Option<NotificationView>) -> Seq<NotificationView> {
    match e {
        Option::None => Seq::empty(),
        Option::Some(n) => seq![n],
    }
}

/// The notifications a whole batch gives rise to, in order.
pub open spec fn batch_events(m: Map<Seq<char>, ItemView>, items: Seq<ItemView>) -> Seq<
    NotificationView,
>
    decreases items.len(),
{
    if items.len() == 0 {
        Seq::empty()
    } else {
        batch_events(m, items.drop_last()) + opt_to_seq(
            step_event(batch_store(m, items.drop_last()), items.last()),
        )
    }
}

/// Observes every item of one fetched batch in order and collects the
/// notifications.
pub fn process_items(store: &mut SnapshotStore, items: &Vec<ItemSummary>) -> (notes: Vec<
    Notification,
>)
    requires
        old(store).wf(),
    ensures
        final(store).wf(),
        final(store)@ == batch_store(old(store)@, items.deep_view()),
        notes.deep_view() == batch_events(old(store)@, items.deep_view()),
{
    let mut notes: Vec<Notification> = Vec::new();
    let n = items.len();
    let mut i: usize = 0;
    while i < n
        invariant
            n == items.len(),
            i <= n,
            store.wf(),
            store@ == batch_store(old(store)@, items.deep_view().take(i as int)),
            notes.deep_view() == batch_events(old(store)@, items.deep_view().take(i as int)),
        decreases n - i,
    {
        let r = observe(store, &items[i]);
        proof {
            assert(items.deep_view().take(i + 1).drop_last() =~= items.deep_view().take(
                i as int,
            ));
            assert(items.deep_view().take(i + 1).last() == items@[i as int]@);
        }
        match r {
            None => {
                proof {
                    assert(notes.deep_view() =~= batch_events(
                        old(store)@,
                        items.deep_view().take(i + 1),
                    ));
                }
            },
            Some(note) => {
                notes.push(note);
                proof {
                    assert(notes.deep_view() =~= batch_events(
                        old(store)@,
                        items.deep_view().take(i + 1),
                    ));
                }
            },
        }
        i = i + 1;
    }
    proof {
        assert(items.deep_view().take(n as int) =~= items.deep_view());
    }
    notes
}

/// How many notifications of `e` a sequence holds.
pub open spec fn count_event(s: Seq<NotificationView>, e: NotifEvent) -> nat
    decreases s.len(),
{
    if s.len() == 0 {
        0
    } else {
        count_event(s.drop_last(), e) + (if s.last().event == e {
            1nat
        } else {
            0nat
        })
    }
}

/// Counts the `Created` and the `Updated` notifications of a cycle.
pub fn count_events(notes: &Vec<Notification>) -> (r: (usize, usize))
    ensures
        r.0 == count_event(notes.deep_view(), NotifEvent::Created),
        r.1 == count_event(notes.deep_view(), NotifEvent::Updated),
{
    let mut created: usize = 0;
    let mut updated: usize = 0;
    let n = notes.len();
    let mut i: usize = 0;
    while i < n
        invariant
            n == notes.len(),
            i <= n,
            created <= i,
            updated <= i,
            created == count_event(notes.deep_view().take(i as int), NotifEvent::Created),
            updated == count_event(notes.deep_view().take(i as int), NotifEvent::Updated),
        decreases n - i,
    {
        proof {
            assert(notes.deep_view().take(i + 1).drop_last() =~= notes.deep_view().take(
                i as int,
            ));
            assert(notes.deep_view().take(i + 1).last() == notes@[i as int]@);
        }
        if notes[i].event == NotifEvent::Created {
            created = created + 1;
        }
        if notes[i].event == NotifEvent::Updated {
            updated = updated + 1;
        }
        i = i + 1;
    }
    proof {
        assert(notes.deep_view().take(n as int) =~= notes.deep_view());
    }
    (created, updated)
}

/// Law: an item never seen before classifies as `Created`; the notification
/// carries the new record and no previous one, and the store subsequently
/// contains the record under its identifier.
pub proof fn lemma_new_item_created(m: Map<Seq<char>, ItemView>, v: ItemView)
    requires
        usable_id(v) is Some,
        !m.contains_key(usable_id(v)->Some_0),
    ensures
        spec_classify(m, v) == NotifEvent::Created,
        step_event(m, v) == Option::Some(
            NotificationView { event: NotifEvent::Created, item: v, previous: Option::None },
        ),
        step_store(m, v).contains_key(usable_id(v)->Some_0),
        step_store(m, v)[usable_id(v)->Some_0] == v,
{
}

/// Law: an item seen before with an unchanged price pair classifies as
/// `Unchanged` and gives rise to no notification; the stored record is still
/// refreshed with the new one.
pub proof fn lemma_unchanged_item_silent(m: Map<Seq<char>, ItemView>, v: ItemView)
    requires
        usable_id(v) is Some,
        m.contains_key(usable_id(v)->Some_0),
        fingerprint(m[usable_id(v)->Some_0]) == fingerprint(v),
    ensures
        spec_classify(m, v) == NotifEvent::Unchanged,
        step_event(m, v) is None,
        step_store(m, v) == m.insert(usable_id(v)->Some_0, v),
{
}

/// Law: an item seen before with a changed sale or bid price classifies as
/// `Updated`, and the notification carries both the old and the new record.
pub proof fn lemma_changed_item_updated(m: Map<Seq<char>, ItemView>, v: ItemView)
    requires
        usable_id(v) is Some,
        m.contains_key(usable_id(v)->Some_0),
        fingerprint(m[usable_id(v)->Some_0]) != fingerprint(v),
    ensures
        spec_classify(m, v) == NotifEvent::Updated,
        step_event(m, v) == Option::Some(
            NotificationView {
                event: NotifEvent::Updated,
                item: v,
                previous: Option::Some(m[usable_id(v)->Some_0]),
            },
        ),
{
}

/// Law (idempotence): once an item has been observed, observing the very same
/// record again classifies as `Unchanged` and gives rise to no further
/// `Created` or `Updated` notification.
pub proof fn lemma_observe_idempotent(m: Map<Seq<char>, ItemView>, v: ItemView)
    ensures
        spec_classify(step_store(m, v), v) == NotifEvent::Unchanged,
        step_event(step_store(m, v), v) is None,
{
}

/// No two items of the batch share a usable identifier.
pub open spec fn distinct_usable_ids(items: Seq<ItemView>) -> bool {
    forall|i: int, j: int|
        0 <= i < j < items.len() && usable_id(items[i]) is Some && usable_id(items[j]) is Some
            ==> usable_id(items[i]) != usable_id(items[j])
}

proof fn lemma_batch_store_contains(m: Map<Seq<char>, ItemView>, items: Seq<ItemView>)
    requires
        distinct_usable_ids(items),
    ensures
        forall|i: int|
            0 <= i < items.len() && usable_id(items[i]) is Some ==> #[trigger] usable_id(
                items[i],
            ) is Some && batch_store(m, items).contains_key(usable_id(items[i])->Some_0)
                && batch_store(m, items)[usable_id(items[i])->Some_0] == items[i],
    decreases items.len(),
{
    if items.len() > 0 {
        let prior = items.drop_last();
        assert(distinct_usable_ids(prior)) by {
            assert(forall|i: int| 0 <= i < prior.len() ==> prior[i] == items[i]);
        }
        lemma_batch_store_contains(m, prior);
        let last = items.last();
        assert forall|i: int|
            0 <= i < items.len() && usable_id(items[i]) is Some implies batch_store(
            m,
            items,
        ).contains_key(usable_id(items[i])->Some_0) && batch_store(m, items)[usable_id(
            items[i],
        )->Some_0] == items[i] by {
            if i == items.len() - 1 {
                assert(usable_id(last) is Some);
            } else {
                assert(prior[i] == items[i]);
                match usable_id(last) {
                    Option::None => {},
                    Option::Some(k) => {
                        assert(usable_id(items[i]) != usable_id(last));
                    },
                }
            }
        }
    }
}

proof fn lemma_second_run_silent(m: Map<Seq<char>, ItemView>, items: Seq<ItemView>, t: int)
    requires
        distinct_usable_ids(items),
        0 <= t <= items.len(),
    ensures
        batch_store(batch_store(m, items), items.take(t)) == batch_store(m, items),
        batch_events(batch_store(m, items), items.take(t)) == Seq::<NotificationView>::empty(),
    decreases t,
{
    let full = batch_store(m, items);
    if t == 0 {
        assert(items.take(0) =~= Seq::<ItemView>::empty());
        assert(batch_store(full, items.take(0)) == full);
        assert(batch_events(full, items.take(0)) == Seq::<NotificationView>::empty());
    } else {
        lemma_second_run_silent(m, items, t - 1);
        lemma_batch_store_contains(m, items);
        assert(items.take(t).drop_last() =~= items.take(t - 1));
        assert(items.take(t).last() == items[t - 1]);
        match usable_id(items[t - 1]) {
            Option::None => {},
            Option::Some(k) => {
                assert(full.contains_key(k) && full[k] == items[t - 1]);
                assert(step_store(full, items[t - 1]) =~= full);
                assert(step_event(full, items[t - 1]) is None);
            },
        }
        assert(batch_events(full, items.take(t)) =~= Seq::<NotificationView>::empty());
    }
}

/// Law (idempotence over a batch): once a batch whose items carry pairwise
/// distinct usable identifiers has been observed, observing the very same
/// batch again leaves the store as it is and gives rise to no notification
/// at all.
pub proof fn lemma_batch_idempotent(m: Map<Seq<char>, ItemView>, items: Seq<ItemView>)
    requires
        distinct_usable_ids(items),
    ensures
        batch_store(batch_store(m, items), items) == batch_store(m, items),
        batch_events(batch_store(m, items), items) == Seq::<NotificationView>::empty(),
{
    lemma_second_run_silent(m, items, items.len() as int);
    assert(items.take(items.len() as int) =~= items);
}

} // verus!
