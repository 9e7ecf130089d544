//! The item store: an append-only collection of records with stable,
//! monotonically assigned ids, soft removal, and date/weekday scoped
//! queries over the active records.

use vstd::prelude::*;

use crate::date::Date;
use crate::date::Weekday;
use crate::date::weekday_index_of;
use crate::schedule::ScheduleSpec;
use crate::schedule::date_matches;
use crate::schedule::weekday_matches;

verus! {

/// An item kind whose payloads carry a schedule the store's queries can
/// read.
pub trait Schedulable {
    /// The schedule this payload carries.
    spec fn sched(&self) -> ScheduleSpec;

    /// Returns the schedule this payload carries.
    fn schedule(&self) -> (s: ScheduleSpec)
        ensures
            s == self.sched(),
    ;
}

/// The error of `mark_removed` on an id the store never assigned.
#[derive(Clone, Copy, Debug, PartialEq, Eq, Structural)]
pub struct NotFoundError;

/// One stored entry: a payload and its removal flag. The entry's id is its
/// position in the store.
pub struct Record<T> {
    pub payload: T,
    pub removed: bool,
}

/// The reach of a query: every active record, those applying on one date,
/// or those applying on one weekday.
#[derive(Clone, Copy, Debug, PartialEq, Eq, Structural)]
pub enum Scope {
    Any,
    ForDate(Date),
    ForWeekday(Weekday),
}

/// Whether a record with payload `t` falls within the query scope `scope`.
pub open spec fn selects<T: Schedulable>(scope: Scope, t: T) -> bool {
    match scope {
        Scope::Any => true,
        Scope::ForDate(d) => date_matches(t.sched(), d),
        Scope::ForWeekday(w) => weekday_matches(t.sched(), w),
    }
}

/// The ids of the records of `s` that are active (not removed) and fall
/// within `scope`, in ascending order.
pub open spec fn selected_ids<T: Schedulable>(s: Seq<Record<T>>, scope: Scope) -> Seq<int>
    decreases s.len(),
{
    if s.len() == 0 {
        Seq::empty()
    } else {
        let rest = selected_ids(s.drop_last(), scope);
        if !s.last().removed && selects(scope, s.last().payload) {
            rest.push(s.len() - 1)
        } else {
            rest
        }
    }
}

/// The ids of the active records of `s`, in ascending order.
pub open spec fn active_ids<T: Schedulable>(s: Seq<Record<T>>) -> Seq<int> {
    selected_ids(s, Scope::Any)
}

/// The ids of the active records of `s` whose schedule applies on `date`,
/// in ascending order.
pub open spec fn date_ids<T: Schedulable>(s: Seq<Record<T>>, date: Date) -> Seq<int> {
    selected_ids(s, Scope::ForDate(date))
}

/// The ids of the active records of `s` whose schedule applies on
/// `weekday`, in ascending order.
pub open spec fn weekday_ids<T: Schedulable>(s: Seq<Record<T>>, weekday: Weekday) -> Seq<int> {
    selected_ids(s, Scope::ForWeekday(weekday))
}

/// Whether a record with payload `t` falls within `scope`, decided as
/// `selects` says.
fn scope_selects<T: Schedulable>(scope: &Scope, t: &T) -> (r: bool)
    ensures
        r == selects(*scope, *t),
{
    match scope {
        Scope::Any => true,
        Scope::ForDate(d) => t.schedule().matches_date(d),
        Scope::ForWeekday(w) => t.schedule().matches_weekday(*w),
    }
}

/// The id the next `add` on a store holding `s` will return.
pub open spec fn next_id<T>(s: Seq<Record<T>>) -> int {
    s.len() as int
}

/// The store contents after `add(p)` on a store holding `s`.
pub open spec fn added<T>(s: Seq<Record<T>>, p: T) -> Seq<Record<T>> {
    s.push(Record { payload: p, removed: false })
}

/// The store contents after `mark_removed(id)` succeeds on a store holding
/// `s`.
pub open spec fn marked<T>(s: Seq<Record<T>>, id: int) -> Seq<Record<T>> {
    s.update(id, Record { payload: s[id].payload, removed: true })
}

/// How a store may evolve under its operations: records are only
/// appended, the payload once stored at an id never changes, and a
/// removal flag once set is never cleared.
pub open spec fn evolves_to<T>(a: Seq<Record<T>>, b: Seq<Record<T>>) -> bool {
    &&& a.len() <= b.len()
    &&& forall|i: int| 0 <= i < a.len() ==> #[trigger] b[i].payload == a[i].payload
    &&& forall|i: int| 0 <= i < a.len() && #[trigger] a[i].removed ==> b[i].removed
}

/// A store of one item kind: payloads wrapped in records, indexed by the
/// position at which they were inserted. Its view is the sequence of its
/// records.
pub struct ItemStore<T> {
    records: Vec<Record<T>>,
}

impl<T> View for ItemStore<T> {
    type V = Seq<Record<T>>;

    closed spec fn view(&self) -> Seq<Record<T>> {
        self.records@
    }
}

impl<T> ItemStore<T> {
    /// An empty store: no records, and ids starting at 0.
    pub fn new() -> (s: ItemStore<T>)
        ensures
            s@ == Seq::<Record<T>>::empty(),
    {
        ItemStore { records: Vec::new() }
    }

    /// The number of records ever added, removed ones included.
    pub fn len(&self) -> (n: usize)
        ensures
            n as int == self@.len(),
    {
        self.records.len()
    }

    /// Appends a new active record holding `payload` and returns its id:
    /// the position at which it was inserted. No existing record changes.
    pub fn add(&mut self, payload: T) -> (id: usize)
        ensures
            id as int == next_id(old(self)@),
            final(self)@ == added(old(self)@, payload),
            evolves_to(old(self)@, final(self)@),
    {
        let id: usize = self.records.len();
        self.records.push(Record { payload, removed: false });
        id
    }

    /// The payload stored at `id`, removed or not; `None` if the store
    /// never assigned `id`.
    pub fn get_by_id(&self, id: usize) -> (r: Option<&T>)
        ensures
            (id as int) < self@.len() ==> (r matches Some(p) && *p == self@[id as int].payload),
            (id as int) >= self@.len() ==> r is None,
    {
        if id < self.records.len() {
            Some(&self.records[id].payload)
        } else {
            None
        }
    }

    /// Marks the record at `id` removed. Succeeds on every id the store
    /// ever assigned, already-removed ones included; fails with
    /// `NotFoundError`, leaving the store unchanged, exactly on ids it
    /// never assigned.
    pub fn mark_removed(&mut self, id: usize) -> (r: Result<(), NotFoundError>)
        ensures
            (id as int) < old(self)@.len() ==> (r is Ok && final(self)@ == marked(
                old(self)@,
                id as int,
            )),
            (id as int) >= old(self)@.len() ==> (r is Err && final(self)@ == old(self)@),
            evolves_to(old(self)@, final(self)@),
    {
        if id < self.records.len() {
            self.records[id].removed = true;
            assert(self@ =~= marked(old(self)@, id as int));
            Ok(())
        } else {
            Err(NotFoundError)
        }
    }
}

/// Extending a selection by one record appends its id exactly when the
/// record is active and within scope.
proof fn lemma_selected_ids_take_step<T: Schedulable>(s: Seq<Record<T>>, scope: Scope, i: int)
    requires
        0 <= i < s.len(),
    ensures
        selected_ids(s.take(i + 1), scope) == if !s[i].removed && selects(scope, s[i].payload) {
            selected_ids(s.take(i), scope).push(i)
        } else {
            selected_ids(s.take(i), scope)
        },
{
    assert(s.take(i + 1).drop_last() =~= s.take(i));
    assert(s.take(i + 1).last() == s[i]);
}

impl<T: Schedulable> ItemStore<T> {
    /// The ids of the active records within `scope`, ascending.
    fn collect_ids(&self, scope: Scope) -> (r: Vec<usize>)
        ensures
            r@.len() == selected_ids(self@, scope).len(),
            forall|j: int| 0 <= j < r@.len() ==> r@[j] as int == selected_ids(self@, scope)[j],
    {
        let mut r: Vec<usize> = Vec::new();
        let n: usize = self.records.len();
        let mut i: usize = 0;
        while i < n
            invariant
                n == self@.len(),
                i <= n,
                r@.len() == selected_ids(self@.take(i as int), scope).len(),
                forall|j: int| 0 <= j < r@.len() ==> r@[j] as int == selected_ids(
                    self@.take(i as int),
                    scope,
                )[j],
            decreases n - i,
        {
            let rec = &self.records[i];
            if !rec.removed && scope_selects(&scope, &rec.payload) {
                r.push(i);
            }
            proof {
                lemma_selected_ids_take_step(self@, scope, i as int);
            }
            i = i + 1;
        }
        proof {
            assert(self@.take(n as int) =~= self@);
        }
        r
    }

    /// The payloads of the active records within `scope`, in ascending id
    /// order.
    fn collect_items(&self, scope: Scope) -> (r: Vec<&T>)
        ensures
            r@.len() == selected_ids(self@, scope).len(),
            forall|j: int| 0 <= j < r@.len() ==> *r@[j] == self@[selected_ids(
                self@,
                scope,
            )[j]].payload,
    {
        let mut r: Vec<&T> = Vec::new();
        let n: usize = self.records.len();
        let mut i: usize = 0;
        while i < n
            invariant
                n == self@.len(),
                i <= n,
                r@.len() == selected_ids(self@.take(i as int), scope).len(),
                forall|j: int| 0 <= j < r@.len() ==> *r@[j] == self@[selected_ids(
                    self@.take(i as int),
                    scope,
                )[j]].payload,
            decreases n - i,
        {
            let rec = &self.records[i];
            if !rec.removed && scope_selects(&scope, &rec.payload) {
                r.push(&rec.payload);
            }
            proof {
                lemma_selected_ids_take_step(self@, scope, i as int);
                lemma_selected_ids_in_range(self@.take(i as int + 1), scope);
            }
            i = i + 1;
        }
        proof {
            assert(self@.take(n as int) =~= self@);
        }
        r
    }

    /// The payloads of all active records, in ascending id order: every
    /// record not yet marked removed, and no other.
    pub fn items(&self) -> (r: Vec<&T>)
        ensures
            r@.len() == active_ids(self@).len(),
            forall|j: int| 0 <= j < r@.len() ==> *r@[j] == self@[active_ids(self@)[j]].payload,
    {
        self.collect_items(Scope::Any)
    }

    /// The payloads of the active records whose schedule applies on
    /// `date`, in ascending id order: dated items on their own date,
    /// weekly items on every date falling on their weekday, unscheduled
    /// items never.
    pub fn items_for_date(&self, date: Date) -> (r: Vec<&T>)
        ensures
            r@.len() == date_ids(self@, date).len(),
            forall|j: int| 0 <= j < r@.len() ==> *r@[j] == self@[date_ids(self@, date)[j]].payload,
    {
        self.collect_items(Scope::ForDate(date))
    }

    /// The payloads of the active records whose schedule applies on
    /// `weekday`, in ascending id order: weekly items on their own
    /// weekday, dated items on the weekday their date falls on,
    /// unscheduled items never.
    pub fn items_for_weekday(&self, weekday: Weekday) -> (r: Vec<&T>)
        ensures
            r@.len() == weekday_ids(self@, weekday).len(),
            forall|j: int| 0 <= j < r@.len() ==> *r@[j] == self@[weekday_ids(
                self@,
                weekday,
            )[j]].payload,
    {
        self.collect_items(Scope::ForWeekday(weekday))
    }

    /// The ids of all active records, ascending.
    pub fn ids(&self) -> (r: Vec<usize>)
        ensures
            r@.len() == active_ids(self@).len(),
            forall|j: int| 0 <= j < r@.len() ==> r@[j] as int == active_ids(self@)[j],
    {
        self.collect_ids(Scope::Any)
    }

    /// The ids of the active records whose schedule applies on `date`,
    /// ascending.
    pub fn ids_for_date(&self, date: Date) -> (r: Vec<usize>)
        ensures
            r@.len() == date_ids(self@, date).len(),
            forall|j: int| 0 <= j < r@.len() ==> r@[j] as int == date_ids(self@, date)[j],
    {
        self.collect_ids(Scope::ForDate(date))
    }

    /// The ids of the active records whose schedule applies on `weekday`,
    /// ascending.
    pub fn ids_for_weekday(&self, weekday: Weekday) -> (r: Vec<usize>)
        ensures
            r@.len() == weekday_ids(self@, weekday).len(),
            forall|j: int| 0 <= j < r@.len() ==> r@[j] as int == weekday_ids(self@, weekday)[j],
    {
        self.collect_ids(Scope::ForWeekday(weekday))
    }
}

/// Every selected id names a record of `s`.
pub proof fn lemma_selected_ids_in_range<T: Schedulable>(s: Seq<Record<T>>, scope: Scope)
    ensures
        forall|j: int| 0 <= j < selected_ids(s, scope).len() ==> 0 <= #[trigger] selected_ids(
            s,
            scope,
        )[j] < s.len(),
    decreases s.len(),
{
    if s.len() > 0 {
        lemma_selected_ids_in_range(s.drop_last(), scope);
        let rest = selected_ids(s.drop_last(), scope);
        assert forall|j: int| 0 <= j < selected_ids(s, scope).len() implies 0 <= #[trigger] selected_ids(
            s,
            scope,
        )[j] < s.len() by {
            if j < rest.len() {
                assert(selected_ids(s, scope)[j] == rest[j]);
            }
        }
    }
}

/// A query lists exactly the ids of the records that are active and within
/// scope.
pub proof fn lemma_selected_ids_elems<T: Schedulable>(s: Seq<Record<T>>, scope: Scope)
    ensures
        forall|id: int| #[trigger] selected_ids(s, scope).contains(id) <==> (0 <= id < s.len()
            && !s[id].removed && selects(scope, s[id].payload)),
    decreases s.len(),
{
    let ids = selected_ids(s, scope);
    if s.len() > 0 {
        let sub = s.drop_last();
        lemma_selected_ids_elems(sub, scope);
        let rest = selected_ids(sub, scope);
        let n = s.len() - 1;
        assert forall|id: int| #[trigger] ids.contains(id) implies (0 <= id < s.len()
            && !s[id].removed && selects(scope, s[id].payload)) by {
            let j = choose|j: int| 0 <= j < ids.len() && ids[j] == id;
            if j < rest.len() {
                assert(rest[j] == id);
                assert(rest.contains(id));
                assert(sub[id] == s[id]);
            } else {
                assert(id == n);
            }
        }
        assert forall|id: int| (0 <= id < s.len() && !s[id].removed && selects(
            scope,
            s[id].payload,
        )) implies #[trigger] ids.contains(id) by {
            if id < n {
                assert(sub[id] == s[id]);
                assert(rest.contains(id));
                let j = choose|j: int| 0 <= j < rest.len() && rest[j] == id;
                assert(ids[j] == id);
            } else {
                assert(s.last() == s[n]);
                assert(ids[ids.len() - 1] == id);
            }
        }
    }
}

/// A query lists ids in ascending order: the order of insertion.
pub proof fn lemma_selected_ids_ascending<T: Schedulable>(s: Seq<Record<T>>, scope: Scope)
    ensures
        forall|j: int, k: int|
            0 <= j < k < selected_ids(s, scope).len() ==> selected_ids(s, scope)[j] < selected_ids(
                s,
                scope,
            )[k],
    decreases s.len(),
{
    if s.len() > 0 {
        let sub = s.drop_last();
        lemma_selected_ids_ascending(sub, scope);
        lemma_selected_ids_in_range(sub, scope);
        let ids = selected_ids(s, scope);
        let rest = selected_ids(sub, scope);
        assert forall|j: int, k: int| 0 <= j < k < ids.len() implies ids[j] < ids[k] by {
            if k < rest.len() {
                assert(ids[j] == rest[j] && ids[k] == rest[k]);
            } else if j < rest.len() && k == rest.len() {
                assert(ids[j] == rest[j]);
            }
        }
    }
}

/// Law: ids never repeat and strictly increase. `add` on a store holding
/// `a` returns the id `next_id(a)` and leaves the records `added(a, p)`;
/// whatever operations follow only evolve the records, so a later `add`,
/// on records `b`, returns a strictly larger id.
pub proof fn lemma_add_ids_strictly_increase<T>(a: Seq<Record<T>>, p: T, b: Seq<Record<T>>)
    requires
        evolves_to(added(a, p), b),
    ensures
        next_id(a) < next_id(b),
{
}

/// Law: `get_by_id` answers with the payload `add` stored, regardless of
/// removal state or any later operations. After `add(p)` on a store
/// holding `a`, every store contents `b` the records may evolve to still
/// holds `p` at the returned id `next_id(a)`.
pub proof fn lemma_payload_stable<T>(a: Seq<Record<T>>, p: T, b: Seq<Record<T>>)
    requires
        evolves_to(added(a, p), b),
    ensures
        0 <= next_id(a) < b.len(),
        b[next_id(a)].payload == p,
{
    assert(added(a, p)[next_id(a)].payload == p);
}

/// Store evolution composes over any chain of operations.
pub proof fn lemma_evolves_to_trans<T>(a: Seq<Record<T>>, b: Seq<Record<T>>, c: Seq<Record<T>>)
    requires
        evolves_to(a, b),
        evolves_to(b, c),
    ensures
        evolves_to(a, c),
{
    assert forall|i: int| 0 <= i < a.len() implies #[trigger] c[i].payload == a[i].payload by {
        assert(b[i].payload == a[i].payload);
    }
    assert forall|i: int| 0 <= i < a.len() && #[trigger] a[i].removed implies c[i].removed by {
        assert(b[i].removed);
    }
}

/// Law: `mark_removed` is idempotent — marking an id a second time leaves
/// the same store contents as marking it once.
pub proof fn lemma_mark_removed_idempotent<T>(s: Seq<Record<T>>, id: int)
    requires
        0 <= id < s.len(),
    ensures
        marked(marked(s, id), id) == marked(s, id),
{
    assert(marked(marked(s, id), id) =~= marked(s, id));
}

/// Law: a record is listed by no query after `mark_removed` of its id,
/// and by every query whose scope selects it before. With `Scope::Any`
/// this is the `items` clause: `items` includes a record exactly until
/// its id is marked removed.
pub proof fn lemma_queries_after_mark<T: Schedulable>(s: Seq<Record<T>>, id: int, scope: Scope)
    requires
        0 <= id < s.len(),
    ensures
        !selected_ids(marked(s, id), scope).contains(id),
        !s[id].removed && selects(scope, s[id].payload) ==> selected_ids(s, scope).contains(id),
{
    lemma_selected_ids_elems(s, scope);
    lemma_selected_ids_elems(marked(s, id), scope);
}

/// Law: removal is final. Once `mark_removed` has run on an id, every
/// store contents `b` that later operations may produce still leaves
/// that id out of `items` and out of every date and weekday query.
pub proof fn lemma_removed_stays_unlisted<T: Schedulable>(
    s: Seq<Record<T>>,
    id: int,
    b: Seq<Record<T>>,
    scope: Scope,
)
    requires
        0 <= id < s.len(),
        evolves_to(marked(s, id), b),
    ensures
        !selected_ids(b, scope).contains(id),
{
    lemma_selected_ids_elems(b, scope);
    assert(marked(s, id)[id].removed);
}

/// Law: an unscheduled item appears in no date query and no weekday
/// query, yet `items` lists it while it is active.
pub proof fn lemma_unscheduled_never_listed<T: Schedulable>(
    s: Seq<Record<T>>,
    id: int,
    date: Date,
    weekday: Weekday,
)
    requires
        0 <= id < s.len(),
        s[id].payload.sched() is Unscheduled,
    ensures
        !date_ids(s, date).contains(id),
        !weekday_ids(s, weekday).contains(id),
        !s[id].removed ==> active_ids(s).contains(id),
{
    lemma_selected_ids_elems(s, Scope::ForDate(date));
    lemma_selected_ids_elems(s, Scope::ForWeekday(weekday));
    lemma_selected_ids_elems(s, Scope::Any);
}

/// Law: an active weekly item is listed by a date query exactly when the
/// date falls on its weekday, and by a weekday query exactly for its own
/// weekday.
pub proof fn lemma_weekly_item_queries<T: Schedulable>(
    s: Seq<Record<T>>,
    id: int,
    w: Weekday,
    date: Date,
    weekday: Weekday,
)
    requires
        0 <= id < s.len(),
        !s[id].removed,
        s[id].payload.sched() == ScheduleSpec::OnWeekday(w),
    ensures
        date_ids(s, date).contains(id) <==> w.index() == weekday_index_of(date@),
        weekday_ids(s, weekday).contains(id) <==> w == weekday,
{
    lemma_selected_ids_elems(s, Scope::ForDate(date));
    lemma_selected_ids_elems(s, Scope::ForWeekday(weekday));
}

/// Law: an active dated item is listed by a date query exactly on its own
/// date, and by a weekday query exactly for the weekday its date falls
/// on.
pub proof fn lemma_dated_item_queries<T: Schedulable>(
    s: Seq<Record<T>>,
    id: int,
    d: Date,
    date: Date,
    weekday: Weekday,
)
    requires
        0 <= id < s.len(),
        !s[id].removed,
        s[id].payload.sched() == ScheduleSpec::OnDate(d),
    ensures
        date_ids(s, date).contains(id) <==> date == d,
        weekday_ids(s, weekday).contains(id) <==> weekday_index_of(d@) == weekday.index(),
{
    lemma_selected_ids_elems(s, Scope::ForDate(date));
    lemma_selected_ids_elems(s, Scope::ForWeekday(weekday));
}

} // verus!
