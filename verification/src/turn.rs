//! The turn scheduler: a round-robin queue over the encounter's
//! participants, ordered ascending by speed.
//!
//! Two collections are kept apart. The round order holds the identifiers of
//! the actors still due in the round in progress; its order is frozen at
//! rollover time. The next-round roster holds one snapshot per living
//! participant and may be re-sorted at any time, so speed changes affect
//! only future rounds.

use vstd::prelude::*;
use vstd::seq_lib::lemma_multiset_commutative;
use vstd::multiset::Multiset;
use std::collections::VecDeque;

use crate::entities::Id;
use crate::error::Error;
use crate::event::{Event, KeyCode};
use crate::components::ComponentType;

verus! {

/// What the scheduler keeps of one participant: its identifier and the
/// speed that orders the rounds.
#[derive(Clone, Copy, Debug, PartialEq, Eq, Structural)]
pub struct Snapshot {
    pub id: Id,
    pub spd: i32,
}

/// `x` placed into `s` after every entry whose speed is at most `x.spd`:
/// the insertion step of a stable sort.
pub open spec fn insert_by_spd(x: Snapshot, s: Seq<Snapshot>) -> Seq<Snapshot>
    decreases s.len(),
{
    if s.len() == 0 {
        seq![x]
    } else if x.spd < s[0].spd {
        seq![x] + s
    } else {
        seq![s[0]] + insert_by_spd(x, s.drop_first())
    }
}

/// `s` sorted ascending by speed, entries of equal speed keeping their
/// input order.
pub open spec fn sort_by_spd(s: Seq<Snapshot>) -> Seq<Snapshot>
    decreases s.len(),
{
    if s.len() == 0 {
        Seq::<Snapshot>::empty()
    } else {
        insert_by_spd(s.last(), sort_by_spd(s.drop_last()))
    }
}

/// Ascending by speed.
pub open spec fn sorted_by_spd(s: Seq<Snapshot>) -> bool {
    forall|i: int, j: int| 0 <= i < j < s.len() ==> s[i].spd <= s[j].spd
}

/// No two entries share a speed.
pub open spec fn distinct_speeds(s: Seq<Snapshot>) -> bool {
    forall|i: int, j: int| 0 <= i < j < s.len() ==> s[i].spd != s[j].spd
}

/// No two entries share an identifier.
pub open spec fn distinct_ids(s: Seq<Snapshot>) -> bool {
    forall|i: int, j: int| 0 <= i < j < s.len() ==> s[i].id != s[j].id
}

/// The identifiers of a roster, in roster order.
pub open spec fn ids_of(s: Seq<Snapshot>) -> Seq<Id> {
    s.map_values(|e: Snapshot| e.id)
}

proof fn lemma_insert_len(x: Snapshot, s: Seq<Snapshot>)
    ensures
        insert_by_spd(x, s).len() == s.len() + 1,
    decreases s.len(),
{
    if s.len() > 0 && !(x.spd < s[0].spd) {
        lemma_insert_len(x, s.drop_first());
    }
}

proof fn lemma_insert_multiset(x: Snapshot, s: Seq<Snapshot>)
    ensures
        insert_by_spd(x, s).to_multiset() == s.to_multiset().insert(x),
    decreases s.len(),
{
    broadcast use vstd::seq_lib::group_to_multiset_ensures;

    if s.len() == 0 {
        assert(seq![x] =~= Seq::<Snapshot>::empty().push(x));
        assert(insert_by_spd(x, s).to_multiset() =~= s.to_multiset().insert(x));
    } else if x.spd < s[0].spd {
        lemma_multiset_commutative(seq![x], s);
        assert(seq![x].to_multiset() =~= Multiset::<Snapshot>::empty().insert(x)) by {
            assert(seq![x] =~= Seq::<Snapshot>::empty().push(x));
        }
        assert((seq![x] + s).to_multiset() =~= s.to_multiset().insert(x));
    } else {
        let rest = s.drop_first();
        lemma_insert_multiset(x, rest);
        lemma_multiset_commutative(seq![s[0]], insert_by_spd(x, rest));
        lemma_multiset_commutative(seq![s[0]], rest);
        assert(seq![s[0]] + rest =~= s);
        assert(seq![s[0]].to_multiset() =~= Multiset::<Snapshot>::empty().insert(s[0])) by {
            assert(seq![s[0]] =~= Seq::<Snapshot>::empty().push(s[0]));
        }
        assert((seq![s[0]] + insert_by_spd(x, rest)).to_multiset() =~= s.to_multiset().insert(x));
    }
}

proof fn lemma_insert_sorted(x: Snapshot, s: Seq<Snapshot>)
    requires
        sorted_by_spd(s),
    ensures
        sorted_by_spd(insert_by_spd(x, s)),
        forall|k: int|
            0 <= k < insert_by_spd(x, s).len() ==> (#[trigger] insert_by_spd(x, s)[k] == x
                || s.contains(insert_by_spd(x, s)[k])),
    decreases s.len(),
{
    lemma_insert_len(x, s);
    if s.len() == 0 {
    } else if x.spd < s[0].spd {
        let r = seq![x] + s;
        assert forall|i: int, j: int| 0 <= i < j < r.len() implies r[i].spd <= r[j].spd by {
            if i > 0 {
                assert(r[i] == s[i - 1]);
                assert(r[j] == s[j - 1]);
            }
        }
        assert(forall|k: int| 0 <= k < r.len() ==> (#[trigger] r[k] == x || s.contains(r[k])))
            by {
            assert forall|k: int| 0 < k < r.len() implies s.contains(r[k]) by {
                assert(r[k] == s[k - 1]);
            }
        }
    } else {
        let rest = s.drop_first();
        assert(forall|i: int, j: int| 0 <= i < j < rest.len() ==> rest[i].spd <= rest[j].spd)
            by {
            assert(forall|i: int| 0 <= i < rest.len() ==> rest[i] == s[i + 1]);
        }
        lemma_insert_sorted(x, rest);
        let ins = insert_by_spd(x, rest);
        let r = seq![s[0]] + ins;
        assert(r == insert_by_spd(x, s));
        // every entry of `ins` is x or from rest, so its speed is at least s[0].spd
        assert forall|k: int| 0 <= k < ins.len() implies s[0].spd <= ins[k].spd by {
            if ins[k] == x {
            } else {
                let m = choose|m: int| 0 <= m < rest.len() && rest[m] == ins[k];
                assert(rest[m] == s[m + 1]);
            }
        }
        assert forall|i: int, j: int| 0 <= i < j < r.len() implies r[i].spd <= r[j].spd by {
            if i > 0 {
                assert(r[i] == ins[i - 1]);
                assert(r[j] == ins[j - 1]);
            } else {
                assert(r[j] == ins[j - 1]);
            }
        }
        assert forall|k: int| 0 <= k < r.len() implies (r[k] == x || s.contains(r[k])) by {
            if k == 0 {
                assert(s[0] == r[0]);
                assert(s.contains(s[0]));
            } else {
                assert(r[k] == ins[k - 1]);
                if ins[k - 1] == x {
                } else {
                    let m = choose|m: int| 0 <= m < rest.len() && rest[m] == ins[k - 1];
                    assert(rest[m] == s[m + 1]);
                    assert(s.contains(s[m + 1]));
                }
            }
        }
    }
}

/// Sorting yields an ascending permutation of its input.
pub proof fn lemma_sort_ensures(s: Seq<Snapshot>)
    ensures
        sorted_by_spd(sort_by_spd(s)),
        sort_by_spd(s).to_multiset() == s.to_multiset(),
        sort_by_spd(s).len() == s.len(),
    decreases s.len(),
{
    broadcast use vstd::seq_lib::group_to_multiset_ensures;

    if s.len() == 0 {
    } else {
        let prefix = s.drop_last();
        lemma_sort_ensures(prefix);
        lemma_insert_sorted(s.last(), sort_by_spd(prefix));
        lemma_insert_len(s.last(), sort_by_spd(prefix));
        lemma_insert_multiset(s.last(), sort_by_spd(prefix));
        assert(s =~= prefix.push(s.last()));
        assert(s.to_multiset() =~= prefix.to_multiset().insert(s.last()));
    }
}

/// Sorting by speed keeps identifiers distinct: the sorted roster is a
/// permutation of its input.
pub proof fn lemma_sort_distinct_ids(s: Seq<Snapshot>)
    requires
        distinct_ids(s),
    ensures
        distinct_ids(sort_by_spd(s)),
{
    broadcast use vstd::seq_lib::group_to_multiset_ensures;

    let t = sort_by_spd(s);
    lemma_sort_ensures(s);
    assert(s.no_duplicates()) by {
        assert forall|a: int, b: int| 0 <= a < s.len() && 0 <= b < s.len() && a != b implies s[a]
            != s[b] by {
            if a < b {
                assert(s[a].id != s[b].id);
            } else {
                assert(s[b].id != s[a].id);
            }
        }
    }
    s.lemma_multiset_has_no_duplicates();
    t.lemma_multiset_has_no_duplicates_conv();
    assert forall|i: int, j: int| 0 <= i < j < t.len() implies t[i].id != t[j].id by {
        if t[i].id == t[j].id {
            assert(t[i] != t[j]);
            assert(t.contains(t[i]));
            assert(t.contains(t[j]));
            assert(s.to_multiset().count(t[i]) > 0);
            assert(s.to_multiset().count(t[j]) > 0);
            assert(s.contains(t[i]));
            assert(s.contains(t[j]));
            let a = choose|a: int| 0 <= a < s.len() && s[a] == t[i];
            let b = choose|b: int| 0 <= b < s.len() && s[b] == t[j];
            if a < b {
                assert(s[a].id != s[b].id);
            } else {
                assert(s[b].id != s[a].id);
            }
        }
    }
}

/// The predicate picking entries of speed `v`.
pub open spec fn spd_is(v: i32) -> spec_fn(Snapshot) -> bool {
    |e: Snapshot| e.spd == v
}

proof fn lemma_insert_filter(x: Snapshot, s: Seq<Snapshot>, v: i32)
    requires
        sorted_by_spd(s),
    ensures
        insert_by_spd(x, s).filter(spd_is(v)) == (if x.spd == v {
            s.filter(spd_is(v)).push(x)
        } else {
            s.filter(spd_is(v))
        }),
    decreases s.len(),
{
    reveal_with_fuel(Seq::filter, 4);
    let pv = spd_is(v);
    if s.len() == 0 {
        assert(seq![x].drop_last() =~= Seq::<Snapshot>::empty());
        assert(Seq::<Snapshot>::empty().filter(pv) =~= Seq::<Snapshot>::empty());
        assert(seq![x].last() == x);
    } else if x.spd < s[0].spd {
        Seq::filter_distributes_over_add(seq![x], s, pv);
        assert(seq![x].drop_last() =~= Seq::<Snapshot>::empty());
        assert(Seq::<Snapshot>::empty().filter(pv) =~= Seq::<Snapshot>::empty());
        assert(seq![x].last() == x);
        if x.spd == v {
            assert(s.all(|e: Snapshot| !pv(e))) by {
                assert forall|i: int| 0 <= i < s.len() implies !pv(s[i]) by {
                    assert(s[0].spd <= s[i].spd);
                }
            }
            s.lemma_all_neg_filter_empty(pv);
            assert(s.filter(pv) =~= Seq::<Snapshot>::empty());
            assert(seq![x].filter(pv) =~= Seq::<Snapshot>::empty().push(x));
            assert((seq![x] + s).filter(pv) =~= s.filter(pv).push(x));
        } else {
            assert(seq![x].filter(pv) =~= Seq::<Snapshot>::empty());
            assert((seq![x] + s).filter(pv) =~= s.filter(pv));
        }
    } else {
        let rest = s.drop_first();
        assert(forall|i: int, j: int| 0 <= i < j < rest.len() ==> rest[i].spd <= rest[j].spd) by {
            assert(forall|i: int| 0 <= i < rest.len() ==> rest[i] == s[i + 1]);
        }
        lemma_insert_filter(x, rest, v);
        Seq::filter_distributes_over_add(seq![s[0]], insert_by_spd(x, rest), pv);
        Seq::filter_distributes_over_add(seq![s[0]], rest, pv);
        assert(seq![s[0]] + rest =~= s);
        if x.spd == v {
            assert(seq![s[0]].filter(pv) + rest.filter(pv).push(x) =~= (seq![s[0]].filter(pv)
                + rest.filter(pv)).push(x));
        }
    }
}

/// Stable ties: among the entries of any one speed, the sorted roster
/// keeps the input's relative order.
pub proof fn lemma_sort_stable(s: Seq<Snapshot>, v: i32)
    ensures
        sort_by_spd(s).filter(spd_is(v)) == s.filter(spd_is(v)),
    decreases s.len(),
{
    reveal_with_fuel(Seq::filter, 4);
    if s.len() > 0 {
        let t = s.drop_last();
        let x = s.last();
        lemma_sort_stable(t, v);
        lemma_sort_ensures(t);
        lemma_insert_filter(x, sort_by_spd(t), v);
        assert(s.filter(spd_is(v)) == (if spd_is(v)(x) {
            t.filter(spd_is(v)).push(x)
        } else {
            t.filter(spd_is(v))
        }));
    }
}

proof fn lemma_insert_at(s: Seq<Snapshot>, x: Snapshot, j: int)
    requires
        0 <= j <= s.len(),
        forall|k: int| 0 <= k < j ==> s[k].spd <= x.spd,
        j < s.len() ==> x.spd < s[j].spd,
    ensures
        insert_by_spd(x, s) == s.insert(j, x),
    decreases s.len(),
{
    if s.len() == 0 {
        assert(insert_by_spd(x, s) =~= s.insert(0, x));
    } else if j == 0 {
        assert(insert_by_spd(x, s) == seq![x] + s);
        assert(s.insert(0, x) =~= seq![x] + s);
    } else {
        let rest = s.drop_first();
        assert(s[0].spd <= x.spd);
        assert(forall|k: int| 0 <= k < j - 1 ==> rest[k].spd <= x.spd) by {
            assert(forall|k: int| 0 <= k < rest.len() ==> rest[k] == s[k + 1]);
        }
        assert(j - 1 < rest.len() ==> x.spd < rest[j - 1].spd) by {
            assert(forall|k: int| 0 <= k < rest.len() ==> rest[k] == s[k + 1]);
        }
        lemma_insert_at(rest, x, j - 1);
        assert(seq![s[0]] + rest.insert(j - 1, x) =~= s.insert(j, x));
    }
}

/// Stable insertion sort.
fn sort_snapshots(v: &mut Vec<Snapshot>)
    ensures
        final(v)@ == sort_by_spd(old(v)@),
{
    let n = v.len();
    let mut out: Vec<Snapshot> = Vec::new();
    let mut i: usize = 0;
    while i < n
        invariant
            v@ == old(v)@,
            n == v@.len(),
            i <= n,
            out@ == sort_by_spd(v@.take(i as int)),
        decreases n - i,
    {
        let x = v[i];
        let ghost out0 = out@;
        let mut j: usize = 0;
        while j < out.len() && out[j].spd <= x.spd
            invariant
                out@ == out0,
                j <= out@.len(),
                forall|k: int| 0 <= k < j ==> out@[k].spd <= x.spd,
            decreases out@.len() - j,
        {
            j += 1;
        }
        proof {
            lemma_insert_at(out@, x, j as int);
            assert(v@.take(i + 1).drop_last() =~= v@.take(i as int));
            assert(v@.take(i + 1).last() == v@[i as int]);
            assert(sort_by_spd(v@.take(i + 1)) == insert_by_spd(x, sort_by_spd(v@.take(i as int))));
        }
        out.insert(j, x);
        i += 1;
    }
    proof {
        assert(v@.take(n as int) =~= v@);
    }
    *v = out;
}

/// The new round order and the returned actor of one `pop` on a scheduler
/// whose round order is `round` and whose roster identifiers are
/// `roster_ids`.
pub open spec fn pop_model(round: Seq<Id>, roster_ids: Seq<Id>) -> (Seq<Id>, Option<Id>)
    recommends
        round.len() >= 1,
{
    if round.len() == 1 {
        (roster_ids, if roster_ids.len() > 0 {
            Some(roster_ids[0])
        } else {
            None::<Id>
        })
    } else {
        (round.drop_first(), Some(round[1]))
    }
}

/// Round order and results after `k` successive `pop`s, the roster staying
/// as it is.
pub open spec fn pops_model(round: Seq<Id>, roster_ids: Seq<Id>, k: nat) -> (Seq<Id>, Seq<
    Option<Id>,
>)
    decreases k,
{
    if k == 0 {
        (round, Seq::<Option<Id>>::empty())
    } else {
        let prev = pops_model(round, roster_ids, (k - 1) as nat);
        let step = pop_model(prev.0, roster_ids);
        (step.0, prev.1.push(step.1))
    }
}

/// The cursor after a key event: `k` moves up, `j` moves down; the cursor
/// never exceeds the last index of the combined population of round order
/// and roster.
pub open spec fn nav_cursor(c: nat, total: nat, e: Event) -> nat {
    match e {
        Event::Key(k) => match k.code {
            KeyCode::Char(ch) => if ch == 'k' && c > 0 {
                (c - 1) as nat
            } else if ch == 'j' && c + 1 < total {
                c + 1
            } else {
                c
            },
            _ => c,
        },
        _ => c,
    }
}

/// The selection cursor never exceeds the last index of the combined
/// population: a navigation step preserves the bound, and a clamp
/// establishes it whatever came before.
pub proof fn lemma_cursor_bound(c: nat, total: nat, e: Event)
    requires
        total >= 1,
    ensures
        c <= total - 1 ==> nav_cursor(c, total, e) <= total - 1,
        clamped_cursor(c, total) <= total - 1,
{
}

/// The scroll offset nudged towards the cursor: up when the cursor left
/// the window above, down when it sits three or more lines below.
pub open spec fn nudged_offset(c: nat, off: nat) -> nat {
    if c < off {
        (off - 1) as nat
    } else if c - off >= 3 {
        off + 1
    } else {
        off
    }
}

/// The cursor clamped so that it never exceeds `total - 1`.
pub open spec fn clamped_cursor(c: nat, total: nat) -> nat
    recommends
        total >= 1,
{
    if c + 1 > total {
        (total - 1) as nat
    } else {
        c
    }
}

/// The round-robin turn queue of the in-game screen.
#[derive(Debug)]
pub struct Turn {
    selected_item_idx: usize,
    paragraph_offset: usize,
    current_round_order: VecDeque<Id>,
    next_round_order: Vec<Snapshot>,
    enter: bool,
}

impl Turn {
    /// Identifiers of the actors still due in the round in progress,
    /// front first.
    pub closed spec fn round(&self) -> Seq<Id> {
        self.current_round_order@
    }

    /// Snapshots of all living participants, in next-round order.
    pub closed spec fn roster(&self) -> Seq<Snapshot> {
        self.next_round_order@
    }

    /// The selection cursor into the concatenation of round order and
    /// roster.
    pub closed spec fn cursor(&self) -> nat {
        self.selected_item_idx as nat
    }

    /// The scroll offset of the widget's paragraph.
    pub closed spec fn offset(&self) -> nat {
        self.paragraph_offset as nat
    }

    /// Whether the widget has keyboard focus.
    pub closed spec fn entered(&self) -> bool {
        self.enter
    }

    pub fn new() -> (r: Turn)
        ensures
            r.round() == Seq::<Id>::empty(),
            r.roster() == Seq::<Snapshot>::empty(),
            r.cursor() == 0,
            r.offset() == 0,
            !r.entered(),
    {
        Turn {
            selected_item_idx: 0,
            paragraph_offset: 0,
            current_round_order: VecDeque::new(),
            next_round_order: Vec::new(),
            enter: false,
        }
    }

    /// Replaces the round order with the identifiers of the roster.
    fn refill_round_order(&mut self)
        ensures
            final(self).round() == ids_of(final(self).roster()),
            final(self).roster() == old(self).roster(),
            final(self).cursor() == old(self).cursor(),
            final(self).offset() == old(self).offset(),
            final(self).entered() == old(self).entered(),
    {
        self.current_round_order.clear();
        let n = self.next_round_order.len();
        let mut i: usize = 0;
        while i < n
            invariant
                i <= n,
                n == self.next_round_order@.len(),
                self.next_round_order@ == old(self).next_round_order@,
                self.selected_item_idx == old(self).selected_item_idx,
                self.paragraph_offset == old(self).paragraph_offset,
                self.enter == old(self).enter,
                self.current_round_order@ == ids_of(self.next_round_order@.take(i as int)),
            decreases n - i,
        {
            let id = self.next_round_order[i].id;
            self.current_round_order.push_back(id);
            proof {
                assert(ids_of(self.next_round_order@.take(i + 1)) =~= ids_of(
                    self.next_round_order@.take(i as int),
                ).push(self.next_round_order@[i as int].id));
            }
            i += 1;
        }
        proof {
            assert(self.next_round_order@.take(n as int) =~= self.next_round_order@);
        }
    }

    /// Clamps the cursor to the population of both collections.
    fn clamp_cursor(&mut self)
        requires
            old(self).round().len() + old(self).roster().len() >= 1,
        ensures
            final(self).round() == old(self).round(),
            final(self).roster() == old(self).roster(),
            final(self).offset() == old(self).offset(),
            final(self).entered() == old(self).entered(),
            final(self).cursor() == clamped_cursor(
                old(self).cursor(),
                (old(self).round().len() + old(self).roster().len()) as nat,
            ),
    {
        let cur_len = self.current_round_order.len();
        let next_len = self.next_round_order.len();
        if let Some(total) = cur_len.checked_add(next_len) {
            let last_idx = total - 1;
            if self.selected_item_idx > last_idx {
                self.selected_item_idx = last_idx;
            }
        }
    }

    /// Replaces the roster with the given snapshots sorted ascending by
    /// speed (ties keep their input order) and starts a fresh round over
    /// them.
    pub fn set_entities(&mut self, next_round_order: Vec<Snapshot>)
        ensures
            final(self).roster() == sort_by_spd(next_round_order@),
            final(self).round() == ids_of(final(self).roster()),
            final(self).cursor() == old(self).cursor(),
            final(self).offset() == old(self).offset(),
            final(self).entered() == old(self).entered(),
    {
        let mut v = next_round_order;
        sort_snapshots(&mut v);
        self.next_round_order = v;
        self.refill_round_order();
    }

    /// Re-sorts the roster by the current speed values without touching
    /// the round in progress.
    pub fn update_next_round_order(&mut self)
        ensures
            final(self).roster() == sort_by_spd(old(self).roster()),
            final(self).round() == old(self).round(),
            final(self).cursor() == old(self).cursor(),
            final(self).offset() == old(self).offset(),
            final(self).entered() == old(self).entered(),
    {
        sort_snapshots(&mut self.next_round_order);
    }

    /// The actor whose turn it is, if a round is active.
    pub fn get_current_turn(&self) -> (r: Option<Id>)
        ensures
            r == if self.round().len() > 0 {
                Some(self.round()[0])
            } else {
                None::<Id>
            },
    {
        if self.current_round_order.len() > 0 {
            Some(self.current_round_order[0])
        } else {
            None
        }
    }

    /// How many actors are still due in the round in progress.
    pub fn round_len(&self) -> (r: usize)
        ensures
            r == self.round().len(),
    {
        self.current_round_order.len()
    }

    /// How many participants the roster holds.
    pub fn roster_len(&self) -> (r: usize)
        ensures
            r == self.roster().len(),
    {
        self.next_round_order.len()
    }

    /// The selection cursor into the concatenation of round order and
    /// roster.
    pub fn selected_index(&self) -> (r: usize)
        ensures
            r == self.cursor(),
    {
        self.selected_item_idx
    }

    /// Rolls the scheduler over into a fresh round drawn from the roster,
    /// clamping the cursor to the new population.
    pub fn goto_next_round(&mut self)
        requires
            old(self).roster().len() >= 1,
        ensures
            final(self).round() == ids_of(final(self).roster()),
            final(self).roster() == old(self).roster(),
            final(self).offset() == old(self).offset(),
            final(self).entered() == old(self).entered(),
            final(self).cursor() == clamped_cursor(
                old(self).cursor(),
                (final(self).round().len() + final(self).roster().len()) as nat,
            ),
    {
        self.refill_round_order();
        self.clamp_cursor();
    }

    /// Retires the actor at the front of the round order and returns the
    /// actor now due; the call on the round's last actor rolls over into
    /// the next round instead.
    pub fn pop(&mut self) -> (r: Option<Id>)
        requires
            old(self).round().len() >= 1,
            old(self).round().len() == 1 ==> old(self).roster().len() >= 1,
        ensures
            final(self).round() == pop_model(old(self).round(), ids_of(old(self).roster())).0,
            r == pop_model(old(self).round(), ids_of(old(self).roster())).1,
            final(self).roster() == old(self).roster(),
            final(self).offset() == old(self).offset(),
            final(self).entered() == old(self).entered(),
            final(self).cursor() == clamped_cursor(
                old(self).cursor(),
                (final(self).round().len() + final(self).roster().len()) as nat,
            ),
    {
        if self.current_round_order.len() == 1 {
            self.goto_next_round();
            proof {
                assert(ids_of(self.roster()).len() == self.roster().len());
            }
            self.get_current_turn()
        } else {
            self.current_round_order.pop_front();
            self.clamp_cursor();
            proof {
                assert(self.round() =~= old(self).round().drop_first());
            }
            self.get_current_turn()
        }
    }

    /// Retires the front actor like `pop`, but answers `EmptyRound`
    /// instead of demanding an active round: the error comes exactly when
    /// the round order is empty — the invariant a caller breaks by
    /// skipping `set_entities` — or when the last actor has no roster to
    /// roll over to.
    pub fn advance(&mut self) -> (r: Result<Option<Id>, Error>)
        ensures
            old(self).round().len() >= 1 && old(self).roster().len() >= 1 ==> ({
                &&& r == Ok::<Option<Id>, Error>(
                    pop_model(old(self).round(), ids_of(old(self).roster())).1,
                )
                &&& final(self).round() == pop_model(
                    old(self).round(),
                    ids_of(old(self).roster()),
                ).0
                &&& final(self).roster() == old(self).roster()
                &&& final(self).offset() == old(self).offset()
                &&& final(self).entered() == old(self).entered()
                &&& final(self).cursor() == clamped_cursor(
                    old(self).cursor(),
                    (final(self).round().len() + final(self).roster().len()) as nat,
                )
            }),
            !(old(self).round().len() >= 1 && old(self).roster().len() >= 1) ==> ({
                &&& r == Err::<Option<Id>, Error>(Error::EmptyRound)
                &&& *final(self) == *old(self)
            }),
    {
        if self.current_round_order.len() >= 1 && self.next_round_order.len() >= 1 {
            Ok(self.pop())
        } else {
            Err(Error::EmptyRound)
        }
    }

    /// Sets the speed of every roster entry carrying the given identifier,
    /// leaving the round in progress untouched.
    pub fn set_speed(&mut self, id: Id, spd: i32)
        ensures
            final(self).round() == old(self).round(),
            final(self).cursor() == old(self).cursor(),
            final(self).offset() == old(self).offset(),
            final(self).entered() == old(self).entered(),
            final(self).roster().len() == old(self).roster().len(),
            forall|i: int|
                0 <= i < old(self).roster().len() ==> final(self).roster()[i] == (if old(
                    self,
                ).roster()[i].id == id {
                    Snapshot { id, spd }
                } else {
                    old(self).roster()[i]
                }),
    {
        let n = self.next_round_order.len();
        let mut i: usize = 0;
        while i < n
            invariant
                i <= n,
                n == self.next_round_order@.len(),
                self.current_round_order@ == old(self).current_round_order@,
                self.selected_item_idx == old(self).selected_item_idx,
                self.paragraph_offset == old(self).paragraph_offset,
                self.enter == old(self).enter,
                forall|k: int|
                    0 <= k < i ==> self.next_round_order@[k] == (if old(
                        self,
                    ).next_round_order@[k].id == id {
                        Snapshot { id, spd }
                    } else {
                        old(self).next_round_order@[k]
                    }),
                forall|k: int|
                    i <= k < n ==> self.next_round_order@[k] == old(self).next_round_order@[k],
            decreases n - i,
        {
            if self.next_round_order[i].id == id {
                self.next_round_order.set(i, Snapshot { id, spd });
            }
            i += 1;
        }
    }

    /// Moves the cursor for a key event and nudges the scroll offset
    /// towards it.
    pub fn handle_event(&mut self, event: &Event)
        requires
            old(self).round().len() + old(self).roster().len() <= usize::MAX,
        ensures
            final(self).round() == old(self).round(),
            final(self).roster() == old(self).roster(),
            final(self).entered() == old(self).entered(),
            final(self).cursor() == nav_cursor(
                old(self).cursor(),
                (old(self).round().len() + old(self).roster().len()) as nat,
                *event,
            ),
            final(self).offset() == nudged_offset(final(self).cursor(), old(self).offset()),
    {
        match *event {
            Event::Key(k) => match k.code {
                KeyCode::Char(c) => {
                    let total = self.current_round_order.len() + self.next_round_order.len();
                    if c == 'k' && self.selected_item_idx > 0 {
                        self.selected_item_idx -= 1;
                    } else if c == 'j' && total > 0 && self.selected_item_idx < total - 1 {
                        self.selected_item_idx += 1;
                    }
                },
                _ => {},
            },
            _ => {},
        }
        if self.selected_item_idx < self.paragraph_offset {
            self.paragraph_offset -= 1;
        } else if self.selected_item_idx - self.paragraph_offset >= 3 {
            self.paragraph_offset += 1;
        }
    }

    /// Gives the widget keyboard focus.
    pub fn enter(&mut self)
        ensures
            final(self).round() == old(self).round(),
            final(self).roster() == old(self).roster(),
            final(self).cursor() == old(self).cursor(),
            final(self).offset() == old(self).offset(),
            final(self).entered(),
    {
        self.enter = true;
    }

    /// Whether the widget has keyboard focus.
    pub fn is_entered(&self) -> (r: bool)
        ensures
            r == self.entered(),
    {
        self.enter
    }

    /// Takes keyboard focus away from the widget.
    pub fn exit(&mut self)
        ensures
            final(self).round() == old(self).round(),
            final(self).roster() == old(self).roster(),
            final(self).cursor() == old(self).cursor(),
            final(self).offset() == old(self).offset(),
            !final(self).entered(),
    {
        self.enter = false;
    }

    pub fn get_type(&self) -> (r: ComponentType)
        ensures
            r == ComponentType::Turn,
    {
        ComponentType::Turn
    }
}

/// Rollover clears exactly once: every `pop` shortens the round order by
/// exactly one, except the call on the round's last actor, after which its
/// length equals the roster's size.
pub proof fn lemma_rollover_length(round: Seq<Id>, roster_ids: Seq<Id>)
    requires
        round.len() >= 1,
    ensures
        round.len() > 1 ==> pop_model(round, roster_ids).0.len() == round.len() - 1,
        round.len() == 1 ==> pop_model(round, roster_ids).0.len() == roster_ids.len(),
{
}

/// As long as a run of `pop`s stops short of the rollover call, it reads
/// only the round order: the actors come out front to back and the roster
/// is never consulted.
pub proof fn lemma_pops_no_rollover(round: Seq<Id>, roster_ids: Seq<Id>, k: nat)
    requires
        k + 1 <= round.len(),
    ensures
        pops_model(round, roster_ids, k).0 == round.skip(k as int),
        pops_model(round, roster_ids, k).1.len() == k,
        forall|i: int|
            0 <= i < k ==> pops_model(round, roster_ids, k).1[i] == Some(round[i + 1]),
    decreases k,
{
    if k == 0 {
        assert(round.skip(0) =~= round);
    } else {
        lemma_pops_no_rollover(round, roster_ids, (k - 1) as nat);
        let prev = pops_model(round, roster_ids, (k - 1) as nat);
        assert(prev.0.len() == round.len() - (k - 1));
        assert(round.skip(k - 1).drop_first() =~= round.skip(k as int));
        assert(round.skip(k - 1)[1] == round[k as int]);
    }
}

/// Stable mid-round ordering: `pop`s that stop short of rollover give the
/// same answers whatever the roster holds, so a speed change — which
/// touches only the roster — leaves the remainder of the current round as
/// it was. It shows only once `update_next_round_order` and the next
/// rollover rebuild the round order from the re-sorted roster.
pub proof fn lemma_stable_mid_round(round: Seq<Id>, roster_a: Seq<Id>, roster_b: Seq<Id>, k: nat)
    requires
        k + 1 <= round.len(),
    ensures
        pops_model(round, roster_a, k) == pops_model(round, roster_b, k),
{
    lemma_pops_no_rollover(round, roster_a, k);
    lemma_pops_no_rollover(round, roster_b, k);
    assert(pops_model(round, roster_a, k).1 =~= pops_model(round, roster_b, k).1);
}

/// Round monotonicity: with pairwise distinct speeds the sorted roster is
/// strictly ascending in speed. Over a fresh round of `n` actors, the
/// first `n - 1` `pop`s return the remaining actors in that ascending
/// order, the `n`-th rolls over and returns the round's first actor, the
/// round order is then back where it started, and the `(n+1)`-th `pop`
/// repeats the first answer.
pub proof fn lemma_round_monotonicity(v: Seq<Snapshot>, n: nat)
    requires
        distinct_speeds(v),
        n == v.len(),
        n >= 1,
    ensures
        ({
            let s = sort_by_spd(v);
            let q = ids_of(s);
            let run = pops_model(q, q, n);
            &&& forall|i: int, j: int| 0 <= i < j < n ==> s[i].spd < s[j].spd
            &&& run.1.len() == n
            &&& forall|i: int| 0 <= i < n - 1 ==> run.1[i] == Some(q[i + 1])
            &&& run.1[n - 1] == Some(q[0])
            &&& run.0 == q
            &&& pops_model(q, q, n + 1).1[n as int] == run.1[0]
        }),
{
    broadcast use vstd::seq_lib::group_to_multiset_ensures;

    let s = sort_by_spd(v);
    let q = ids_of(s);
    lemma_sort_ensures(v);
    assert(v.no_duplicates()) by {
        assert forall|a: int, b: int| 0 <= a < v.len() && 0 <= b < v.len() && a != b implies v[a]
            != v[b] by {
            if a < b {
                assert(v[a].spd != v[b].spd);
            } else {
                assert(v[b].spd != v[a].spd);
            }
        }
    }
    v.lemma_multiset_has_no_duplicates();
    s.lemma_multiset_has_no_duplicates_conv();
    assert forall|i: int, j: int| 0 <= i < j < n implies s[i].spd < s[j].spd by {
        assert(s[i].spd <= s[j].spd);
        if s[i].spd == s[j].spd {
            assert(s[i] != s[j]);
            assert(s.contains(s[i]));
            assert(s.contains(s[j]));
            assert(v.to_multiset().count(s[i]) > 0);
            assert(v.to_multiset().count(s[j]) > 0);
            assert(v.contains(s[i]));
            assert(v.contains(s[j]));
            let a = choose|a: int| 0 <= a < v.len() && v[a] == s[i];
            let b = choose|b: int| 0 <= b < v.len() && v[b] == s[j];
            if a < b {
                assert(v[a].spd != v[b].spd);
            } else {
                assert(v[b].spd != v[a].spd);
            }
        }
    }
    assert(q.len() == n);
    lemma_pops_no_rollover(q, q, (n - 1) as nat);
    let prev = pops_model(q, q, (n - 1) as nat);
    assert(prev.0 == q.skip(n - 1));
    assert(prev.0.len() == 1);
    let run = pops_model(q, q, n);
    assert(run.0 == q);
    assert(run.1 == prev.1.push(Some(q[0])));
    assert(run.1[n - 1] == Some(q[0]));
    let run2 = pops_model(q, q, n + 1);
    assert(run2.1[n as int] == pop_model(q, q).1);
    if n == 1 {
        assert(run.1[0] == Some(q[0]));
        assert(pop_model(q, q).1 == Some(q[0]));
    } else {
        assert(run.1[0] == prev.1[0]);
        assert(prev.1[0] == Some(q[1]));
        assert(pop_model(q, q).1 == Some(q[1]));
    }
}

} // verus!
