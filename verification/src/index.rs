//! Derived index collections: ascending lists of the absolute indices of
//! those live entries that meet a condition.

use crate::filter::{CrashClassifier, FilterView};
use crate::parser::{EntryView, LogEntry};
use crate::store::StoreModel;
use std::collections::VecDeque;
use vstd::prelude::*;

verus! {

/// The condition by which an index collection picks entries.
pub enum Selector {
    /// The entries that pass a filter set.
    Passing(FilterView),
    /// The entries that count as crash or ANR reports.
    Crashes,
}

impl Selector {
    /// Whether the condition picks `entry`.
    pub open spec fn keeps(self, entry: EntryView) -> bool {
        match self {
            Selector::Passing(filters) => filters.admits(entry),
            Selector::Crashes => CrashClassifier::flags(entry),
        }
    }
}

/// The absolute indices of the entries among `live` that `by` picks, in
/// ascending order, where `live[0]` has the absolute index `base`.
pub open spec fn select_from(live: Seq<LogEntry>, base: nat, by: Selector) -> Seq<usize>
    decreases live.len(),
{
    if live.len() == 0 {
        Seq::empty()
    } else {
        let earlier = select_from(live.drop_last(), base, by);
        if by.keeps(live.last()@) {
            earlier.push((base + live.len() - 1) as usize)
        } else {
            earlier
        }
    }
}

/// The absolute indices of the live entries of `store` that `by` picks, in
/// ascending order.
pub open spec fn select(store: StoreModel, by: Selector) -> Seq<usize> {
    select_from(store.live, store.base, by)
}

/// `list` without its leading indices below `base`.
pub open spec fn pruned(list: Seq<usize>, base: nat) -> Seq<usize>
    decreases list.len(),
{
    if list.len() > 0 && list[0] < base {
        pruned(list.drop_first(), base)
    } else {
        list
    }
}

/// Whether `list` is strictly increasing.
pub open spec fn strictly_increasing(list: Seq<usize>) -> bool {
    forall|i: int, j: int| 0 <= i < j < list.len() ==> list[i] < list[j]
}

/// A new arrival joins the selection at its tail if the condition picks
/// it, and leaves the selection as it was if not.
pub proof fn lemma_select_push(live: Seq<LogEntry>, base: nat, by: Selector, entry: LogEntry)
    ensures
        select_from(live.push(entry), base, by) == if by.keeps(entry@) {
            select_from(live, base, by).push((base + live.len()) as usize)
        } else {
            select_from(live, base, by)
        },
{
    assert(live.push(entry).drop_last() =~= live);
}

/// A selection is strictly increasing, names live entries only, names only
/// entries that the condition picks, and names every live entry that the
/// condition picks.
pub proof fn lemma_select_exact(live: Seq<LogEntry>, base: nat, by: Selector)
    requires
        base + live.len() <= usize::MAX,
    ensures
        strictly_increasing(select_from(live, base, by)),
        select_from(live, base, by).len() <= live.len(),
        forall|j: int|
            0 <= j < select_from(live, base, by).len() ==> {
                let index = #[trigger] select_from(live, base, by)[j];
                &&& base <= index < base + live.len()
                &&& by.keeps(live[index - base]@)
            },
        forall|i: int|
            0 <= i < live.len() && by.keeps(#[trigger] live[i]@) ==> select_from(
                live,
                base,
                by,
            ).contains((base + i) as usize),
    decreases live.len(),
{
    if live.len() > 0 {
        let before = live.drop_last();
        lemma_select_exact(before, base, by);
        let earlier = select_from(before, base, by);
        let whole = select_from(live, base, by);
        let last = (base + live.len() - 1) as usize;
        assert forall|i: int| 0 <= i < live.len() && by.keeps(#[trigger] live[i]@) implies whole.contains(
            (base + i) as usize,
        ) by {
            if i < live.len() - 1 {
                assert(before[i] == live[i]);
                let at = choose|k: int| 0 <= k < earlier.len() && earlier[k] == (base + i) as usize;
                assert(whole[at] == (base + i) as usize);
            } else {
                assert(whole[whole.len() - 1] == last);
            }
        }
        assert forall|j: int| 0 <= j < whole.len() implies {
            let index = #[trigger] whole[j];
            &&& base <= index < base + live.len()
            &&& by.keeps(live[index - base]@)
        } by {}
    }
}

/// When the oldest entry leaves, a selection loses that entry's index if it
/// held it, and nothing else.
pub proof fn lemma_select_drop_first(live: Seq<LogEntry>, base: nat, by: Selector)
    requires
        live.len() > 0,
        base + live.len() <= usize::MAX,
    ensures
        select_from(live.drop_first(), base + 1, by) == if by.keeps(live[0]@) {
            select_from(live, base, by).drop_first()
        } else {
            select_from(live, base, by)
        },
        by.keeps(live[0]@) ==> select_from(live, base, by).len() > 0 && select_from(
            live,
            base,
            by,
        )[0] == base,
        !by.keeps(live[0]@) ==> select_from(live, base, by).len() == 0 || select_from(
            live,
            base,
            by,
        )[0] > base,
    decreases live.len(),
{
    if live.len() == 1 {
        assert(select_from(live, base, by).drop_first() =~= Seq::<usize>::empty()
            || !by.keeps(live[0]@));
    } else {
        let before = live.drop_last();
        lemma_select_drop_first(before, base, by);
        assert(before.drop_first() =~= live.drop_first().drop_last());
    }
}

/// Pruning a strictly increasing list whose entries, but perhaps the first,
/// are at or above `base` drops at most that first entry.
pub proof fn lemma_pruned_head(list: Seq<usize>, base: nat)
    requires
        forall|j: int| 1 <= j < list.len() ==> #[trigger] list[j] >= base,
    ensures
        pruned(list, base) == if list.len() > 0 && list[0] < base {
            list.drop_first()
        } else {
            list
        },
{
    reveal_with_fuel(pruned, 2);
}

/// The selection over a store after an arrival is the selection before it,
/// with the arrival's index added if the condition picks the arrival, and
/// pruned of what lies below the new base.
pub proof fn lemma_select_append(store: StoreModel, by: Selector, entry: LogEntry)
    requires
        store.within_capacity(),
        store.capacity > 0,
        store.next_index() < usize::MAX,
    ensures
        select(store.append(entry), by) == pruned(
            if by.keeps(entry@) {
                select(store, by).push(store.next_index() as usize)
            } else {
                select(store, by)
            },
            store.append(entry).base,
        ),
{
    let grown = store.live.push(entry);
    let list = select_from(grown, store.base, by);
    lemma_select_push(store.live, store.base, by, entry);
    lemma_select_exact(grown, store.base, by);
    if store.live.len() + 1 > store.capacity {
        lemma_select_drop_first(grown, store.base, by);
        assert forall|j: int| 1 <= j < list.len() implies #[trigger] list[j] >= store.base + 1 by {}
        lemma_pruned_head(list, store.base + 1);
    } else {
        assert forall|j: int| 1 <= j < list.len() implies #[trigger] list[j] >= store.base by {}
        lemma_pruned_head(list, store.base);
    }
}

/// Drops from the front of `list` the indices below `base`.
pub fn prune_below(list: &mut VecDeque<usize>, base: usize)
    ensures
        final(list)@ == pruned(old(list)@, base as nat),
{
    broadcast use vstd::std_specs::vecdeque::axiom_spec_len;

    while list.len() > 0 && list[0] < base
        invariant
            pruned(list@, base as nat) == pruned(old(list)@, base as nat),
        decreases list@.len(),
    {
        let _ = list.pop_front();
    }
}

} // verus!
