//! The bounded log store: an evicting, ordered window of entries, each known
//! by the absolute index it was given on arrival.

use crate::parser::LogEntry;
use std::collections::VecDeque;
use vstd::prelude::*;

verus! {

/// Capacity of a store when none is asked for.
pub const DEFAULT_CAPACITY: usize = 250_000;

/// Smallest capacity a store can have.
pub const MIN_CAPACITY: usize = 10_000;

/// Largest capacity a store can have.
pub const MAX_CAPACITY: usize = 2_000_000;

/// How many entries a new store makes room for at once.
pub const INITIAL_RESERVE: usize = 100_000;

/// The capacity a store gets when `requested` is asked for: `requested`
/// brought into the range from `MIN_CAPACITY` to `MAX_CAPACITY`.
pub open spec fn clamped_capacity(requested: nat) -> nat {
    if requested < MIN_CAPACITY {
        MIN_CAPACITY as nat
    } else if requested > MAX_CAPACITY {
        MAX_CAPACITY as nat
    } else {
        requested
    }
}

/// What a store holds: the live entries from oldest to newest, the absolute
/// index of the oldest, and the capacity.
pub struct StoreModel {
    pub live: Seq<LogEntry>,
    pub base: nat,
    pub capacity: nat,
}

impl StoreModel {
    /// An empty store of the given capacity.
    pub open spec fn empty(capacity: nat) -> StoreModel {
        StoreModel { live: Seq::empty(), base: 0, capacity }
    }

    /// The absolute index that the next entry will get.
    pub open spec fn next_index(self) -> nat {
        self.base + self.live.len()
    }

    /// Whether `index` names a live entry.
    pub open spec fn holds(self, index: nat) -> bool {
        self.base <= index < self.base + self.live.len()
    }

    /// The live entry with absolute index `index`.
    pub open spec fn entry(self, index: nat) -> LogEntry
        recommends
            self.holds(index),
    {
        self.live[index - self.base]
    }

    /// The store after `entry` arrives: the entry joins at the tail, and if
    /// that exceeds the capacity the oldest entry leaves and the base moves
    /// up by one.
    pub open spec fn append(self, entry: LogEntry) -> StoreModel {
        if self.live.len() + 1 > self.capacity {
            StoreModel {
                live: self.live.push(entry).drop_first(),
                base: self.base + 1,
                capacity: self.capacity,
            }
        } else {
            StoreModel { live: self.live.push(entry), base: self.base, capacity: self.capacity }
        }
    }

    /// The store after the entries of `arrivals` arrive in order.
    pub open spec fn append_all(self, arrivals: Seq<LogEntry>) -> StoreModel
        decreases arrivals.len(),
    {
        if arrivals.len() == 0 {
            self
        } else {
            self.append_all(arrivals.drop_last()).append(arrivals.last())
        }
    }

    /// Whether the store is within its capacity.
    pub open spec fn within_capacity(self) -> bool {
        self.live.len() <= self.capacity
    }
}

/// An append to a store that has room keeps every entry and the base; an
/// append to a full store lets exactly the oldest entry go and moves the
/// base up by exactly one. Either way the new entry gets the index after the
/// last one given, and the store stays within its capacity.
pub proof fn lemma_append_one_in_one_out(store: StoreModel, entry: LogEntry)
    requires
        store.within_capacity(),
        store.capacity > 0,
    ensures
        store.append(entry).within_capacity(),
        store.append(entry).next_index() == store.next_index() + 1,
        store.append(entry).holds(store.next_index()),
        store.append(entry).entry(store.next_index()) == entry,
        store.live.len() < store.capacity ==> {
            &&& store.append(entry).base == store.base
            &&& store.append(entry).live.len() == store.live.len() + 1
        },
        store.live.len() == store.capacity ==> {
            &&& store.append(entry).base == store.base + 1
            &&& store.append(entry).live.len() == store.capacity
            &&& !store.append(entry).holds(store.base)
        },
        forall|index: nat|
            store.holds(index) && index != store.base ==> #[trigger] store.append(entry).holds(index)
                && store.append(entry).entry(index) == store.entry(index),
{
}

/// After `n` arrivals an empty store of capacity `c` holds the last
/// `min(n, c)` of them, and its base is the number of entries that had to
/// leave: `n - c` if `n` exceeds `c`, else 0.
pub proof fn lemma_append_all_from_empty(capacity: nat, arrivals: Seq<LogEntry>)
    requires
        capacity > 0,
    ensures
        ({
            let store = StoreModel::empty(capacity).append_all(arrivals);
            let evicted = if arrivals.len() > capacity {
                arrivals.len() - capacity
            } else {
                0
            };
            &&& store.capacity == capacity
            &&& store.base == evicted
            &&& store.live == arrivals.subrange(evicted, arrivals.len() as int)
            &&& store.next_index() == arrivals.len()
        }),
    decreases arrivals.len(),
{
    if arrivals.len() > 0 {
        lemma_append_all_from_empty(capacity, arrivals.drop_last());
    }
}

/// An ordered window of at most `capacity` log entries. Each entry is known
/// by the absolute index it got on arrival; indices are given in arrival
/// order and the live entries are exactly those with indices from the base
/// up to the next index to be given.
pub struct BoundedLogStore {
    entries: VecDeque<LogEntry>,
    base: usize,
    capacity: usize,
}

impl View for BoundedLogStore {
    type V = StoreModel;

    closed spec fn view(&self) -> StoreModel {
        StoreModel {
            live: self.entries@,
            base: self.base as nat,
            capacity: self.capacity as nat,
        }
    }
}

impl BoundedLogStore {
    /// The store's invariant: the capacity is within its limits, the store is
    /// within its capacity, and the next index to give fits in a `usize`.
    pub closed spec fn wf(&self) -> bool {
        &&& MIN_CAPACITY <= self.capacity <= MAX_CAPACITY
        &&& self.entries@.len() <= self.capacity
        &&& self.base + self.entries@.len() <= usize::MAX
    }

    /// What `wf` says, over the view.
    pub proof fn lemma_wf(&self)
        requires
            self.wf(),
        ensures
            MIN_CAPACITY <= self@.capacity <= MAX_CAPACITY,
            self@.within_capacity(),
            self@.next_index() <= usize::MAX,
    {
    }

    /// Brings a requested capacity into the accepted range.
    pub fn clamp_capacity(requested: usize) -> (capacity: usize)
        ensures
            capacity == clamped_capacity(requested as nat),
            MIN_CAPACITY <= capacity <= MAX_CAPACITY,
    {
        if requested < MIN_CAPACITY {
            MIN_CAPACITY
        } else if requested > MAX_CAPACITY {
            MAX_CAPACITY
        } else {
            requested
        }
    }

    /// An empty store. A requested capacity outside the accepted range is
    /// clamped into it.
    pub fn new(requested_capacity: usize) -> (store: BoundedLogStore)
        ensures
            store.wf(),
            store@ == StoreModel::empty(clamped_capacity(requested_capacity as nat)),
    {
        let capacity = BoundedLogStore::clamp_capacity(requested_capacity);
        let reserve: usize = if capacity < INITIAL_RESERVE {
            capacity
        } else {
            INITIAL_RESERVE
        };
        BoundedLogStore { entries: VecDeque::with_capacity(reserve), base: 0, capacity }
    }

    /// Number of live entries.
    pub fn len(&self) -> (n: usize)
        ensures
            n == self@.live.len(),
    {
        broadcast use vstd::std_specs::vecdeque::axiom_spec_len;

        self.entries.len()
    }

    /// Whether the store holds no entry.
    pub fn is_empty(&self) -> (r: bool)
        ensures
            r == (self@.live.len() == 0),
    {
        self.len() == 0
    }

    /// Absolute index of the oldest live entry.
    pub fn base(&self) -> (base: usize)
        ensures
            base == self@.base,
    {
        self.base
    }

    /// The most entries the store holds at once.
    pub fn capacity(&self) -> (capacity: usize)
        ensures
            capacity == self@.capacity,
    {
        self.capacity
    }

    /// The absolute index that the next entry will get.
    pub fn next_index(&self) -> (index: usize)
        requires
            self.wf(),
        ensures
            index == self@.next_index(),
    {
        self.base + self.len()
    }

    /// Adds `entry` at the tail and returns its absolute index. If the store
    /// was full, the oldest entry leaves and the base moves up by one.
    pub fn append(&mut self, entry: LogEntry) -> (index: usize)
        requires
            old(self).wf(),
            old(self)@.next_index() < usize::MAX,
        ensures
            final(self).wf(),
            final(self)@ == old(self)@.append(entry),
            index == old(self)@.next_index(),
    {
        broadcast use vstd::std_specs::vecdeque::axiom_spec_len;

        let index = self.base + self.entries.len();
        self.entries.push_back(entry);
        if self.entries.len() > self.capacity {
            let _ = self.entries.pop_front();
            self.base += 1;
        }
        index
    }

    /// The live entry with absolute index `index`, or `None` if `index` is
    /// stale or was never given.
    pub fn get(&self, index: usize) -> (r: Option<&LogEntry>)
        ensures
            match r {
                Some(entry) => self@.holds(index as nat) && *entry == self@.entry(index as nat),
                None => !self@.holds(index as nat),
            },
    {
        broadcast use vstd::std_specs::vecdeque::axiom_spec_len;

        if index < self.base {
            return None;
        }
        let offset = index - self.base;
        if offset < self.entries.len() {
            Some(&self.entries[offset])
        } else {
            None
        }
    }

    /// Whether `index` names a live entry.
    pub fn contains(&self, index: usize) -> (r: bool)
        ensures
            r == self@.holds(index as nat),
    {
        self.get(index).is_some()
    }

    /// Drops all entries and starts the numbering again at 0.
    pub fn clear(&mut self)
        requires
            old(self).wf(),
        ensures
            final(self).wf(),
            final(self)@ == StoreModel::empty(old(self)@.capacity),
    {
        self.entries.clear();
        self.base = 0;
    }
}

} // verus!
