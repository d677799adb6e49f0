//! Batching of grid updates for the IPC channel: updates for the same tab
//! are merged, and a batch is delivered when it is full, when the flush
//! interval has passed, or when the channel closes.

use vstd::prelude::*;
use crate::catalog::{CatalogEntry, GridUpdate, GridUpdateSource};
use crate::text::str_eq;

verus! {

/// Most distinct updates held before a batch is delivered.
pub const MAX_BATCH_SIZE: usize = 10;

/// Milliseconds between deliveries when updates trickle in.
pub const DEFAULT_FLUSH_INTERVAL_MS: u64 = 200;

/// One buffered update: its tab label, its source, and its entries.
pub type Slot = (Seq<char>, GridUpdateSource, Seq<CatalogEntry>);

/// The buffered form of an update.
pub open spec fn slot_view(g: GridUpdate) -> Slot {
    (g.tab@, g.source, g.entries@)
}

/// The first slot filed under tab `tab`.
pub open spec fn slot_of(b: Seq<Slot>, tab: Seq<char>) -> Option<int>
    decreases b.len(),
{
    if b.len() == 0 {
        None
    } else if b[0].0 == tab {
        Some(0)
    } else {
        match slot_of(b.drop_first(), tab) {
            Some(i) => Some(i + 1),
            None => None,
        }
    }
}

/// Whether slot `s` is filed under tab `tab`.
pub open spec fn slot_matches(s: Slot, tab: Seq<char>) -> bool {
    s.0 == tab
}

/// The buffer after update `u` arrives: its entries appended to the slot
/// of its tab (which keeps the source of the tab's first update), or a new
/// slot at the end.
pub open spec fn inserted(b: Seq<Slot>, u: GridUpdate) -> Seq<Slot> {
    match slot_of(b, u.tab@) {
        Some(i) => b.update(i, (b[i].0, b[i].1, b[i].2 + u.entries@)),
        None => b.push(slot_view(u)),
    }
}

/// `slot_of` names the first matching slot, or there is none.
proof fn lemma_slot_of(b: Seq<Slot>, tab: Seq<char>)
    ensures
        match slot_of(b, tab) {
            Some(i) => 0 <= i < b.len() && slot_matches(b[i], tab) && forall|j: int|
                0 <= j < i ==> !slot_matches(#[trigger] b[j], tab),
            None => forall|j: int| 0 <= j < b.len() ==> !slot_matches(#[trigger] b[j], tab),
        },
    decreases b.len(),
{
    if b.len() > 0 {
        lemma_slot_of(b.drop_first(), tab);
        assert forall|j: int| 1 <= j < b.len() implies #[trigger] b[j] == b.drop_first()[j - 1] by {}
    }
}

/// No two slots are filed under the same tab.
pub open spec fn slots_distinct(b: Seq<Slot>) -> bool {
    forall|i: int, j: int| 0 <= i < j < b.len() ==> (#[trigger] b[i]).0 != (#[trigger] b[j]).0
}

/// The number of entries held across all slots.
pub open spec fn entry_count(b: Seq<Slot>) -> nat
    decreases b.len(),
{
    if b.len() == 0 {
        0
    } else {
        entry_count(b.drop_last()) + b.last().2.len()
    }
}

/// Updating one slot's entries changes the count by the difference.
proof fn lemma_entry_count_update(b: Seq<Slot>, i: int, v: Slot)
    requires
        0 <= i < b.len(),
    ensures
        entry_count(b.update(i, v)) == entry_count(b) - b[i].2.len() + v.2.len(),
    decreases b.len(),
{
    if i < b.len() - 1 {
        lemma_entry_count_update(b.drop_last(), i, v);
        assert(b.update(i, v).drop_last() =~= b.drop_last().update(i, v));
    } else {
        assert(b.update(i, v).drop_last() =~= b.drop_last());
    }
}

/// Merging keeps one slot per tab, and loses no entry: after an
/// update arrives the buffer holds exactly its entries more.
pub proof fn lemma_inserted_keeps_slots(b: Seq<Slot>, u: GridUpdate)
    requires
        slots_distinct(b),
    ensures
        slots_distinct(inserted(b, u)),
        entry_count(inserted(b, u)) == entry_count(b) + u.entries@.len(),
{
    lemma_slot_of(b, u.tab@);
    let r = inserted(b, u);
    match slot_of(b, u.tab@) {
        Some(k) => {
            lemma_entry_count_update(b, k, (b[k].0, b[k].1, b[k].2 + u.entries@));
            assert forall|i: int, j: int| 0 <= i < j < r.len() implies (#[trigger] r[i]).0 != (#[trigger] r[j]).0 by {
                assert(r[i].0 == b[i].0);
                assert(r[j].0 == b[j].0);
            }
        },
        None => {
            assert(r.drop_last() =~= b);
            assert forall|i: int, j: int| 0 <= i < j < r.len() implies (#[trigger] r[i]).0 != (#[trigger] r[j]).0 by {
                if j < b.len() {
                    assert(r[i] == b[i] && r[j] == b[j]);
                } else {
                    assert(r[i] == b[i]);
                    assert(!slot_matches(b[i], u.tab@));
                }
            }
        },
    }
}

/// Buffered grid updates, one per tab, in order of first arrival.
pub struct UpdateBuffer {
    updates: Vec<GridUpdate>,
}

impl UpdateBuffer {
    /// The buffered slots.
    pub closed spec fn slots(&self) -> Seq<Slot> {
        self.updates@.map_values(|g: GridUpdate| slot_view(g))
    }

    /// An empty buffer.
    pub fn new() -> (b: Self)
        ensures
            b.slots().len() == 0,
    {
        UpdateBuffer { updates: Vec::new() }
    }

    /// How many distinct updates are buffered.
    pub fn len(&self) -> (n: usize)
        ensures
            n == self.slots().len(),
    {
        self.updates.len()
    }

    /// Whether nothing is buffered.
    pub fn is_empty(&self) -> (r: bool)
        ensures
            r == (self.slots().len() == 0),
    {
        self.updates.len() == 0
    }

    /// The position of the slot filed under `u`'s tab.
    fn find_slot(&self, u: &GridUpdate) -> (r: Option<usize>)
        ensures
            match r {
                Some(i) => slot_of(self.slots(), u.tab@) == Some(i as int) && i < self.updates@.len(),
                None => slot_of(self.slots(), u.tab@) is None,
            },
    {
        let ghost b0 = self.slots();
        let mut i: usize = 0;
        while i < self.updates.len()
            invariant
                i <= self.updates@.len(),
                b0 == self.updates@.map_values(|g: GridUpdate| slot_view(g)),
                forall|j: int| 0 <= j < i ==> !slot_matches(#[trigger] b0[j], u.tab@),
            decreases self.updates@.len() - i,
        {
            proof {
                assert(b0[i as int] == slot_view(self.updates@[i as int]));
            }
            if str_eq(self.updates[i].tab.as_str(), u.tab.as_str()) {
                proof {
                    lemma_slot_of(b0, u.tab@);
                    match slot_of(b0, u.tab@) {
                        Some(k) => {
                            if k < i {
                                assert(!slot_matches(b0[k], u.tab@));
                            } else if k > i {
                                assert(slot_matches(b0[i as int], u.tab@));
                            }
                        },
                        None => {
                            assert(slot_matches(b0[i as int], u.tab@));
                        },
                    }
                }
                return Some(i);
            }
            i += 1;
        }
        proof {
            lemma_slot_of(b0, u.tab@);
            match slot_of(b0, u.tab@) {
                Some(k) => {
                    assert(!slot_matches(b0[k], u.tab@));
                },
                None => {},
            }
        }
        None
    }

    /// Take in update `u` (see `inserted`).
    pub fn insert(&mut self, u: GridUpdate)
        ensures
            final(self).slots() == inserted(old(self).slots(), u),
    {
        let ghost b0 = self.slots();
        let ghost u0 = u;
        match self.find_slot(&u) {
            Some(i) => {
                let ghost old_updates = self.updates@;
                let mut g = self.updates.remove(i);
                let ghost g0 = g;
                assert(slot_view(g0) == b0[i as int]);
                let mut more = u.entries;
                g.entries.append(&mut more);
                assert(g.entries@ == g0.entries@ + u0.entries@);
                self.updates.insert(i, g);
                assert(self.updates@ =~= old_updates.update(i as int, g));
                assert(self.slots() =~= inserted(b0, u0));
            },
            None => {
                self.updates.push(u);
                assert(self.slots() =~= inserted(b0, u0));
            },
        }
    }

    /// Hand out everything buffered, in order, leaving the buffer empty.
    pub fn drain(&mut self) -> (r: Vec<GridUpdate>)
        ensures
            r@.map_values(|g: GridUpdate| slot_view(g)) == old(self).slots(),
            final(self).slots().len() == 0,
    {
        let mut out: Vec<GridUpdate> = Vec::new();
        std::mem::swap(&mut out, &mut self.updates);
        out
    }

    /// Drop everything buffered.
    pub fn clear(&mut self)
        ensures
            final(self).slots().len() == 0,
    {
        self.updates = Vec::new();
    }
}

/// Whether a batch is due: the buffer is full, or the flush interval has
/// passed since the last delivery.
pub open spec fn flush_due(len: nat, elapsed_ms: u64, interval_ms: u64) -> bool {
    len >= MAX_BATCH_SIZE || elapsed_ms >= interval_ms
}

/// What the receive loop observed.
#[derive(Debug, Clone)]
pub enum BatchEvent {
    /// An update arrived.
    Update(GridUpdate),
    /// The channel dropped updates the receiver was too slow for.
    Lagged,
    /// The channel closed.
    Closed,
    /// The flush timer fired.
    Tick,
}

/// What the receive loop does next.
#[derive(Debug)]
pub enum BatchAction {
    /// Deliver this batch and restart the flush interval.
    Deliver(Vec<GridUpdate>),
    /// Keep waiting; restart the flush interval when `restart` is set.
    Wait { restart: bool },
    /// The channel is closed and nothing is left: stop.
    Finish,
}

/// One step of the receive loop, with `elapsed_ms` since the last
/// delivery: an update is buffered and the batch delivered when due (see
/// `flush_due`); a lag clears the buffer and delivers an empty batch; a
/// close delivers what is left, or finishes; a timer tick delivers what is
/// buffered, or just restarts the interval.
pub fn batch_step(buf: &mut UpdateBuffer, ev: BatchEvent, elapsed_ms: u64, interval_ms: u64) -> (a: BatchAction)
    ensures
        match ev {
            BatchEvent::Update(u) => {
                let b = inserted(old(buf).slots(), u);
                if flush_due(b.len(), elapsed_ms, interval_ms) {
                    a matches BatchAction::Deliver(v) && v@.map_values(|g: GridUpdate| slot_view(g)) == b
                        && final(buf).slots().len() == 0
                } else {
                    a matches BatchAction::Wait { restart } && !restart && final(buf).slots() == b
                }
            },
            BatchEvent::Lagged => a matches BatchAction::Deliver(v) && v@.len() == 0 && final(buf).slots().len() == 0,
            BatchEvent::Closed => if old(buf).slots().len() > 0 {
                a matches BatchAction::Deliver(v) && v@.map_values(|g: GridUpdate| slot_view(g)) == old(buf).slots()
                    && final(buf).slots().len() == 0
            } else {
                a is Finish && final(buf).slots().len() == 0
            },
            BatchEvent::Tick => if old(buf).slots().len() > 0 {
                a matches BatchAction::Deliver(v) && v@.map_values(|g: GridUpdate| slot_view(g)) == old(buf).slots()
                    && final(buf).slots().len() == 0
            } else {
                a matches BatchAction::Wait { restart } && restart && final(buf).slots().len() == 0
            },
        },
{
    match ev {
        BatchEvent::Update(u) => {
            buf.insert(u);
            if buf.len() >= MAX_BATCH_SIZE || elapsed_ms >= interval_ms {
                BatchAction::Deliver(buf.drain())
            } else {
                BatchAction::Wait { restart: false }
            }
        },
        BatchEvent::Lagged => {
            buf.clear();
            BatchAction::Deliver(Vec::new())
        },
        BatchEvent::Closed => {
            if buf.is_empty() {
                BatchAction::Finish
            } else {
                BatchAction::Deliver(buf.drain())
            }
        },
        BatchEvent::Tick => {
            if buf.is_empty() {
                BatchAction::Wait { restart: true }
            } else {
                BatchAction::Deliver(buf.drain())
            }
        },
    }
}

} // verus!
