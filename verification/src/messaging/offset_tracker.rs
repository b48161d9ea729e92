//! The next read position of every partition that this consumer reads, and
//! the partitions that the broker has assigned to it.
//!
//! The two tables live in `dashmap` maps. What such a map holds is named by
//! [`entries_of`]; the calls that read or change it are trusted to do to the
//! entries what their documentation says, and everything built on them is
//! proved. The tracker is a single-owner value: whoever holds it exclusively
//! may change it, which is what lets a contract speak of its content. It
//! cannot be cloned. Threads that are to share one tracker share its owner;
//! [`OffsetTracker::detached_copy`] hands out a copy that stays as it is.

use dashmap::DashMap;
use vstd::prelude::*;

verus! {

#[verifier::external_type_specification]
#[verifier::external_body]
#[verifier::reject_recursive_types(K)]
#[verifier::reject_recursive_types(V)]
#[verifier::reject_recursive_types(S)]
pub struct ExDashMap<K, V, S>(DashMap<K, V, S>);

/// The entries that a map holds.
pub uninterp spec fn entries_of(map: DashMap<i32, i64>) -> Map<i32, i64>;

/// `pairs` lists every entry of `entries` once, in some order.
pub open spec fn lists_exactly(pairs: Seq<(i32, i64)>, entries: Map<i32, i64>) -> bool {
    &&& forall|i: int|
        0 <= i < pairs.len() ==> entries.contains_pair((#[trigger] pairs[i]).0, pairs[i].1)
    &&& forall|i: int, j: int|
        0 <= i < j < pairs.len() ==> (#[trigger] pairs[i]).0 != (#[trigger] pairs[j]).0
    &&& forall|key: i32| #[trigger]
        entries.contains_key(key) ==> exists|i: int|
            0 <= i < pairs.len() && (#[trigger] pairs[i]).0 == key
}

/// Calls `DashMap::new`. Trusted: the new map has no entry.
#[verifier::external_body]
fn map_new() -> (map: DashMap<i32, i64>)
    ensures
        entries_of(map) == (Map::<i32, i64>::empty()),
{
    DashMap::new()
}

/// Calls `DashMap::insert`. Trusted: afterwards `key` maps to `value` and
/// every other entry is as before.
#[verifier::external_body]
fn map_insert(map: &mut DashMap<i32, i64>, key: i32, value: i64)
    ensures
        entries_of(*final(map)) == entries_of(*old(map)).insert(key, value),
{
    map.insert(key, value);
}

/// Calls `DashMap::remove`. Trusted: afterwards `key` has no entry and every
/// other entry is as before.
#[verifier::external_body]
fn map_remove(map: &mut DashMap<i32, i64>, key: i32)
    ensures
        entries_of(*final(map)) == entries_of(*old(map)).remove(key),
{
    map.remove(&key);
}

/// Calls `DashMap::get` and copies the value out. Trusted: it finds the value
/// stored under `key`, if there is one.
#[verifier::external_body]
fn map_get(map: &DashMap<i32, i64>, key: i32) -> (value: Option<i64>)
    ensures
        value == (if entries_of(*map).contains_key(key) {
            Some(entries_of(*map)[key])
        } else {
            None
        }),
{
    map.get(&key).map(|entry| *entry.value())
}

/// Calls `DashMap::iter` and copies each entry out. Trusted: every entry is
/// visited once; the order depends on the map's hasher and is left open.
#[verifier::external_body]
fn map_pairs(map: &DashMap<i32, i64>) -> (pairs: Vec<(i32, i64)>)
    ensures
        lists_exactly(pairs@, entries_of(*map)),
{
    map.iter().map(|entry| (*entry.key(), *entry.value())).collect()
}

/// Calls `DashMap::clone`. Trusted: the copy is a map of its own that holds
/// the same entries.
#[verifier::external_body]
fn map_clone(map: &DashMap<i32, i64>) -> (copy: DashMap<i32, i64>)
    ensures
        entries_of(copy) == entries_of(*map),
{
    map.clone()
}

/// The content of a tracker: the partitions assigned to this consumer, and the
/// next read position of every partition on which a message has been
/// delivered since it was last revoked.
pub ghost struct TrackerState {
    pub offsets: Map<i32, i64>,
    pub assigned: Set<i32>,
}

impl TrackerState {
    /// A position is kept only for a partition that is assigned. This holds
    /// of every run in which the broker's rebalances are applied before the
    /// messages of the partitions they assign, as the broker delivers them:
    /// see [`lemma_operations_keep_wf`].
    pub open spec fn wf(self) -> bool {
        self.offsets.dom().subset_of(self.assigned)
    }

    /// The state of a consumer to which nothing is assigned yet.
    pub open spec fn empty() -> TrackerState {
        TrackerState { offsets: Map::empty(), assigned: Set::empty() }
    }

    /// The partition becomes assigned; its position, if any, stays.
    pub open spec fn assign(self, partition: i32) -> TrackerState {
        TrackerState { offsets: self.offsets, assigned: self.assigned.insert(partition) }
    }

    /// The partition leaves entirely: its mark and its position.
    pub open spec fn revoke(self, partition: i32) -> TrackerState {
        TrackerState {
            offsets: self.offsets.remove(partition),
            assigned: self.assigned.remove(partition),
        }
    }

    /// Records at least `offset` for the partition: a higher position that is
    /// already there stays. Every delivered message is recorded, whether or
    /// not a rebalance has marked its partition.
    pub open spec fn advance(self, partition: i32, offset: i64) -> TrackerState {
        if self.offsets.contains_key(partition) && self.offsets[partition] >= offset {
            self
        } else {
            TrackerState { offsets: self.offsets.insert(partition, offset), assigned: self.assigned }
        }
    }

    /// The state after the messages at the offsets `delivered` arrived on
    /// `partition`, in that order: each advances the position past itself.
    pub open spec fn deliver(self, partition: i32, delivered: Seq<i64>) -> TrackerState
        decreases delivered.len(),
    {
        if delivered.len() == 0 {
            self
        } else {
            self.deliver(partition, delivered.drop_last()).advance(
                partition,
                (delivered.last() + 1) as i64,
            )
        }
    }
}

/// The highest of a non-empty sequence of offsets.
pub open spec fn highest(offsets: Seq<i64>) -> i64
    recommends
        offsets.len() > 0,
    decreases offsets.len(),
{
    if offsets.len() <= 1 {
        offsets[0]
    } else if highest(offsets.drop_last()) >= offsets.last() {
        highest(offsets.drop_last())
    } else {
        offsets.last()
    }
}

/// Partition offsets of one stream consumer.
pub struct OffsetTracker {
    /// Partition to the offset of the next message to read.
    offsets: DashMap<i32, i64>,
    /// The assigned partitions. What counts is the key; the value is a mark.
    active_partitions: DashMap<i32, i64>,
}

impl View for OffsetTracker {
    type V = TrackerState;

    closed spec fn view(&self) -> TrackerState {
        TrackerState {
            offsets: entries_of(self.offsets),
            assigned: entries_of(self.active_partitions).dom(),
        }
    }
}

/// A tracker with no partition assigned.
pub fn new_offset_tracker() -> (tracker: OffsetTracker)
    ensures
        tracker@ == TrackerState::empty(),
{
    let tracker = OffsetTracker { offsets: map_new(), active_partitions: map_new() };
    assert(tracker@.assigned =~= Set::<i32>::empty());
    tracker
}

impl OffsetTracker {
    /// Marks `partition` as assigned to this consumer.
    pub fn mark_assigned(&mut self, partition: i32)
        ensures
            final(self)@ == old(self)@.assign(partition),
    {
        map_insert(&mut self.active_partitions, partition, 1);
        assert(self@.assigned =~= old(self)@.assigned.insert(partition));
    }

    /// Forgets `partition`: it is no longer assigned and has no position.
    pub fn mark_revoked(&mut self, partition: i32)
        ensures
            final(self)@ == old(self)@.revoke(partition),
    {
        map_remove(&mut self.active_partitions, partition);
        map_remove(&mut self.offsets, partition);
        assert(self@.assigned =~= old(self)@.assigned.remove(partition));
    }

    /// Records that `partition` has been read up to, not including, `offset`.
    pub fn advance(&mut self, partition: i32, offset: i64)
        ensures
            final(self)@ == old(self)@.advance(partition, offset),
    {
        let behind = match map_get(&self.offsets, partition) {
            Some(current) => current < offset,
            None => true,
        };
        if behind {
            map_insert(&mut self.offsets, partition, offset);
        }
    }

    /// Whether `partition` is assigned to this consumer.
    pub fn is_assigned(&self, partition: i32) -> (assigned: bool)
        ensures
            assigned == self@.assigned.contains(partition),
    {
        map_get(&self.active_partitions, partition).is_some()
    }

    /// The next read position of `partition`, if one is tracked.
    pub fn offset_of(&self, partition: i32) -> (offset: Option<i64>)
        ensures
            offset == (if self@.offsets.contains_key(partition) {
                Some(self@.offsets[partition])
            } else {
                None
            }),
    {
        map_get(&self.offsets, partition)
    }

    /// Every tracked partition with its next read position, each once, in no
    /// particular order.
    pub fn snapshot(&self) -> (pairs: Vec<(i32, i64)>)
        ensures
            lists_exactly(pairs@, self@.offsets),
    {
        map_pairs(&self.offsets)
    }
}

impl OffsetTracker {
    /// A tracker of its own that holds what this one holds now. It is a
    /// copy and no second handle: what is written to either of the two
    /// afterwards does not show in the other.
    pub fn detached_copy(&self) -> (copy: OffsetTracker)
        ensures
            copy@ == self@,
    {
        OffsetTracker {
            offsets: map_clone(&self.offsets),
            active_partitions: map_clone(&self.active_partitions),
        }
    }
}

/// Assigning and revoking keep positions within the assigned partitions, and
/// so does a delivery on a partition that is assigned.
pub proof fn lemma_operations_keep_wf(state: TrackerState, partition: i32, offset: i64)
    requires
        state.wf(),
    ensures
        TrackerState::empty().wf(),
        state.assign(partition).wf(),
        state.revoke(partition).wf(),
        state.assigned.contains(partition) ==> state.advance(partition, offset).wf(),
{
}

/// A position never moves backwards while its partition stays assigned, and
/// recording the same offset twice changes nothing.
pub proof fn lemma_advance_is_monotonic(state: TrackerState, partition: i32, offset: i64)
    ensures
        state.offsets.contains_key(partition) ==> state.advance(partition, offset).offsets[partition]
            >= state.offsets[partition],
        state.advance(partition, offset).offsets.contains_key(partition),
        state.advance(partition, offset).offsets[partition] >= offset,
        state.advance(partition, offset).assigned == state.assigned,
        state.advance(partition, offset).advance(partition, offset) == state.advance(
            partition,
            offset,
        ),
        forall|other: i32|
            other != partition ==> (#[trigger] state.advance(partition, offset).offsets.contains_key(
                other,
            ) <==> state.offsets.contains_key(other)),
        forall|other: i32|
            other != partition && state.offsets.contains_key(other) ==> #[trigger] state.advance(
                partition,
                offset,
            ).offsets[other] == state.offsets[other],
{
}

/// After one or more messages were delivered on a partition, its position is
/// one past the highest delivered offset, whatever the partition's mark. An
/// earlier delivery of a higher offset, if its position is still on record,
/// counts among the delivered. The other partitions are untouched.
pub proof fn lemma_position_follows_deliveries(
    state: TrackerState,
    partition: i32,
    delivered: Seq<i64>,
)
    requires
        delivered.len() > 0,
        forall|i: int| 0 <= i < delivered.len() ==> #[trigger] delivered[i] < i64::MAX,
        state.offsets.contains_key(partition) ==> state.offsets[partition] <= highest(delivered)
            + 1,
    ensures
        state.deliver(partition, delivered).offsets.contains_key(partition),
        state.deliver(partition, delivered).offsets[partition] == highest(delivered) + 1,
        state.deliver(partition, delivered).assigned == state.assigned,
        forall|other: i32|
            other != partition ==> (#[trigger] state.deliver(partition, delivered).offsets.contains_key(
                other,
            ) <==> state.offsets.contains_key(other)),
        forall|other: i32|
            other != partition && state.offsets.contains_key(other) ==> #[trigger] state.deliver(
                partition,
                delivered,
            ).offsets[other] == state.offsets[other],
{
    lemma_deliver_bounds(state, partition, delivered);
}

/// Deliveries keep the assignment and the other partitions, and leave the
/// partition at the higher of its earlier position and one past the highest
/// delivered offset.
pub proof fn lemma_deliver_bounds(state: TrackerState, partition: i32, delivered: Seq<i64>)
    requires
        delivered.len() > 0,
        forall|i: int| 0 <= i < delivered.len() ==> #[trigger] delivered[i] < i64::MAX,
    ensures
        state.deliver(partition, delivered).assigned == state.assigned,
        state.wf() && state.assigned.contains(partition) ==> state.deliver(
            partition,
            delivered,
        ).wf(),
        state.deliver(partition, delivered).offsets.contains_key(partition),
        state.deliver(partition, delivered).offsets[partition] == (if state.offsets.contains_key(
            partition,
        ) && state.offsets[partition] > highest(delivered) + 1 {
            state.offsets[partition] as int
        } else {
            highest(delivered) + 1
        }),
        forall|other: i32|
            other != partition ==> (#[trigger] state.deliver(partition, delivered).offsets.contains_key(
                other,
            ) <==> state.offsets.contains_key(other)),
        forall|other: i32|
            other != partition && state.offsets.contains_key(other) ==> #[trigger] state.deliver(
                partition,
                delivered,
            ).offsets[other] == state.offsets[other],
    decreases delivered.len(),
{
    let earlier = delivered.drop_last();
    if earlier.len() == 0 {
        assert(state.deliver(partition, earlier) == state);
    } else {
        lemma_deliver_bounds(state, partition, earlier);
    }
}

/// Revoking a partition removes its position; assigning it again and
/// delivering one message at `offset` records `offset + 1` for it.
pub proof fn lemma_revoke_then_reassign(state: TrackerState, partition: i32, offset: i64)
    requires
        offset < i64::MAX,
    ensures
        !state.revoke(partition).offsets.contains_key(partition),
        !state.revoke(partition).assigned.contains(partition),
        state.revoke(partition).assign(partition).deliver(partition, seq![offset]).offsets.contains_key(
            partition,
        ),
        state.revoke(partition).assign(partition).deliver(
            partition,
            seq![offset],
        ).offsets[partition] == offset + 1,
{
    let fresh = state.revoke(partition).assign(partition);
    let one = seq![offset];
    assert(one.drop_last().len() == 0);
    assert(fresh.deliver(partition, one.drop_last()) == fresh);
    assert(one.last() == offset);
}

} // verus!
