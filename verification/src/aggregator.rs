//! The keyed windowed aggregator: merges contributions per window and key,
//! and hands out a window's groups, each once, when the window closes.

use crate::activity::{PathKey, SummaryKey};
use crate::buffer::{buffered, take_window};
use crate::summary::{Summary, SummaryTotals};
use std::collections::HashMap;
use vstd::prelude::*;

verus! {

broadcast use vstd::std_specs::hash::group_hash_axioms;

/// A key that contributions are grouped by.
pub trait GroupKey: Copy {
    /// Whether two keys are the same key.
    fn same(&self, other: &Self) -> (yes: bool)
        ensures
            yes == (*self == *other),
    ;
}

impl GroupKey for SummaryKey {
    fn same(&self, other: &Self) -> (yes: bool) {
        *self == *other
    }
}

impl GroupKey for PathKey {
    fn same(&self, other: &Self) -> (yes: bool) {
        *self == *other
    }
}

/// Whether some group of `groups` has the key `key`.
pub open spec fn has_key<K>(groups: Seq<(K, Summary)>, key: K) -> bool {
    exists|i: int| 0 <= i < groups.len() && (#[trigger] groups[i]).0 == key
}

/// The position of a group with the key `key`.
pub open spec fn position_of<K>(groups: Seq<(K, Summary)>, key: K) -> int {
    choose|i: int| 0 <= i < groups.len() && (#[trigger] groups[i]).0 == key
}

/// The totals of the group with the key `key`: zero where there is none.
pub open spec fn group_total<K>(groups: Seq<(K, Summary)>, key: K) -> SummaryTotals {
    if has_key(groups, key) {
        groups[position_of(groups, key)].1@
    } else {
        SummaryTotals::zero()
    }
}

/// Whether no key occurs in two groups.
pub open spec fn distinct_keys<K>(groups: Seq<(K, Summary)>) -> bool {
    forall|i: int, j: int|
        0 <= i < j < groups.len() ==> (#[trigger] groups[i]).0 != (#[trigger] groups[j]).0
}

/// The totals that a state holds for a window and a key: zero where it
/// holds none.
pub open spec fn total_in<K>(state: Map<(u64, K), SummaryTotals>, window: u64, key: K)
    -> SummaryTotals {
    if state.contains_key((window, key)) {
        state[(window, key)]
    } else {
        SummaryTotals::zero()
    }
}

/// The state after `value` was merged into the totals of a window and key.
pub open spec fn merged<K>(
    state: Map<(u64, K), SummaryTotals>,
    window: u64,
    key: K,
    value: SummaryTotals,
) -> Map<(u64, K), SummaryTotals> {
    state.insert((window, key), total_in(state, window, key).plus(value))
}

/// The state after everything of `window` was dropped.
pub open spec fn without_window<K>(state: Map<(u64, K), SummaryTotals>, window: u64) -> Map<
    (u64, K),
    SummaryTotals,
> {
    Map::new(|p: (u64, K)| state.contains_key(p) && p.0 != window, |p: (u64, K)| state[p])
}

proof fn total_at_position<K>(groups: Seq<(K, Summary)>, i: int, key: K)
    requires
        distinct_keys(groups),
        0 <= i < groups.len(),
        groups[i].0 == key,
    ensures
        has_key(groups, key),
        position_of(groups, key) == i,
        group_total(groups, key) == groups[i].1@,
{
    let j = position_of(groups, key);
    assert(groups[j].0 == groups[i].0);
}

/// Merges `value` into the group of `key`, which is created where there was
/// none. Where the group's totals would not fit a machine word, nothing
/// changes.
fn merge_into<K: GroupKey>(groups: &mut Vec<(K, Summary)>, key: K, value: Summary) -> (added: bool)
    requires
        distinct_keys(old(groups)@),
    ensures
        added == group_total(old(groups)@, key).plus(value@).fits(),
        !added ==> final(groups)@ == old(groups)@,
        distinct_keys(final(groups)@),
        added ==> forall|k: K| #[trigger]
            has_key(final(groups)@, k) == (has_key(old(groups)@, k) || k == key),
        added ==> group_total(final(groups)@, key) == group_total(old(groups)@, key).plus(
            value@,
        ),
        added ==> forall|k: K|
            k != key ==> #[trigger] group_total(final(groups)@, k) == group_total(
                old(groups)@,
                k,
            ),
{
    let ghost before = groups@;
    let mut i: usize = 0;
    while i < groups.len()
        invariant
            0 <= i <= groups@.len(),
            groups@ == before,
            before == old(groups)@,
            distinct_keys(before),
            forall|j: int| 0 <= j < i ==> (#[trigger] before[j]).0 != key,
        decreases groups@.len() - i,
    {
        let entry = groups[i];
        if entry.0.same(&key) {
            proof {
                total_at_position(before, i as int, key);
            }
            let mut summary = entry.1;
            if !summary.checked_add_assign(value) {
                return false;
            }
            groups.set(i, (key, summary));
            proof {
                let after = groups@;
                assert forall|a: int, b: int| 0 <= a < b < after.len() implies (
                #[trigger] after[a]).0 != (#[trigger] after[b]).0 by {
                    assert(after[a].0 == before[a].0);
                    assert(after[b].0 == before[b].0);
                }
                total_at_position(after, i as int, key);
                assert forall|k: K| #[trigger]
                    has_key(after, k) == (has_key(before, k) || k == key) by {
                    if has_key(after, k) {
                        let j = position_of(after, k);
                        assert(before[j].0 == k);
                    }
                    if has_key(before, k) {
                        let j = position_of(before, k);
                        assert(after[j].0 == k);
                    }
                }
                assert forall|k: K| k != key implies #[trigger] group_total(after, k)
                    == group_total(before, k) by {
                    if has_key(before, k) {
                        let j = position_of(before, k);
                        assert(after[j] == before[j]);
                        total_at_position(after, j, k);
                    }
                }
            }
            return true;
        }
        i += 1;
    }
    proof {
        if has_key(before, key) {
            let j = position_of(before, key);
            assert(before[j].0 == key);
        }
    }
    let mut summary = Summary::default();
    summary.add_assign(value);
    groups.push((key, summary));
    proof {
        let after = groups@;
        let last = before.len() as int;
        assert forall|a: int, b: int| 0 <= a < b < after.len() implies (#[trigger] after[a]).0 != (
        #[trigger] after[b]).0 by {
            if b < last {
                assert(after[a] == before[a]);
                assert(after[b] == before[b]);
            } else {
                assert(after[a] == before[a]);
            }
        }
        total_at_position(after, last, key);
        assert forall|k: K| #[trigger] has_key(after, k) == (has_key(before, k) || k == key) by {
            if has_key(after, k) {
                let j = position_of(after, k);
                if j < last {
                    assert(before[j].0 == k);
                }
            }
            if has_key(before, k) {
                let j = position_of(before, k);
                assert(after[j].0 == k);
            }
        }
        assert forall|k: K| k != key implies #[trigger] group_total(after, k) == group_total(
            before,
            k,
        ) by {
            if has_key(before, k) {
                let j = position_of(before, k);
                assert(after[j] == before[j]);
                total_at_position(after, j, k);
            }
        }
    }
    true
}

/// Per window and key, the totals of what was contributed since the window
/// was last closed.
pub struct WindowAggregator<K: GroupKey> {
    windows: HashMap<u64, Vec<(K, Summary)>>,
}

impl<K: GroupKey> View for WindowAggregator<K> {
    type V = Map<(u64, K), SummaryTotals>;

    /// The totals held, by window and key.
    closed spec fn view(&self) -> Map<(u64, K), SummaryTotals> {
        Map::new(
            |p: (u64, K)| has_key(buffered(self.windows@, p.0), p.1),
            |p: (u64, K)| group_total(buffered(self.windows@, p.0), p.1),
        )
    }
}

impl<K: GroupKey> WindowAggregator<K> {
    /// The state's invariant: within a window no key has two groups.
    pub closed spec fn wf(&self) -> bool {
        forall|window: u64| distinct_keys(#[trigger] buffered(self.windows@, window))
    }

    /// Whether the aggregator holds an entry for `window`.
    pub closed spec fn is_open(&self, window: u64) -> bool {
        self.windows@.contains_key(window)
    }

    /// An aggregator without state.
    pub fn new() -> (aggregator: Self)
        ensures
            aggregator.wf(),
            forall|window: u64| !aggregator.is_open(window),
            aggregator@ == Map::<(u64, K), SummaryTotals>::empty(),
    {
        let aggregator = WindowAggregator { windows: HashMap::new() };
        assert(aggregator@ =~= Map::<(u64, K), SummaryTotals>::empty());
        aggregator
    }

    /// Merges `value` into the totals of `window` and `key`, starting from
    /// zero where the pair is new. The totals have to fit a machine word.
    pub fn contribute(&mut self, window: u64, key: K, value: Summary)
        requires
            old(self).wf(),
            total_in(old(self)@, window, key).plus(value@).fits(),
        ensures
            final(self).wf(),
            final(self)@ == merged(old(self)@, window, key, value@),
            final(self).is_open(window),
            forall|other: u64|
                other != window ==> #[trigger] final(self).is_open(other) == old(self).is_open(
                    other,
                ),
    {
        let _ = self.checked_contribute(window, key, value);
    }

    /// Merges `value` into the totals of `window` and `key` where the
    /// totals still fit a machine word, and changes nothing where they do
    /// not.
    pub fn checked_contribute(&mut self, window: u64, key: K, value: Summary) -> (added: bool)
        requires
            old(self).wf(),
        ensures
            final(self).wf(),
            added == total_in(old(self)@, window, key).plus(value@).fits(),
            added ==> final(self)@ == merged(old(self)@, window, key, value@),
            !added ==> final(self)@ == old(self)@,
            added ==> final(self).is_open(window),
            !added ==> final(self).is_open(window) == old(self).is_open(window),
            forall|other: u64|
                other != window ==> #[trigger] final(self).is_open(other) == old(self).is_open(
                    other,
                ),
    {
        let ghost start = self.windows@;
        let mut groups: Vec<(K, Summary)> = match take_window(&mut self.windows, window) {
            Some(groups) => groups,
            None => Vec::new(),
        };
        let ghost mid = self.windows@;
        let ghost before = groups@;
        assert(before == buffered(start, window));
        let added = merge_into(&mut groups, key, value);
        let ghost after = groups@;
        self.windows.insert(window, groups);
        proof {
            if !start.contains_key(window) {
                assert(!has_key(before, key));
                assert(group_total(before, key).plus(value@) == value@);
                assert(added);
            }
            let target = if added {
                merged(old(self)@, window, key, value@)
            } else {
                old(self)@
            };
            assert forall|w: u64| distinct_keys(#[trigger] buffered(self.windows@, w)) by {
                if w != window {
                    assert(buffered(mid, w) == buffered(start, w));
                }
            }
            assert forall|p: (u64, K)| self@.contains_key(p) == target.contains_key(p) by {
                if p.0 == window {
                    if added {
                        assert(has_key(after, p.1) == (has_key(before, p.1) || p.1 == key));
                    }
                } else {
                    assert(buffered(mid, p.0) == buffered(start, p.0));
                }
            }
            assert forall|p: (u64, K)| self@.contains_key(p) implies self@[p] == target[p] by {
                if p.0 == window {
                    if added && p.1 != key {
                        assert(group_total(after, p.1) == group_total(before, p.1));
                    }
                } else {
                    assert(buffered(mid, p.0) == buffered(start, p.0));
                }
            }
            assert(self@ =~= target);
        }
        added
    }

    /// Closes `window`: hands out its groups, each key once with its
    /// totals, and drops the window's state, so that no entry of the window
    /// is left.
    pub fn close(&mut self, window: u64) -> (emitted: Vec<(K, Summary)>)
        requires
            old(self).wf(),
        ensures
            final(self).wf(),
            !final(self).is_open(window),
            forall|other: u64|
                other != window ==> #[trigger] final(self).is_open(other) == old(self).is_open(
                    other,
                ),
            final(self)@ == without_window(old(self)@, window),
            distinct_keys(emitted@),
            forall|key: K| #[trigger]
                has_key(emitted@, key) == old(self)@.contains_key((window, key)),
            forall|key: K| #[trigger]
                group_total(emitted@, key) == total_in(old(self)@, window, key),
    {
        let ghost start = self.windows@;
        let emitted: Vec<(K, Summary)> = match take_window(&mut self.windows, window) {
            Some(groups) => groups,
            None => Vec::new(),
        };
        proof {
            assert(emitted@ == buffered(start, window));
            assert forall|w: u64| distinct_keys(#[trigger] buffered(self.windows@, w)) by {
                if w != window {
                    assert(buffered(self.windows@, w) == buffered(start, w));
                }
            }
            let target = without_window(old(self)@, window);
            assert forall|p: (u64, K)| self@.contains_key(p) == target.contains_key(p) by {
                if p.0 != window {
                    assert(buffered(self.windows@, p.0) == buffered(start, p.0));
                }
            }
            assert forall|p: (u64, K)| self@.contains_key(p) implies self@[p] == target[p] by {
                if p.0 != window {
                    assert(buffered(self.windows@, p.0) == buffered(start, p.0));
                }
            }
            assert(self@ =~= target);
        }
        emitted
    }
}

/// A call on an aggregator, by its mathematical content.
pub enum AggregatorCall<K> {
    /// A contribution for a window and a key.
    Contribute(u64, K, SummaryTotals),
    /// The closure of a window.
    Close(u64),
}

/// The state of an aggregator that started empty and took `calls`.
pub open spec fn state_after<K>(calls: Seq<AggregatorCall<K>>) -> Map<(u64, K), SummaryTotals>
    decreases calls.len(),
{
    if calls.len() == 0 {
        Map::empty()
    } else {
        match calls.last() {
            AggregatorCall::Contribute(window, key, value) => merged(
                state_after(calls.drop_last()),
                window,
                key,
                value,
            ),
            AggregatorCall::Close(window) => without_window(state_after(calls.drop_last()), window),
        }
    }
}

/// The sum of what `calls` contributed for a window and a key since the
/// window was last closed.
pub open spec fn submitted<K>(calls: Seq<AggregatorCall<K>>, window: u64, key: K) -> SummaryTotals
    decreases calls.len(),
{
    if calls.len() == 0 {
        SummaryTotals::zero()
    } else {
        match calls.last() {
            AggregatorCall::Contribute(w, k, value) => if w == window && k == key {
                submitted(calls.drop_last(), window, key).plus(value)
            } else {
                submitted(calls.drop_last(), window, key)
            },
            AggregatorCall::Close(w) => if w == window {
                SummaryTotals::zero()
            } else {
                submitted(calls.drop_last(), window, key)
            },
        }
    }
}

/// After any sequence of calls the totals held for a window and a key are
/// the sum of the contributions submitted for them since the window was
/// last closed: what a closure hands out is exact.
pub proof fn aggregation_exact<K>(calls: Seq<AggregatorCall<K>>, window: u64, key: K)
    ensures
        total_in(state_after(calls), window, key) == submitted(calls, window, key),
    decreases calls.len(),
{
    if calls.len() > 0 {
        aggregation_exact(calls.drop_last(), window, key);
    }
}

/// Once a window is closed nothing of it is held, so a second closure hands
/// out nothing.
pub proof fn closed_window_is_dropped<K>(calls: Seq<AggregatorCall<K>>, window: u64, key: K)
    requires
        calls.len() > 0,
        calls.last() == AggregatorCall::<K>::Close(window),
    ensures
        !state_after(calls).contains_key((window, key)),
{
}

} // verus!
