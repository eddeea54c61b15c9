//! Path-count correlation: per window, the centrality scores that the
//! window's forward edges lead to, added up.

use crate::activity::{ActivityNode, PagOutput};
use crate::buffer::{append_to_window, buffered, take_window};
use std::collections::HashMap;
use vstd::prelude::*;

verus! {

/// The score recorded at `node`: the sum of the counts buffered under it.
pub open spec fn score_at(scores: Seq<(ActivityNode, u64)>, node: ActivityNode) -> int
    decreases scores.len(),
{
    if scores.len() == 0 {
        0
    } else {
        score_at(scores.drop_last(), node) + if scores.last().0 == node {
            scores.last().1 as int
        } else {
            0
        }
    }
}

/// The total of a window: for every forward edge, the score recorded at its
/// destination.
pub open spec fn path_total(scores: Seq<(ActivityNode, u64)>, forwards: Seq<ActivityNode>) -> int
    decreases forwards.len(),
{
    if forwards.len() == 0 {
        0
    } else {
        path_total(scores, forwards.drop_last()) + score_at(scores, forwards.last())
    }
}

/// The sources of scored records.
pub open spec fn scored_sources(records: Seq<(PagOutput, u64)>) -> Seq<(ActivityNode, u64)> {
    Seq::new(records.len(), |i: int| (records[i].0.src_spec()->Some_0, records[i].1))
}

/// The destinations of records.
pub open spec fn destinations(records: Seq<PagOutput>) -> Seq<ActivityNode> {
    Seq::new(records.len(), |i: int| records[i].dst_spec()->Some_0)
}

proof fn score_at_prefix(scores: Seq<(ActivityNode, u64)>, upto: int, node: ActivityNode)
    requires
        0 <= upto <= scores.len(),
    ensures
        0 <= score_at(scores.take(upto), node) <= score_at(scores, node),
    decreases scores.len(),
{
    if upto == scores.len() {
        assert(scores.take(upto) =~= scores);
        if scores.len() > 0 {
            score_at_prefix(scores.drop_last(), upto - 1, node);
        }
    } else {
        assert(scores.drop_last().take(upto) =~= scores.take(upto));
        score_at_prefix(scores.drop_last(), upto, node);
    }
}

proof fn path_total_prefix(
    scores: Seq<(ActivityNode, u64)>,
    forwards: Seq<ActivityNode>,
    upto: int,
)
    requires
        0 <= upto <= forwards.len(),
    ensures
        0 <= path_total(scores, forwards.take(upto)) <= path_total(scores, forwards),
    decreases forwards.len(),
{
    if forwards.len() > 0 {
        score_at_prefix(scores, scores.len() as int, forwards.last());
    }
    if upto == forwards.len() {
        assert(forwards.take(upto) =~= forwards);
        if forwards.len() > 0 {
            path_total_prefix(scores, forwards.drop_last(), upto - 1);
        }
    } else {
        assert(forwards.drop_last().take(upto) =~= forwards.take(upto));
        path_total_prefix(scores, forwards.drop_last(), upto);
    }
}

/// Hands `typed` back: it gives a value the type of `this` where the type
/// could not be told otherwise.
pub fn same_type<T>(this: &T, typed: T) -> (out: T)
    ensures
        out == typed,
{
    typed
}

/// Adds up the counts buffered under `node`. There is no result where the
/// sum does not fit a machine word.
pub fn score_of(scores: &Vec<(ActivityNode, u64)>, node: ActivityNode) -> (score: Option<u64>)
    ensures
        0 <= score_at(scores@, node),
        score == if score_at(scores@, node) <= u64::MAX {
            Some(score_at(scores@, node) as u64)
        } else {
            None
        },
{
    let mut sum: u64 = 0;
    let mut i: usize = 0;
    proof {
        score_at_prefix(scores@, 0, node);
    }
    while i < scores.len()
        invariant
            0 <= i <= scores@.len(),
            sum as int == score_at(scores@.take(i as int), node),
        decreases scores@.len() - i,
    {
        let entry = scores[i];
        proof {
            assert(scores@.take(i + 1).drop_last() =~= scores@.take(i as int));
            assert(scores@.take(i + 1).last() == scores@[i as int]);
            score_at_prefix(scores@, i + 1, node);
        }
        if entry.0 == node {
            if entry.1 > u64::MAX - sum {
                return None;
            }
            sum = sum + entry.1;
        }
        i += 1;
    }
    proof {
        assert(scores@.take(i as int) =~= scores@);
    }
    Some(sum)
}

/// Adds up, over the forward edges' destinations, the scores recorded
/// there. There is no result where the total does not fit a machine word.
pub fn correlate(scores: &Vec<(ActivityNode, u64)>, forwards: &Vec<ActivityNode>) -> (total:
    Option<u64>)
    ensures
        0 <= path_total(scores@, forwards@),
        total == if path_total(scores@, forwards@) <= u64::MAX {
            Some(path_total(scores@, forwards@) as u64)
        } else {
            None
        },
{
    let mut sum: u64 = 0;
    let mut i: usize = 0;
    proof {
        path_total_prefix(scores@, forwards@, 0);
    }
    while i < forwards.len()
        invariant
            0 <= i <= forwards@.len(),
            sum as int == path_total(scores@, forwards@.take(i as int)),
        decreases forwards@.len() - i,
    {
        proof {
            assert(forwards@.take(i + 1).drop_last() =~= forwards@.take(i as int));
            assert(forwards@.take(i + 1).last() == forwards@[i as int]);
            path_total_prefix(scores@, forwards@, i + 1);
            score_at_prefix(scores@, scores@.len() as int, forwards@[i as int]);
        }
        match score_of(scores, forwards[i]) {
            Some(score) => {
                let score = same_type(&sum, score);
                if score > u64::MAX - sum {
                    return None;
                }
                sum = sum + score;
            },
            None => {
                proof {
                    path_total_prefix(scores@, forwards@.take(i + 1), i as int);
                    assert(forwards@.take(i + 1).take(i as int) =~= forwards@.take(i as int));
                }
                return None;
            },
        }
        i += 1;
    }
    proof {
        assert(forwards@.take(i as int) =~= forwards@);
    }
    Some(sum)
}

/// The scores and forward edges of the open windows.
pub struct PathCounter {
    scores: HashMap<u64, Vec<(ActivityNode, u64)>>,
    forwards: HashMap<u64, Vec<ActivityNode>>,
}

impl PathCounter {
    /// The scores buffered for `window`, each under the source of its edge.
    pub closed spec fn scores_of(&self, window: u64) -> Seq<(ActivityNode, u64)> {
        buffered(self.scores@, window)
    }

    /// The destinations of the forward edges buffered for `window`.
    pub closed spec fn forwards_of(&self, window: u64) -> Seq<ActivityNode> {
        buffered(self.forwards@, window)
    }

    /// Whether the counter holds an entry for `window`.
    pub closed spec fn is_open(&self, window: u64) -> bool {
        self.scores@.contains_key(window) || self.forwards@.contains_key(window)
    }

    /// A counter without state.
    pub fn new() -> (counter: PathCounter)
        ensures
            forall|window: u64| !counter.is_open(window),
            forall|window: u64|
                counter.scores_of(window) == Seq::<(ActivityNode, u64)>::empty(),
            forall|window: u64| counter.forwards_of(window) == Seq::<ActivityNode>::empty(),
    {
        PathCounter { scores: HashMap::new(), forwards: HashMap::new() }
    }

    /// Buffers scored records of `window` under their sources. Every record
    /// has to have a source.
    pub fn add_scores(&mut self, window: u64, records: &Vec<(PagOutput, u64)>)
        requires
            forall|i: int| 0 <= i < records@.len() ==> (#[trigger] records@[i]).0.src_spec() is Some,
        ensures
            final(self).is_open(window),
            forall|other: u64|
                other != window ==> #[trigger] final(self).is_open(other) == old(self).is_open(
                    other,
                ),
            final(self).scores_of(window) == old(self).scores_of(window) + scored_sources(
                records@,
            ),
            forall|other: u64|
                other != window ==> #[trigger] final(self).scores_of(other) == old(
                    self,
                ).scores_of(other),
            forall|any: u64| #[trigger] final(self).forwards_of(any) == old(self).forwards_of(any),
    {
        let mut entries: Vec<(ActivityNode, u64)> = Vec::new();
        let mut i: usize = 0;
        while i < records.len()
            invariant
                0 <= i <= records@.len(),
                forall|j: int|
                    0 <= j < records@.len() ==> (#[trigger] records@[j]).0.src_spec() is Some,
                entries@ == scored_sources(records@.take(i as int)),
            decreases records@.len() - i,
        {
            let record = records[i];
            match record.0.src() {
                Some(source) => {
                    entries.push((source, record.1));
                },
                None => {
                    assert(false);
                },
            }
            assert(entries@ =~= scored_sources(records@.take(i + 1)));
            i += 1;
        }
        assert(records@.take(i as int) =~= records@);
        append_to_window(&mut self.scores, window, &entries);
    }

    /// Buffers forward edges of `window` by their destinations. Every
    /// record has to have a destination.
    pub fn add_forwards(&mut self, window: u64, records: &Vec<PagOutput>)
        requires
            forall|i: int| 0 <= i < records@.len() ==> (#[trigger] records@[i]).dst_spec() is Some,
        ensures
            final(self).is_open(window),
            forall|other: u64|
                other != window ==> #[trigger] final(self).is_open(other) == old(self).is_open(
                    other,
                ),
            final(self).forwards_of(window) == old(self).forwards_of(window) + destinations(
                records@,
            ),
            forall|other: u64|
                other != window ==> #[trigger] final(self).forwards_of(other) == old(
                    self,
                ).forwards_of(other),
            forall|any: u64| #[trigger] final(self).scores_of(any) == old(self).scores_of(any),
    {
        let mut entries: Vec<ActivityNode> = Vec::new();
        let mut i: usize = 0;
        while i < records.len()
            invariant
                0 <= i <= records@.len(),
                forall|j: int|
                    0 <= j < records@.len() ==> (#[trigger] records@[j]).dst_spec() is Some,
                entries@ == destinations(records@.take(i as int)),
            decreases records@.len() - i,
        {
            match records[i].dst() {
                Some(destination) => {
                    entries.push(destination);
                },
                None => {
                    assert(false);
                },
            }
            assert(entries@ =~= destinations(records@.take(i + 1)));
            i += 1;
        }
        assert(records@.take(i as int) =~= records@);
        append_to_window(&mut self.forwards, window, &entries);
    }

    /// Closes `window`: hands out its total and drops both of its buffers,
    /// so that no entry of the window is left. There is no total where it
    /// does not fit a machine word.
    pub fn close(&mut self, window: u64) -> (total: Option<u64>)
        ensures
            !final(self).is_open(window),
            forall|other: u64|
                other != window ==> #[trigger] final(self).is_open(other) == old(self).is_open(
                    other,
                ),
            0 <= path_total(old(self).scores_of(window), old(self).forwards_of(window)),
            total == if path_total(old(self).scores_of(window), old(self).forwards_of(window))
                <= u64::MAX {
                Some(
                    path_total(old(self).scores_of(window), old(self).forwards_of(window)) as u64,
                )
            } else {
                None
            },
            final(self).scores_of(window) == Seq::<(ActivityNode, u64)>::empty(),
            final(self).forwards_of(window) == Seq::<ActivityNode>::empty(),
            forall|other: u64|
                other != window ==> #[trigger] final(self).scores_of(other) == old(
                    self,
                ).scores_of(other),
            forall|other: u64|
                other != window ==> #[trigger] final(self).forwards_of(other) == old(
                    self,
                ).forwards_of(other),
    {
        let scores = match take_window(&mut self.scores, window) {
            Some(scores) => scores,
            None => Vec::new(),
        };
        let forwards = match take_window(&mut self.forwards, window) {
            Some(forwards) => forwards,
            None => Vec::new(),
        };
        correlate(&scores, &forwards)
    }
}

} // verus!
