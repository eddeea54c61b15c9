//! Records of a program activity graph and the keys under which their scores
//! are summarised.

use crate::epoch::{window_end_spec, window_start_spec};
use crate::summary::{Summary, SummaryTotals};
use vstd::prelude::*;

verus! {

/// An endpoint of an activity: an instant on one worker.
#[derive(Clone, Copy, Debug, PartialEq, Eq, Hash, Structural)]
pub struct ActivityNode {
    pub timestamp: u64,
    pub worker_id: u64,
}

/// An activity between two endpoints.
#[derive(Clone, Copy, Debug, PartialEq, Eq, Hash)]
pub struct ActivityEdge {
    pub source: ActivityNode,
    pub destination: ActivityNode,
    /// The numeric code of the activity's type.
    pub activity_type: u8,
    /// Whether activities of this type stay on one worker.
    pub worker_local: bool,
    pub operator_id: Option<u64>,
    /// How many occurrences the edge stands for.
    pub weight: u64,
}

/// One record of a program activity graph.
#[derive(Clone, Copy, Debug, PartialEq, Eq, Hash)]
pub enum PagOutput {
    StartNode(ActivityNode),
    EndNode(ActivityNode),
    Edge(ActivityEdge),
}

/// The workers of an activity: one for a local activity, source and
/// destination for one that crosses workers.
#[derive(Clone, Copy, Debug, PartialEq, Eq, Hash, Structural)]
pub enum ActivityWorkers {
    Local(u64),
    Remote(u64, u64),
}

/// How an activity lies in its window.
#[derive(Clone, Copy, Debug, PartialEq, Eq, Hash, Structural)]
pub enum Crossing {
    /// It starts at the window's start and ends at the window's end.
    Both,
    /// It starts at the window's start only.
    Start,
    /// It ends at the window's end only.
    End,
    /// It touches neither boundary.
    Interior,
}

/// The key under which centrality scores are summarised.
#[derive(Clone, Copy, Debug, PartialEq, Eq, Hash, Structural)]
pub struct SummaryKey {
    pub activity_type: u8,
    pub operator_id: u8,
    pub workers: ActivityWorkers,
    pub crossing: Crossing,
}

/// The key under which the edges of a sampled path are summarised.
#[derive(Clone, Copy, Debug, PartialEq, Eq, Hash, Structural)]
pub struct PathKey {
    pub activity_type: u8,
    pub operator_id: u8,
}

/// The operator byte that stands for an activity without an operator.
pub const NO_OPERATOR: u8 = 255;

/// The low byte of an operator's identifier, or the sentinel where there is
/// none.
pub open spec fn operator_byte_spec(operator_id: Option<u64>) -> u8 {
    match operator_id {
        Some(id) => (id % 256) as u8,
        None => NO_OPERATOR,
    }
}

/// The four-way classification of an activity against the boundaries of
/// its window.
pub open spec fn crossing_spec(
    source_timestamp: u64,
    destination_timestamp: u64,
    window: u64,
    window_size: u32,
) -> Crossing {
    let at_start = source_timestamp as int == window_start_spec(window, window_size);
    let at_end = destination_timestamp as int == window_end_spec(window, window_size);
    if at_start && at_end {
        Crossing::Both
    } else if at_start {
        Crossing::Start
    } else if at_end {
        Crossing::End
    } else {
        Crossing::Interior
    }
}

/// Classifies an activity against the boundaries of `window`.
pub fn classify_crossing(
    source_timestamp: u64,
    destination_timestamp: u64,
    window: u64,
    window_size: u32,
) -> (crossing: Crossing)
    ensures
        crossing == crossing_spec(source_timestamp, destination_timestamp, window, window_size),
{
    let window_wide: u128 = window as u128;
    let size_wide: u128 = window_size as u128;
    assert(window_wide * size_wide <= 0xFFFF_FFFF_FFFF_FFFF * 0xFFFF_FFFF) by (nonlinear_arith)
        requires
            0 <= window_wide <= 0xFFFF_FFFF_FFFF_FFFF,
            0 <= size_wide <= 0xFFFF_FFFF,
    ;
    let start: u128 = window_wide * size_wide;
    let end: u128 = start + size_wide;
    let at_start = source_timestamp as u128 == start;
    let at_end = destination_timestamp as u128 == end;
    if at_start && at_end {
        Crossing::Both
    } else if at_start {
        Crossing::Start
    } else if at_end {
        Crossing::End
    } else {
        Crossing::Interior
    }
}

impl Crossing {
    /// The letter that stands for the class in a summary line.
    pub fn code(&self) -> (letter: char)
        ensures
            letter == match *self {
                Crossing::Both => 'B',
                Crossing::Start => 'S',
                Crossing::End => 'E',
                Crossing::Interior => 'N',
            },
    {
        match self {
            Crossing::Both => 'B',
            Crossing::Start => 'S',
            Crossing::End => 'E',
            Crossing::Interior => 'N',
        }
    }
}

impl ActivityWorkers {
    /// Source and destination worker; both are the one worker of a local
    /// activity.
    pub fn endpoints(&self) -> (pair: (u64, u64))
        ensures
            pair == match *self {
                ActivityWorkers::Local(worker) => (worker, worker),
                ActivityWorkers::Remote(source, destination) => (source, destination),
            },
    {
        match self {
            ActivityWorkers::Local(worker) => (*worker, *worker),
            ActivityWorkers::Remote(source, destination) => (*source, *destination),
        }
    }
}

impl ActivityEdge {
    /// The grouping of the edge by workers.
    pub open spec fn workers_spec(&self) -> ActivityWorkers {
        if self.worker_local {
            ActivityWorkers::Local(self.source.worker_id)
        } else {
            ActivityWorkers::Remote(self.source.worker_id, self.destination.worker_id)
        }
    }

    /// Groups the edge by workers: by its source's worker where its type is
    /// local to a worker, by both workers otherwise.
    pub fn workers(&self) -> (workers: ActivityWorkers)
        ensures
            workers == self.workers_spec(),
    {
        if self.worker_local {
            ActivityWorkers::Local(self.source.worker_id)
        } else {
            ActivityWorkers::Remote(self.source.worker_id, self.destination.worker_id)
        }
    }

    /// The operator's low byte, or the sentinel.
    pub fn operator_byte(&self) -> (byte: u8)
        ensures
            byte == operator_byte_spec(self.operator_id),
    {
        match self.operator_id {
            Some(id) => (id % 256) as u8,
            None => NO_OPERATOR,
        }
    }

    /// The key of the edge in the centrality summary of `window`.
    pub open spec fn summary_key_spec(&self, window: u64, window_size: u32) -> SummaryKey {
        SummaryKey {
            activity_type: self.activity_type,
            operator_id: operator_byte_spec(self.operator_id),
            workers: self.workers_spec(),
            crossing: crossing_spec(
                self.source.timestamp,
                self.destination.timestamp,
                window,
                window_size,
            ),
        }
    }

    /// Computes the key of the edge in the centrality summary of `window`.
    pub fn summary_key(&self, window: u64, window_size: u32) -> (key: SummaryKey)
        ensures
            key == self.summary_key_spec(window, window_size),
    {
        SummaryKey {
            activity_type: self.activity_type,
            operator_id: self.operator_byte(),
            workers: self.workers(),
            crossing: classify_crossing(
                self.source.timestamp,
                self.destination.timestamp,
                window,
                window_size,
            ),
        }
    }

    /// Computes the key of the edge in the summary of a sampled path.
    pub fn path_key(&self) -> (key: PathKey)
        ensures
            key == self.path_key_spec(),
    {
        PathKey { activity_type: self.activity_type, operator_id: self.operator_byte() }
    }

    /// What an edge with centrality `score` adds to its group.
    pub open spec fn summary_part_spec(&self, score: u64) -> SummaryTotals {
        SummaryTotals {
            score: score as int,
            weighted_score: score as int * self.weight as int,
            weight: self.weight as int,
            count: 1,
        }
    }

    /// What an edge of a sampled path adds to its group: a score of one.
    pub open spec fn path_part_spec(&self) -> SummaryTotals {
        SummaryTotals {
            score: 1,
            weighted_score: self.weight as int,
            weight: self.weight as int,
            count: 1,
        }
    }

    /// The key of the edge in the summary of a sampled path.
    pub open spec fn path_key_spec(&self) -> PathKey {
        PathKey {
            activity_type: self.activity_type,
            operator_id: operator_byte_spec(self.operator_id),
        }
    }
}

impl PagOutput {
    /// Whether the record opens the window's graph.
    pub fn is_forward(&self) -> (yes: bool)
        ensures
            yes == (*self is StartNode),
    {
        match self {
            PagOutput::StartNode(_) => true,
            _ => false,
        }
    }

    /// Whether the record closes the window's graph.
    pub fn is_backward(&self) -> (yes: bool)
        ensures
            yes == (*self is EndNode),
    {
        match self {
            PagOutput::EndNode(_) => true,
            _ => false,
        }
    }

    /// Whether the record is an edge of the graph.
    pub fn is_graph(&self) -> (yes: bool)
        ensures
            yes == (*self is Edge),
    {
        match self {
            PagOutput::Edge(_) => true,
            _ => false,
        }
    }

    /// The endpoint that the record leaves from: none for a start node.
    pub open spec fn src_spec(&self) -> Option<ActivityNode> {
        match *self {
            PagOutput::StartNode(_) => None,
            PagOutput::EndNode(node) => Some(node),
            PagOutput::Edge(edge) => Some(edge.source),
        }
    }

    /// The endpoint that the record arrives at: none for an end node.
    pub open spec fn dst_spec(&self) -> Option<ActivityNode> {
        match *self {
            PagOutput::StartNode(node) => Some(node),
            PagOutput::EndNode(_) => None,
            PagOutput::Edge(edge) => Some(edge.destination),
        }
    }

    pub fn src(&self) -> (node: Option<ActivityNode>)
        ensures
            node == self.src_spec(),
    {
        match self {
            PagOutput::StartNode(_) => None,
            PagOutput::EndNode(node) => Some(*node),
            PagOutput::Edge(edge) => Some(edge.source),
        }
    }

    pub fn dst(&self) -> (node: Option<ActivityNode>)
        ensures
            node == self.dst_spec(),
    {
        match self {
            PagOutput::StartNode(node) => Some(*node),
            PagOutput::EndNode(_) => None,
            PagOutput::Edge(edge) => Some(edge.destination),
        }
    }
}

/// Maps a scored edge to its key and its part in the centrality summary of
/// `window`. Only edges carry a score, and the weighted score has to fit a
/// machine word.
pub fn summary_contribution(record: &PagOutput, score: u64, window: u64, window_size: u32) -> (part:
    (SummaryKey, Summary))
    requires
        *record is Edge,
        score as int * record->Edge_0.weight as int <= u64::MAX,
    ensures
        part.0 == record->Edge_0.summary_key_spec(window, window_size),
        part.1@ == record->Edge_0.summary_part_spec(score),
{
    match checked_summary_contribution(record, score, window, window_size) {
        Some(part) => part,
        None => {
            proof {
                assert(false);
            }
            (
                SummaryKey {
                    activity_type: 0,
                    operator_id: NO_OPERATOR,
                    workers: ActivityWorkers::Local(0),
                    crossing: Crossing::Interior,
                },
                Summary { bc: 0, weighted_bc: 0, weight: 0, count: 0 },
            )
        },
    }
}

/// Maps a scored edge to its key and its part in the centrality summary of
/// `window`, where the weighted score fits a machine word; there is no
/// result where it does not. Only edges carry a score.
pub fn checked_summary_contribution(
    record: &PagOutput,
    score: u64,
    window: u64,
    window_size: u32,
) -> (part: Option<(SummaryKey, Summary)>)
    requires
        *record is Edge,
    ensures
        part is Some == (score as int * record->Edge_0.weight as int <= u64::MAX),
        part is Some ==> part->Some_0.0 == record->Edge_0.summary_key_spec(window, window_size),
        part is Some ==> part->Some_0.1@ == record->Edge_0.summary_part_spec(score),
{
    match record {
        PagOutput::Edge(edge) => {
            let score_wide: u128 = score as u128;
            let weight_wide: u128 = edge.weight as u128;
            assert(0 <= score_wide * weight_wide <= 0xFFFF_FFFF_FFFF_FFFF * 0xFFFF_FFFF_FFFF_FFFF)
                by (nonlinear_arith)
                requires
                    0 <= score_wide <= 0xFFFF_FFFF_FFFF_FFFF,
                    0 <= weight_wide <= 0xFFFF_FFFF_FFFF_FFFF,
            ;
            let weighted: u128 = score_wide * weight_wide;
            if weighted > 0xFFFF_FFFF_FFFF_FFFF {
                return None;
            }
            let key = edge.summary_key(window, window_size);
            let summary = Summary {
                bc: score,
                weighted_bc: weighted as u64,
                weight: edge.weight,
                count: 1,
            };
            Some((key, summary))
        },
        _ => {
            proof {
                assert(false);
            }
            None
        },
    }
}

/// Maps an edge of a sampled path to its key and its part in the path's
/// summary.
pub fn path_contribution(record: &PagOutput) -> (part: (PathKey, Summary))
    requires
        *record is Edge,
    ensures
        part.0 == record->Edge_0.path_key_spec(),
        part.1@ == record->Edge_0.path_part_spec(),
{
    match record {
        PagOutput::Edge(edge) => {
            let key = edge.path_key();
            (key, Summary { bc: 1, weighted_bc: edge.weight, weight: edge.weight, count: 1 })
        },
        _ => {
            proof {
                assert(false);
            }
            (
                PathKey { activity_type: 0, operator_id: NO_OPERATOR },
                Summary { bc: 0, weighted_bc: 0, weight: 0, count: 0 },
            )
        },
    }
}

} // verus!
