use pag_dataflow::activity::{
    checked_summary_contribution, classify_crossing, path_contribution, summary_contribution, ActivityEdge, ActivityNode,
    ActivityWorkers, Crossing, PagOutput, PathKey, SummaryKey, NO_OPERATOR,
};
use pag_dataflow::config::{Branch, Config, DataflowPlan};
use pag_dataflow::summary::Summary;

fn edge(src: u64, dst: u64) -> ActivityEdge {
    ActivityEdge {
        source: ActivityNode { timestamp: src, worker_id: 1 },
        destination: ActivityNode { timestamp: dst, worker_id: 2 },
        activity_type: 4,
        worker_local: false,
        operator_id: Some(7),
        weight: 3,
    }
}

fn config(disable_bc: bool, disable_summary: bool) -> Config {
    Config {
        timely_args: vec![],
        log_path: String::from("trace.log"),
        threshold: 10,
        window_size_ns: 1000,
        epochs: 2,
        message_delay: None,
        verbose: 0,
        dump_pag: false,
        write_bc_dot: true,
        write_pag_dot: false,
        write_pag_msgpack: false,
        insert_waiting_edges: false,
        disable_summary,
        disable_bc,
        waiting_message: 0,
    }
}

#[test]
fn crossing_classifier_four_ways() {
    assert_eq!(classify_crossing(0, 1000, 0, 1000), Crossing::Both);
    assert_eq!(classify_crossing(0, 500, 0, 1000), Crossing::Start);
    assert_eq!(classify_crossing(500, 1000, 0, 1000), Crossing::End);
    assert_eq!(classify_crossing(200, 800, 0, 1000), Crossing::Interior);
}

#[test]
fn crossing_classifier_later_window_and_large_values() {
    assert_eq!(classify_crossing(3000, 4000, 3, 1000), Crossing::Both);
    assert_eq!(classify_crossing(2500, 3000, 2, 1000), Crossing::End);
    assert_eq!(classify_crossing(3000, 4000, 2, 1000), Crossing::Interior);
    assert_eq!(classify_crossing(0, 0, u64::MAX, u32::MAX), Crossing::Interior);
}

#[test]
fn crossing_codes() {
    assert_eq!(Crossing::Both.code(), 'B');
    assert_eq!(Crossing::Start.code(), 'S');
    assert_eq!(Crossing::End.code(), 'E');
    assert_eq!(Crossing::Interior.code(), 'N');
}

#[test]
fn workers_by_locality() {
    let remote = edge(0, 10);
    assert_eq!(remote.workers(), ActivityWorkers::Remote(1, 2));
    assert_eq!(remote.workers().endpoints(), (1, 2));
    let local = ActivityEdge { worker_local: true, ..remote };
    assert_eq!(local.workers(), ActivityWorkers::Local(1));
    assert_eq!(local.workers().endpoints(), (1, 1));
}

#[test]
fn operator_byte_and_sentinel() {
    assert_eq!(edge(0, 1).operator_byte(), 7);
    assert_eq!(ActivityEdge { operator_id: None, ..edge(0, 1) }.operator_byte(), NO_OPERATOR);
    assert_eq!(ActivityEdge { operator_id: None, ..edge(0, 1) }.operator_byte(), 255);
    assert_eq!(ActivityEdge { operator_id: Some(258), ..edge(0, 1) }.operator_byte(), 2);
}

#[test]
fn summary_contribution_of_a_scored_edge() {
    let (key, part) = summary_contribution(&PagOutput::Edge(edge(2000, 2400)), 5, 2, 1000);
    assert_eq!(
        key,
        SummaryKey {
            activity_type: 4,
            operator_id: 7,
            workers: ActivityWorkers::Remote(1, 2),
            crossing: Crossing::Start,
        }
    );
    assert_eq!(part, Summary { bc: 5, weighted_bc: 15, weight: 3, count: 1 });
}

#[test]
fn path_contribution_scores_one_per_edge() {
    let (key, part) = path_contribution(&PagOutput::Edge(edge(1, 2)));
    assert_eq!(key, PathKey { activity_type: 4, operator_id: 7 });
    assert_eq!(part, Summary { bc: 1, weighted_bc: 3, weight: 3, count: 1 });
}

#[test]
fn records_filter_by_variant() {
    let node = ActivityNode { timestamp: 5, worker_id: 0 };
    let start = PagOutput::StartNode(node);
    let end = PagOutput::EndNode(node);
    let graph = PagOutput::Edge(edge(1, 2));
    assert!(start.is_forward() && !start.is_backward() && !start.is_graph());
    assert!(!end.is_forward() && end.is_backward() && !end.is_graph());
    assert!(!graph.is_forward() && !graph.is_backward() && graph.is_graph());
    assert_eq!(start.src(), None);
    assert_eq!(start.dst(), Some(node));
    assert_eq!(end.src(), Some(node));
    assert_eq!(end.dst(), None);
    assert_eq!(graph.src(), Some(ActivityNode { timestamp: 1, worker_id: 1 }));
    assert_eq!(graph.dst(), Some(ActivityNode { timestamp: 2, worker_id: 2 }));
}

#[test]
fn summary_addition_in_any_order() {
    let a = Summary { bc: 1, weighted_bc: 10, weight: 100, count: 1 };
    let b = Summary { bc: 2, weighted_bc: 20, weight: 200, count: 1 };
    let c = Summary { bc: 4, weighted_bc: 40, weight: 400, count: 1 };
    let expected = Summary { bc: 7, weighted_bc: 70, weight: 700, count: 3 };
    for order in [[a, b, c], [a, c, b], [b, a, c], [b, c, a], [c, a, b], [c, b, a]] {
        let mut total = Summary::default();
        for part in order {
            total.add_assign(part);
        }
        assert_eq!(total, expected);
    }
}

#[test]
fn default_summary_is_the_identity() {
    let a = Summary { bc: 1, weighted_bc: 10, weight: 100, count: 1 };
    let mut left = Summary::default();
    left.add_assign(a);
    let mut right = a;
    right.add_assign(Summary::default());
    assert_eq!(left, a);
    assert_eq!(right, a);
    assert_eq!(Summary::default(), Summary { bc: 0, weighted_bc: 0, weight: 0, count: 0 });
}

#[test]
fn checked_addition_refuses_overflow() {
    let mut total = Summary { bc: u64::MAX, weighted_bc: 0, weight: 0, count: 1 };
    assert!(!total.checked_add_assign(Summary { bc: 1, weighted_bc: 0, weight: 0, count: 1 }));
    assert_eq!(total, Summary { bc: u64::MAX, weighted_bc: 0, weight: 0, count: 1 });
    assert!(total.checked_add_assign(Summary { bc: 0, weighted_bc: 5, weight: 6, count: 1 }));
    assert_eq!(total, Summary { bc: u64::MAX, weighted_bc: 5, weight: 6, count: 2 });
}

#[test]
fn config_pruning_of_branches() {
    assert_eq!(config(true, false).enabled_branches(), vec![Branch::Pag]);
    assert_eq!(config(true, true).enabled_branches(), vec![Branch::Pag]);
    assert_eq!(config(false, true).enabled_branches(), vec![Branch::Pag, Branch::Centrality]);
    assert_eq!(
        config(false, false).enabled_branches(),
        vec![
            Branch::Pag,
            Branch::Centrality,
            Branch::SinglePath,
            Branch::Summary,
            Branch::SinglePathSummary,
        ]
    );
}

#[test]
fn branch_names() {
    let names: Vec<&str> =
        config(false, false).enabled_branches().iter().map(|b| b.name()).collect();
    assert_eq!(names, vec!["pag", "bc", "sp", "summary", "sp_summary"]);
}

#[test]
fn plan_follows_the_switches() {
    assert_eq!(
        config(false, false).plan(),
        DataflowPlan {
            dump_pag: false,
            write_pag_dot: false,
            write_pag_msgpack: false,
            centrality: true,
            branch_counts: false,
            echo: false,
            write_bc_dot: true,
            summaries: true,
        }
    );
    let pruned = Config { verbose: 2, dump_pag: true, ..config(true, false) };
    assert_eq!(
        pruned.plan(),
        DataflowPlan {
            dump_pag: true,
            write_pag_dot: false,
            write_pag_msgpack: false,
            centrality: false,
            branch_counts: false,
            echo: true,
            write_bc_dot: false,
            summaries: false,
        }
    );
    let half = Config { verbose: 1, ..config(false, true) };
    assert!(half.plan().centrality && half.plan().branch_counts && !half.plan().summaries);
}

#[test]
fn checked_summary_contribution_refuses_a_weighted_score_out_of_range() {
    let wide = PagOutput::Edge(ActivityEdge { weight: 1 << 32, ..edge(0, 10) });
    assert_eq!(checked_summary_contribution(&wide, 1 << 32, 0, 1000), None);
    assert_eq!(checked_summary_contribution(&wide, u64::MAX, 0, 1000), None);
    let (key, part) = checked_summary_contribution(&wide, (1 << 32) - 1, 0, 1000).unwrap();
    assert_eq!(key.crossing, Crossing::Start);
    assert_eq!(
        part,
        Summary { bc: (1 << 32) - 1, weighted_bc: u64::MAX - (1 << 32) + 1, weight: 1 << 32, count: 1 }
    );
    assert_eq!(
        checked_summary_contribution(&PagOutput::Edge(edge(2000, 2400)), 5, 2, 1000),
        Some(summary_contribution(&PagOutput::Edge(edge(2000, 2400)), 5, 2, 1000))
    );
}
