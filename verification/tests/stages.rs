use pag_dataflow::activity::{ActivityEdge, ActivityNode, PagOutput, PathKey};
use pag_dataflow::aggregator::WindowAggregator;
use pag_dataflow::path_count::{correlate, same_type, score_of, PathCounter};
use pag_dataflow::sampler::{draw_seed, SeedSampler};
use pag_dataflow::summary::Summary;
use rand::rngs::StdRng;
use rand::SeedableRng;

fn node(timestamp: u64) -> ActivityNode {
    ActivityNode { timestamp, worker_id: 0 }
}

fn edge(src: u64, dst: u64) -> PagOutput {
    PagOutput::Edge(ActivityEdge {
        source: node(src),
        destination: node(dst),
        activity_type: 1,
        worker_local: true,
        operator_id: None,
        weight: 1,
    })
}

fn part(n: u64) -> Summary {
    Summary { bc: n, weighted_bc: 2 * n, weight: 3 * n, count: 1 }
}

#[test]
fn aggregator_emits_the_sum_of_contributions() {
    let mut aggregator: WindowAggregator<PathKey> = WindowAggregator::new();
    let a = PathKey { activity_type: 1, operator_id: 2 };
    let b = PathKey { activity_type: 1, operator_id: 3 };
    aggregator.contribute(7, a, part(1));
    aggregator.contribute(7, b, part(10));
    aggregator.contribute(8, a, part(100));
    aggregator.contribute(7, a, part(2));
    let mut emitted = aggregator.close(7);
    emitted.sort_by_key(|group| group.0.operator_id);
    assert_eq!(
        emitted,
        vec![
            (a, Summary { bc: 3, weighted_bc: 6, weight: 9, count: 2 }),
            (b, Summary { bc: 10, weighted_bc: 20, weight: 30, count: 1 }),
        ]
    );
}

#[test]
fn aggregator_emits_once_and_drops_the_window() {
    let mut aggregator: WindowAggregator<PathKey> = WindowAggregator::new();
    let a = PathKey { activity_type: 1, operator_id: 2 };
    aggregator.contribute(7, a, part(1));
    aggregator.contribute(8, a, part(5));
    assert_eq!(aggregator.close(7).len(), 1);
    assert_eq!(aggregator.close(7), vec![]);
    aggregator.contribute(7, a, part(4));
    assert_eq!(aggregator.close(7), vec![(a, part(4))]);
    assert_eq!(aggregator.close(8), vec![(a, part(5))]);
    assert_eq!(aggregator.close(9), vec![]);
}

#[test]
fn sampler_emits_nothing_for_an_empty_window() {
    let mut rng = StdRng::seed_from_u64(1);
    let mut sampler = SeedSampler::new();
    assert_eq!(sampler.close(3, &mut rng), None);
    sampler.buffer(3, &vec![]);
    assert_eq!(sampler.close(3, &mut rng), None);
    assert_eq!(draw_seed(&vec![], &mut rng), None);
}

#[test]
fn sampler_draws_a_candidate_of_the_window_and_drops_it() {
    let mut rng = StdRng::seed_from_u64(2);
    let mut sampler = SeedSampler::new();
    sampler.buffer(3, &vec![PagOutput::StartNode(node(1))]);
    sampler.buffer(4, &vec![PagOutput::StartNode(node(9))]);
    sampler.buffer(3, &vec![PagOutput::StartNode(node(2))]);
    let seed = sampler.close(3, &mut rng);
    assert!(
        seed == Some(PagOutput::StartNode(node(1))) || seed == Some(PagOutput::StartNode(node(2)))
    );
    assert_eq!(sampler.close(3, &mut rng), None);
    assert_eq!(sampler.close(4, &mut rng), Some(PagOutput::StartNode(node(9))));
}

#[test]
fn sampler_is_uniform_over_seeds() {
    let candidates: Vec<PagOutput> = (0..4).map(|t| PagOutput::StartNode(node(t))).collect();
    let mut hits = [0u32; 4];
    for seed in 0..4000u64 {
        let mut rng = StdRng::seed_from_u64(seed);
        let mut sampler = SeedSampler::new();
        sampler.buffer(0, &candidates);
        match sampler.close(0, &mut rng) {
            Some(PagOutput::StartNode(picked)) => hits[picked.timestamp as usize] += 1,
            other => panic!("no seed drawn: {:?}", other),
        }
    }
    for count in hits {
        assert!(count > 850 && count < 1150, "{:?}", hits);
    }
}

#[test]
fn sampler_is_reproducible_under_a_fixed_seed() {
    let candidates: Vec<PagOutput> = (0..50).map(|t| PagOutput::StartNode(node(t))).collect();
    let first = draw_seed(&candidates, &mut StdRng::seed_from_u64(42));
    let second = draw_seed(&candidates, &mut StdRng::seed_from_u64(42));
    assert!(first.is_some());
    assert_eq!(first, second);
}

#[test]
fn path_count_adds_scores_at_forward_destinations() {
    let mut counter = PathCounter::new();
    counter.add_scores(1, &vec![(edge(10, 20), 3), (edge(10, 30), 4), (edge(11, 20), 5)]);
    counter.add_forwards(1, &vec![PagOutput::StartNode(node(10)), PagOutput::StartNode(node(12))]);
    counter.add_forwards(1, &vec![PagOutput::StartNode(node(11)), PagOutput::StartNode(node(10))]);
    counter.add_scores(2, &vec![(edge(10, 20), 100)]);
    assert_eq!(counter.close(1), Some(7 + 0 + 5 + 7));
    assert_eq!(counter.close(1), Some(0));
    assert_eq!(counter.close(2), Some(0));
    assert_eq!(counter.close(3), Some(0));
}

#[test]
fn path_count_without_result_on_overflow() {
    let scores = vec![(node(1), u64::MAX), (node(1), 1), (node(2), u64::MAX)];
    assert_eq!(score_of(&scores, node(1)), None);
    assert_eq!(score_of(&scores, node(2)), Some(u64::MAX));
    assert_eq!(score_of(&scores, node(3)), Some(0));
    assert_eq!(correlate(&scores, &vec![node(2), node(3)]), Some(u64::MAX));
    assert_eq!(correlate(&scores, &vec![node(2), node(2)]), None);
    assert_eq!(correlate(&scores, &vec![node(3), node(1)]), None);
    assert_eq!(correlate(&scores, &vec![]), Some(0));
}

#[test]
fn same_type_hands_the_typed_value_back() {
    assert_eq!(same_type(&1u64, 7), 7u64);
    assert_eq!(same_type(&String::from("a"), String::from("b")), "b");
}
