use bpcon::config::BPConConfig;
use bpcon::leader::{DefaultLeaderElector, DefaultLeaderElectorError, LeaderElector};
use bpcon::party::Party;
use bpcon::value::{Value, ValueSelector};
use std::collections::HashMap;

#[derive(Clone, PartialEq, Eq, Debug, Default)]
struct MockValue(u64);

impl Value for MockValue {}

impl std::fmt::Display for MockValue {
    fn fmt(&self, f: &mut std::fmt::Formatter<'_>) -> std::fmt::Result {
        f.write_str(&format!("MockValue({})", self.0))
    }
}

#[derive(Clone, Default)]
struct MockValueSelector;

impl ValueSelector<MockValue> for MockValueSelector {
    fn verify(&self, _: &MockValue, _: &HashMap<u64, Option<MockValue>>) -> bool {
        true
    }

    fn select(&self, _: &HashMap<u64, Option<MockValue>>) -> MockValue {
        MockValue(1)
    }
}

type MockParty = Party<MockValue, MockValueSelector>;

fn mock_party() -> MockParty {
    Party::new(0, BPConConfig::default(), MockValueSelector)
}

#[test]
fn test_default_leader_elector_weight_one() {
    let mut party = mock_party();
    party.cfg.party_weights = vec![0, 1, 0, 0];

    let elector = DefaultLeaderElector::new();

    let leader = elector.elect_leader(&party).unwrap();
    println!("leader: {}", leader);
}

#[test]
fn only_party_with_weight_is_elected() {
    let mut party = mock_party();
    party.cfg.party_weights = vec![0, 1, 0, 0];
    assert_eq!(DefaultLeaderElector::new().elect_leader(&party), Ok(1));
}

#[test]
fn test_default_leader_elector_determinism() {
    let party = mock_party();
    let elector = DefaultLeaderElector::new();

    const ITERATIONS: usize = 10;

    let leaders: Vec<_> = (0..ITERATIONS).map(|_| elector.elect_leader(&party).unwrap()).collect();

    match &leaders[..] {
        [first_leader, rest @ ..] => {
            assert!(
                rest.iter().all(|leader| leader == first_leader),
                "All leaders should be the same across multiple iterations."
            );
        }
        _ => panic!("No leaders were collected!"),
    }
}

#[test]
fn test_default_leader_elector_fail_with_zero_weights() {
    let mut party = mock_party();
    let cfg = BPConConfig { party_weights: vec![0, 0, 0], ..Default::default() };
    party.cfg = cfg;
    let elector = DefaultLeaderElector::new();

    assert!(
        elector.elect_leader(&party).is_err(),
        "Expected DefaultLeaderElectorError::ZeroWeightSum"
    );
}

#[test]
fn zero_weight_sum_is_reported_as_such() {
    let mut party = mock_party();
    party.cfg.party_weights = vec![0, 0, 0];
    let elector = DefaultLeaderElector::new();
    assert_eq!(elector.elect_leader(&party), Err("zero weight sum".to_string()));
    assert!(matches!(
        DefaultLeaderElector::elect(&vec![0, 0], 0, 1),
        Err(DefaultLeaderElectorError::ZeroWeightSum)
    ));
    assert!(matches!(
        DefaultLeaderElector::elect(&vec![], 0, 1),
        Err(DefaultLeaderElectorError::ZeroWeightSum)
    ));
}

#[test]
fn error_descriptions() {
    assert_eq!(DefaultLeaderElectorError::ZeroWeightSum.describe(), "zero weight sum");
    assert_eq!(DefaultLeaderElectorError::DrawsExhausted.describe(), "random draws exhausted");
}

#[test]
fn single_weighted_party_is_always_elected() {
    for ballot in 0..20u64 {
        let leader = DefaultLeaderElector::elect(&vec![0, 0, 5, 0], 4, ballot).unwrap();
        assert_eq!(leader, 2);
    }
}

#[test]
fn elected_leader_is_a_known_party() {
    let weights = vec![3, 1, 4, 1, 5, 9, 2, 6];
    for ballot in 0..50u64 {
        let leader = DefaultLeaderElector::elect(&weights, 21, ballot).unwrap();
        assert!((leader as usize) < weights.len());
    }
}

#[test]
fn elections_depend_on_the_ballot() {
    let weights = vec![1, 1, 1, 1];
    let leaders: Vec<u64> =
        (0..40u64).map(|ballot| DefaultLeaderElector::elect(&weights, 3, ballot).unwrap()).collect();
    assert!(leaders.iter().any(|l| *l != leaders[0]));
}

#[test]
fn elections_are_repeatable() {
    let weights = vec![2, 7, 1, 8];
    for ballot in 0..10u64 {
        let first = DefaultLeaderElector::elect(&weights, 12, ballot).unwrap();
        let second = DefaultLeaderElector::elect(&weights, 12, ballot).unwrap();
        assert_eq!(first, second);
    }
}

#[test]
fn leader_for_picks_first_index_reaching_the_draw() {
    let weights = vec![0, 1, 0, 0];
    assert_eq!(DefaultLeaderElector::leader_for(&weights, 0), 1);
    let weights = vec![2, 3, 5];
    assert_eq!(DefaultLeaderElector::leader_for(&weights, 0), 0);
    assert_eq!(DefaultLeaderElector::leader_for(&weights, 1), 0);
    assert_eq!(DefaultLeaderElector::leader_for(&weights, 2), 1);
    assert_eq!(DefaultLeaderElector::leader_for(&weights, 4), 1);
    assert_eq!(DefaultLeaderElector::leader_for(&weights, 5), 2);
    assert_eq!(DefaultLeaderElector::leader_for(&weights, 9), 2);
    let weights = vec![1, 1, 1, 1];
    assert_eq!(DefaultLeaderElector::leader_for(&weights, 3), 3);
}

#[test]
fn default_elector_equals_new() {
    let party = mock_party();
    let a = DefaultLeaderElector::default();
    let b = DefaultLeaderElector::new();
    assert_eq!(a.elect_leader(&party), b.elect_leader(&party));
}

#[test]
fn seeded_elections_depend_only_on_the_seed() {
    let weights = vec![1, 2, 3, 4];
    let mut leaders = Vec::new();
    for seed in 0..40u64 {
        let first = DefaultLeaderElector::elect_from_seed(&weights, seed).unwrap();
        let second = DefaultLeaderElector::elect_from_seed(&weights, seed).unwrap();
        assert_eq!(first, second);
        assert!(first < 4);
        leaders.push(first);
    }
    // The ChaCha20 stream varies with the seed, and so does the leader.
    assert!(leaders.iter().any(|l| *l != leaders[0]));
    assert!(matches!(
        DefaultLeaderElector::elect_from_seed(&vec![0, 0], 5),
        Err(DefaultLeaderElectorError::ZeroWeightSum)
    ));
}

#[test]
fn seeded_election_with_one_party_of_weight() {
    for seed in 0..20u64 {
        let leader = DefaultLeaderElector::elect_from_seed(&vec![7], seed).unwrap();
        assert_eq!(leader, 0);
    }
}
