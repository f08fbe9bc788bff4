use bpcon::config::BPConConfig;

#[test]
fn compute_bft_threshold_of_doc_example() {
    let party_weights = vec![10, 20, 30, 40, 50];
    let threshold = BPConConfig::compute_bft_threshold(party_weights);
    assert_eq!(threshold, 100);
}

#[test]
fn compute_bft_threshold_rounds_up() {
    assert_eq!(BPConConfig::compute_bft_threshold(vec![1, 1, 1, 1]), 3);
    assert_eq!(BPConConfig::compute_bft_threshold(vec![1]), 1);
    assert_eq!(BPConConfig::compute_bft_threshold(vec![2, 2]), 3);
    assert_eq!(BPConConfig::compute_bft_threshold(vec![]), 0);
}

#[test]
fn compute_bft_threshold_large_weights() {
    let w = vec![u64::MAX, u64::MAX, u64::MAX];
    let total: u128 = 3 * (u64::MAX as u128);
    assert_eq!(BPConConfig::compute_bft_threshold(w), (2 * total + 2) / 3);
}

#[test]
fn with_default_timeouts_keeps_weights_and_threshold() {
    let cfg = BPConConfig::with_default_timeouts(vec![1, 1, 1, 1, 1, 1], 4);
    assert_eq!(cfg.party_weights, vec![1, 1, 1, 1, 1, 1]);
    assert_eq!(cfg.threshold, 4);
    assert_eq!(cfg.launch_timeout, 0);
    assert_eq!(cfg.launch1a_timeout, 200);
    assert_eq!(cfg.launch1b_timeout, 400);
    assert_eq!(cfg.launch2a_timeout, 600);
    assert_eq!(cfg.launch2av_timeout, 800);
    assert_eq!(cfg.launch2b_timeout, 1000);
    assert_eq!(cfg.finalize_timeout, 1200);
    assert_eq!(cfg.grace_period, 0);
}

#[test]
fn default_config_has_four_unit_parties() {
    let cfg = BPConConfig::default();
    assert_eq!(cfg.party_weights, vec![1, 1, 1, 1]);
    assert_eq!(cfg.threshold, 3);
    assert_eq!(cfg.launch1a_timeout, 200);
    assert_eq!(cfg.finalize_timeout, 1200);
}
