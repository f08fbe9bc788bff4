//! Configuration of a ballot: party weights, the quorum threshold and the
//! timeouts of the protocol's stages.
use vstd::prelude::*;

verus! {

/// The sum of the first `k` weights of `weights`.
pub open spec fn prefix_weight(weights: Seq<u64>, k: int) -> int
    decreases k,
{
    if k <= 0 {
        0
    } else {
        prefix_weight(weights, k - 1) + weights[k - 1]
    }
}

/// The sum of all weights.
pub open spec fn total_weight(weights: Seq<u64>) -> int {
    prefix_weight(weights, weights.len() as int)
}

/// Two thirds of `total`, rounded up.
pub open spec fn bft_threshold(total: int) -> int {
    (2 * total + 2) / 3
}

/// The BFT threshold is the least weight that is at least two thirds of the
/// total weight.
pub proof fn lemma_bft_threshold_is_two_thirds(total: int)
    requires
        total >= 0,
    ensures
        3 * bft_threshold(total) >= 2 * total,
        3 * (bft_threshold(total) - 1) < 2 * total,
{
}

/// Prefix sums never decrease and never exceed the total.
pub proof fn lemma_prefix_weight_monotone(weights: Seq<u64>, i: int, j: int)
    requires
        0 <= i <= j <= weights.len(),
    ensures
        0 <= prefix_weight(weights, i) <= prefix_weight(weights, j),
    decreases j - i,
{
    if i < j {
        lemma_prefix_weight_monotone(weights, i, j - 1);
    } else {
        lemma_prefix_weight_nonneg(weights, i);
    }
}

proof fn lemma_prefix_weight_nonneg(weights: Seq<u64>, k: int)
    ensures
        0 <= prefix_weight(weights, k),
    decreases k,
{
    if k > 0 {
        lemma_prefix_weight_nonneg(weights, k - 1);
    }
}

/// Every prefix sum of `k` weights is at most `k` times the largest `u64`.
pub proof fn lemma_prefix_weight_bound(weights: Seq<u64>, k: int)
    requires
        0 <= k <= weights.len(),
    ensures
        prefix_weight(weights, k) <= k * 0xffff_ffff_ffff_ffff,
    decreases k,
{
    if k > 0 {
        lemma_prefix_weight_bound(weights, k - 1);
    }
}

/// The total weight of any vector of weights fits in a `u128`.
pub proof fn lemma_total_weight_fits(weights: Seq<u64>)
    requires
        weights.len() <= usize::MAX,
    ensures
        0 <= total_weight(weights) <= weights.len() * 0xffff_ffff_ffff_ffff,
        total_weight(weights) <= u128::MAX,
{
    lemma_prefix_weight_bound(weights, weights.len() as int);
    lemma_prefix_weight_nonneg(weights, weights.len() as int);
    let n = weights.len() as int;
    assert(n * 0xffff_ffff_ffff_ffff <= 0xffff_ffff_ffff_ffff * 0xffff_ffff_ffff_ffff)
        by (nonlinear_arith)
        requires
            0 <= n <= 0xffff_ffff_ffff_ffff,
    ;
}

/// The sum of the weights of those parties, among the first `k`, whose
/// identifiers belong to `parties`.
pub open spec fn set_weight(weights: Seq<u64>, parties: Set<u64>, k: int) -> int
    decreases k,
{
    if k <= 0 {
        0
    } else {
        set_weight(weights, parties, k - 1) + if parties.contains((k - 1) as u64) {
            weights[k - 1] as int
        } else {
            0
        }
    }
}

/// The total weight of the parties in `parties`.
pub open spec fn parties_weight(weights: Seq<u64>, parties: Set<u64>) -> int {
    set_weight(weights, parties, weights.len() as int)
}

/// Every identifier in `parties` names a party of `weights`.
pub open spec fn all_parties_known(weights: Seq<u64>, parties: Set<u64>) -> bool {
    forall|p: u64| parties.contains(p) ==> (p as int) < weights.len()
}

/// No party is counted twice: a set of parties weighs at most the total.
pub proof fn lemma_set_weight_bounded(weights: Seq<u64>, parties: Set<u64>, k: int)
    requires
        0 <= k <= weights.len(),
    ensures
        0 <= set_weight(weights, parties, k) <= prefix_weight(weights, k),
    decreases k,
{
    if k > 0 {
        lemma_set_weight_bounded(weights, parties, k - 1);
    }
}

/// A subset of parties weighs at most as much as the set.
pub proof fn lemma_set_weight_subset(weights: Seq<u64>, a: Set<u64>, b: Set<u64>, k: int)
    requires
        0 <= k <= weights.len(),
        a.subset_of(b),
    ensures
        set_weight(weights, a, k) <= set_weight(weights, b, k),
    decreases k,
{
    if k > 0 {
        lemma_set_weight_subset(weights, a, b, k - 1);
    }
}

/// The empty set of parties weighs nothing.
pub proof fn lemma_set_weight_empty(weights: Seq<u64>, k: int)
    ensures
        set_weight(weights, Set::empty(), k) == 0,
    decreases k,
{
    if k > 0 {
        lemma_set_weight_empty(weights, k - 1);
    }
}

/// Adding a party that was not yet counted adds exactly its weight.
pub proof fn lemma_set_weight_insert(weights: Seq<u64>, parties: Set<u64>, p: u64, k: int)
    requires
        0 <= k <= weights.len() <= u64::MAX,
        !parties.contains(p),
    ensures
        set_weight(weights, parties.insert(p), k) == set_weight(weights, parties, k) + if (p as int)
            < k {
            weights[p as int] as int
        } else {
            0
        },
    decreases k,
{
    if k > 0 {
        lemma_set_weight_insert(weights, parties, p, k - 1);
        assert(((k - 1) as u64) as int == k - 1);
        if (p as int) == k - 1 {
            assert(parties.insert(p).contains((k - 1) as u64));
        } else {
            assert(parties.insert(p).contains((k - 1) as u64) == parties.contains((k - 1) as u64));
        }
    }
}

/// The weights of two sets of parties add up to the weights of their union
/// and of their intersection.
pub proof fn lemma_set_weight_union_intersect(weights: Seq<u64>, a: Set<u64>, b: Set<u64>, k: int)
    ensures
        set_weight(weights, a, k) + set_weight(weights, b, k) == set_weight(weights, a.union(b), k)
            + set_weight(weights, a.intersect(b), k),
    decreases k,
{
    if k > 0 {
        lemma_set_weight_union_intersect(weights, a, b, k - 1);
    }
}

/// A set of parties of positive weight holds one of the first `k` parties.
pub proof fn lemma_set_weight_has_member(weights: Seq<u64>, parties: Set<u64>, k: int)
    requires
        set_weight(weights, parties, k) > 0,
    ensures
        exists|p: u64| (p as int) < k && #[trigger] parties.contains(p),
    decreases k,
{
    if k > 0 {
        if !parties.contains((k - 1) as u64) || weights[k - 1] == 0 {
            lemma_set_weight_has_member(weights, parties, k - 1);
            let p = choose|p: u64| (p as int) < k - 1 && #[trigger] parties.contains(p);
            assert((p as int) < k && parties.contains(p));
        } else {
            assert(parties.contains((k - 1) as u64));
        }
    }
}

/// Two quorums intersect: when twice the threshold exceeds the total weight,
/// two sets of parties that each weigh at least the threshold share a
/// party. The parties they share weigh at least twice the threshold less
/// the total: with the BFT threshold, at least a third of the total.
pub proof fn lemma_quorums_intersect(weights: Seq<u64>, a: Set<u64>, b: Set<u64>, threshold: int)
    requires
        parties_weight(weights, a) >= threshold,
        parties_weight(weights, b) >= threshold,
        2 * threshold > total_weight(weights),
    ensures
        exists|p: u64| (p as int) < weights.len() && a.contains(p) && #[trigger] b.contains(p),
        parties_weight(weights, a.intersect(b)) >= 2 * threshold - total_weight(weights),
{
    let n = weights.len() as int;
    lemma_set_weight_union_intersect(weights, a, b, n);
    lemma_set_weight_bounded(weights, a.union(b), n);
    lemma_set_weight_has_member(weights, a.intersect(b), n);
    let p = choose|p: u64| (p as int) < n && #[trigger] a.intersect(b).contains(p);
    assert(a.contains(p) && b.contains(p));
}

/// Configuration structure for BPCon.
///
/// The timeouts are counted in milliseconds from the moment the ballot is
/// launched.
#[derive(PartialEq, Eq, Debug, Clone)]
pub struct BPConConfig {
    /// `party_weights[i]` is the weight of the party with identifier `i`.
    pub party_weights: Vec<u64>,
    /// Threshold weight that defines a BFT quorum.
    pub threshold: u128,
    /// Timeout before the ballot is launched.
    pub launch_timeout: u64,
    /// Timeout before the 1a stage is launched.
    pub launch1a_timeout: u64,
    /// Timeout before the 1b stage is launched.
    pub launch1b_timeout: u64,
    /// Timeout before the 2a stage is launched.
    pub launch2a_timeout: u64,
    /// Timeout before the 2av stage is launched.
    pub launch2av_timeout: u64,
    /// Timeout before the 2b stage is launched.
    pub launch2b_timeout: u64,
    /// Timeout before the ballot is finalized.
    pub finalize_timeout: u64,
    /// Grace period granted to parties with latency before each step.
    pub grace_period: u64,
}

impl BPConConfig {
    /// The timeouts (launch, 1a, 1b, 2a, 2av, 2b, finalize, grace) that
    /// `with_default_timeouts` sets, in milliseconds.
    pub open spec fn has_default_timeouts(&self) -> bool {
        &&& self.launch_timeout == 0
        &&& self.launch1a_timeout == 200
        &&& self.launch1b_timeout == 400
        &&& self.launch2a_timeout == 600
        &&& self.launch2av_timeout == 800
        &&& self.launch2b_timeout == 1000
        &&& self.finalize_timeout == 1200
        &&& self.grace_period == 0
    }

    /// Creates a configuration with the given weights and threshold and the
    /// default timeouts.
    pub fn with_default_timeouts(party_weights: Vec<u64>, threshold: u128) -> (cfg: Self)
        ensures
            cfg.party_weights@ == party_weights@,
            cfg.threshold == threshold,
            cfg.has_default_timeouts(),
    {
        BPConConfig {
            party_weights,
            threshold,
            launch_timeout: 0,
            launch1a_timeout: 200,
            launch1b_timeout: 400,
            launch2a_timeout: 600,
            launch2av_timeout: 800,
            launch2b_timeout: 1000,
            finalize_timeout: 1200,
            grace_period: 0,
        }
    }

    /// Computes the BFT threshold: two thirds of the total weight, rounded
    /// up.
    pub fn compute_bft_threshold(party_weights: Vec<u64>) -> (threshold: u128)
        requires
            2 * total_weight(party_weights@) + 2 <= u128::MAX,
        ensures
            threshold == bft_threshold(total_weight(party_weights@)),
    {
        let mut total: u128 = 0;
        let mut i: usize = 0;
        while i < party_weights.len()
            invariant
                i <= party_weights.len(),
                total == prefix_weight(party_weights@, i as int),
                2 * total_weight(party_weights@) + 2 <= u128::MAX,
            decreases party_weights.len() - i,
        {
            proof {
                lemma_prefix_weight_monotone(party_weights@, i + 1, party_weights@.len() as int);
            }
            total = total + party_weights[i] as u128;
            i = i + 1;
        }
        (2 * total + 2) / 3
    }
}

impl Default for BPConConfig {
    /// Four parties of weight one, the BFT threshold of their total weight,
    /// and the default timeouts.
    fn default() -> (cfg: Self)
        ensures
            cfg.party_weights@ == seq![1u64, 1, 1, 1],
            cfg.threshold == 3,
            cfg.has_default_timeouts(),
    {
        let weights: Vec<u64> = vec![1, 1, 1, 1];
        proof {
            assert(weights@ =~= seq![1u64, 1, 1, 1]);
            reveal_with_fuel(prefix_weight, 5);
        }
        let threshold = BPConConfig::compute_bft_threshold(weights.clone());
        BPConConfig::with_default_timeouts(weights, threshold)
    }
}

} // verus!
