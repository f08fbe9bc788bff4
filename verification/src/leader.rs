//! Leader election: the trait that elects the leader of a ballot, and the
//! default elector, which draws a party at random with probability
//! proportional to its weight, from a seed that the party's configuration
//! and ballot number determine.
use crate::config::{lemma_prefix_weight_monotone, lemma_total_weight_fits, prefix_weight, total_weight};
use crate::party::Party;
use crate::value::{Value, ValueSelector};
use rand_chacha::rand_core::{RngCore, SeedableRng};
use rand_chacha::ChaCha20Rng;
use std::hash::{DefaultHasher, Hash, Hasher};
use vstd::arithmetic::div_mod::lemma_small_mod;
use vstd::arithmetic::power2::{lemma_pow2_unfold, pow2};
use vstd::prelude::*;
use vstd::std_specs::hash::DefaultHasherAdditionalSpecFns;

verus! {

/// Elects the leader of a ballot.
///
/// Every party computes the leader for itself, so an implementation must
/// be deterministic: the same party state must give the same leader.
pub trait LeaderElector<V: Value, VS: ValueSelector<V>>: Send {
    /// The identifier of the party elected as leader of `party`'s current
    /// ballot, or a description of why none could be elected.
    fn elect_leader(&self, party: &Party<V, VS>) -> Result<u64, String>;
}

/// Errors of the default leader election.
#[derive(Debug)]
pub enum DefaultLeaderElectorError {
    /// The weights sum to zero, so no party can be drawn.
    ZeroWeightSum,
    /// No draw of the random stream is accepted. The stream repeats itself
    /// after `draws_per_cycle()` draws, so once a whole cycle is rejected,
    /// drawing on would never end. Each draw is accepted with probability
    /// at least one half.
    DrawsExhausted,
}

/// The message that describes an error of the default election.
pub open spec fn error_text(e: DefaultLeaderElectorError) -> Seq<char> {
    match e {
        DefaultLeaderElectorError::ZeroWeightSum => "zero weight sum"@,
        DefaultLeaderElectorError::DrawsExhausted => "random draws exhausted"@,
    }
}

/// `r` is what the trait method reports of the default election's
/// `outcome`: the leader, or the error's description.
pub open spec fn reported_election(
    outcome: Result<u64, DefaultLeaderElectorError>,
    r: Result<u64, String>,
) -> bool {
    match outcome {
        Ok(leader) => r == Ok::<u64, String>(leader),
        Err(e) => r matches Err(s) && s@ == error_text(e),
    }
}

impl DefaultLeaderElectorError {
    /// The message that describes the error.
    pub fn describe(&self) -> (s: String)
        ensures
            s@ == error_text(*self),
    {
        match self {
            DefaultLeaderElectorError::ZeroWeightSum => "zero weight sum".to_owned(),
            DefaultLeaderElectorError::DrawsExhausted => "random draws exhausted".to_owned(),
        }
    }
}

// ---------------------------------------------------------------------------
// The seed: a hash of the configuration and the ballot number.
// ---------------------------------------------------------------------------

/// `after` is the sequence of writes of a `DefaultHasher` (its view) once
/// `Hash for Vec<u64>` has fed `weights` to it, from `before`. This is a
/// relation, not a function: the bytes written depend on the platform and
/// the release of the standard library, so nothing is claimed of them.
pub uninterp spec fn hashed_weights(
    before: Seq<Seq<u8>>,
    weights: Seq<u64>,
    after: Seq<Seq<u8>>,
) -> bool;

/// `after` is the sequence of writes of a `DefaultHasher` once
/// `Hash for u128` has fed `threshold` to it, from `before`; a relation, for
/// the reason given at `hashed_weights`.
pub uninterp spec fn hashed_threshold(
    before: Seq<Seq<u8>>,
    threshold: u128,
    after: Seq<Seq<u8>>,
) -> bool;

/// `after` is the sequence of writes of a `DefaultHasher` once
/// `Hash for u64` has fed `ballot` to it, from `before`; a relation, for the
/// reason given at `hashed_weights`.
pub uninterp spec fn hashed_ballot(before: Seq<Seq<u8>>, ballot: u64, after: Seq<Seq<u8>>) -> bool;

/// `seed` is what a fresh `DefaultHasher` finishes with once `weights`,
/// `threshold` and `ballot` were hashed into it, in this order.
pub open spec fn seed_of_config(weights: Seq<u64>, threshold: u128, ballot: u64, seed: u64) -> bool {
    exists|h1: Seq<Seq<u8>>, h2: Seq<Seq<u8>>, h3: Seq<Seq<u8>>|
        #![trigger hashed_weights(Seq::empty(), weights, h1), hashed_threshold(h1, threshold, h2), hashed_ballot(h2, ballot, h3)]
        {
            &&& hashed_weights(Seq::empty(), weights, h1)
            &&& hashed_threshold(h1, threshold, h2)
            &&& hashed_ballot(h2, ballot, h3)
            &&& seed == DefaultHasher::spec_finish(h3)
        }
}

/// Feeds `weights` to `hasher` through `Hash for Vec<u64>`: the writes
/// that follow are those `hashed_weights` relates to `weights`.
#[verifier::external_body]
fn hash_weights(weights: &Vec<u64>, hasher: &mut DefaultHasher)
    ensures
        hashed_weights(old(hasher)@, weights@, final(hasher)@),
{
    weights.hash(hasher)
}

/// Feeds `threshold` to `hasher` through `Hash for u128`, as
/// `hashed_threshold` relates.
#[verifier::external_body]
fn hash_threshold(threshold: u128, hasher: &mut DefaultHasher)
    ensures
        hashed_threshold(old(hasher)@, threshold, final(hasher)@),
{
    threshold.hash(hasher)
}

/// Feeds `ballot` to `hasher` through `Hash for u64`, as `hashed_ballot`
/// relates.
#[verifier::external_body]
fn hash_ballot(ballot: u64, hasher: &mut DefaultHasher)
    ensures
        hashed_ballot(old(hasher)@, ballot, final(hasher)@),
{
    ballot.hash(hasher)
}

// ---------------------------------------------------------------------------
// The random stream: ChaCha20 seeded from a `u64`.
// ---------------------------------------------------------------------------

/// The ChaCha20 generator of rand_chacha, held opaque.
#[verifier::external_type_specification]
#[verifier::external_body]
pub struct ExChaCha20Rng(ChaCha20Rng);

/// The `position`-th `u64` (counting from zero) that `next_u64` returns from
/// a `ChaCha20Rng` created by `seed_from_u64(seed)`, for a position within
/// the first cycle of the stream. rand_chacha documents its generators as
/// deterministic and portable, and rand_core documents `seed_from_u64` as
/// value-stable.
pub uninterp spec fn chacha20_word(seed: u64, position: nat) -> u64;

/// The number of 128-bit draws (two `u64` words each) after which the
/// ChaCha20 stream repeats itself: its 64-bit block counter wraps after
/// `2^64` blocks of eight `u64` words, as rand_chacha documents ("1 ZiB of
/// output before cycling").
pub open spec fn draws_per_cycle() -> nat {
    0x4_0000_0000_0000_0000
}

/// The number of `u64` words after which the stream repeats itself.
pub open spec fn words_per_cycle() -> nat {
    2 * draws_per_cycle()
}

/// A ChaCha20 stream together with its seed and its position in the cycle
/// of the stream: the number of words drawn from it so far, modulo
/// `words_per_cycle()`.
struct WordStream {
    rng: ChaCha20Rng,
    seed: Ghost<u64>,
    drawn: Ghost<nat>,
}

impl View for WordStream {
    type V = (u64, nat);

    /// The seed, and the position in the cycle.
    closed spec fn view(&self) -> (u64, nat) {
        (self.seed@, self.drawn@)
    }
}

/// Creates a ChaCha20 stream with `ChaCha20Rng::seed_from_u64(seed)`; no
/// word has been drawn from it.
#[verifier::external_body]
fn seeded_stream(seed: u64) -> (stream: WordStream)
    ensures
        stream@ == (seed, 0nat),
{
    WordStream { rng: ChaCha20Rng::seed_from_u64(seed), seed: Ghost(seed), drawn: Ghost(0) }
}

/// Draws the next word with `RngCore::next_u64`: the word at the stream's
/// current position, after which the position advances, back to the start
/// of the cycle after its last word.
#[verifier::external_body]
fn next_word(stream: &mut WordStream) -> (word: u64)
    requires
        old(stream)@.1 < words_per_cycle(),
    ensures
        word == chacha20_word(old(stream)@.0, old(stream)@.1),
        final(stream)@ == (old(stream)@.0, (old(stream)@.1 + 1) % words_per_cycle()),
{
    stream.rng.next_u64()
}

// ---------------------------------------------------------------------------
// Drawing a number below a bound, and mapping it to a party.
// ---------------------------------------------------------------------------

/// The number of bits kept of each 128-bit draw when the bound is `range`:
/// the largest `k <= bits` whose `2^(k-1)` does not exceed `range`, and at
/// least one.
pub open spec fn kept_bits(range: u128, bits: nat) -> nat
    decreases bits,
{
    if bits <= 1 || pow2((bits - 1) as nat) <= range {
        bits
    } else {
        kept_bits(range, (bits - 1) as nat)
    }
}

/// The `i`-th 128-bit draw of the stream: two consecutive words, the first
/// one high. The draws repeat with the stream's cycle.
pub open spec fn draw(seed: u64, i: nat) -> nat {
    let c = i % draws_per_cycle();
    chacha20_word(seed, 2 * c) as nat * pow2(64) + chacha20_word(seed, 2 * c + 1) as nat
}

/// A draw is the two words at its place in the stream's cycle, the first
/// one high: a 128-bit number, the same for draws a whole cycle apart.
pub proof fn lemma_draw_is_two_words(seed: u64, i: nat)
    ensures
        draw(seed, i) == chacha20_word(seed, 2 * (i % draws_per_cycle())) as nat * 0x1_0000_0000_0000_0000
            + chacha20_word(seed, 2 * (i % draws_per_cycle()) + 1) as nat,
        draw(seed, i) < pow2(128),
        draw(seed, i + draws_per_cycle()) == draw(seed, i),
{
    let c = i % draws_per_cycle();
    let hi = chacha20_word(seed, 2 * c);
    let lo = chacha20_word(seed, 2 * c + 1);
    vstd::arithmetic::power2::lemma2_to64();
    vstd::arithmetic::power2::lemma_pow2_adds(64, 64);
    assert((hi as nat) * 0x1_0000_0000_0000_0000 + (lo as nat) < 0x1_0000_0000_0000_0000
        * 0x1_0000_0000_0000_0000)
        by (nonlinear_arith)
        requires
            hi <= 0xffff_ffff_ffff_ffff,
            lo <= 0xffff_ffff_ffff_ffff,
    ;
    vstd::arithmetic::div_mod::lemma_mod_add_multiples_vanish(i as int, draws_per_cycle() as int);
}

/// The `i`-th candidate for a number below `range`: the draw cut down to its
/// top `kept_bits(range, 128)` bits.
pub open spec fn candidate(seed: u64, range: u128, i: nat) -> nat {
    draw(seed, i) / pow2((128 - kept_bits(range, 128)) as nat)
}

/// Every `u128` is below `2^128`.
proof fn lemma_u128_below_pow2_128(x: u128)
    ensures
        x < pow2(128),
{
    vstd::arithmetic::power2::lemma2_to64();
    vstd::arithmetic::power2::lemma_pow2_adds(64, 64);
}

/// The number of bits kept is the bit length of `range`, when `range` is
/// below `2^bits`.
proof fn lemma_kept_bits_is_bit_length(range: u128, bits: nat)
    requires
        1 <= range,
        1 <= bits,
        range < pow2(bits),
    ensures
        1 <= kept_bits(range, bits) <= bits,
        pow2((kept_bits(range, bits) - 1) as nat) <= range,
        range < pow2(kept_bits(range, bits)),
    decreases bits,
{
    if bits <= 1 {
        vstd::arithmetic::power2::lemma2_to64();
    } else if pow2((bits - 1) as nat) <= range {
    } else {
        lemma_kept_bits_is_bit_length(range, (bits - 1) as nat);
    }
}

/// A candidate is the top `k` bits of its 128-bit draw, where `k` is the
/// bit length of `range`: `2^(k-1) <= range < 2^k`. Cut any shorter, some
/// numbers below `range` could never be drawn; any longer, more than half
/// of the draws would be rejected.
pub proof fn lemma_candidate_keeps_top_bits(seed: u64, range: u128, i: nat) -> (k: nat)
    requires
        range >= 1,
    ensures
        1 <= k <= 128,
        pow2((k - 1) as nat) <= range,
        range < pow2(k),
        candidate(seed, range, i) == draw(seed, i) / pow2((128 - k) as nat),
{
    lemma_u128_below_pow2_128(range);
    lemma_kept_bits_is_bit_length(range, 128);
    kept_bits(range, 128)
}

/// Every number `v` below `range` is the top `k` bits of some 128-bit draw,
/// when `range < 2^k`: of `v * 2^(128-k)`. With
/// `lemma_candidate_keeps_top_bits`, every number below the range can be
/// drawn.
pub proof fn lemma_every_number_below_range_is_top_bits(range: u128, k: nat, v: nat)
    requires
        k <= 128,
        range < pow2(k),
        v < range,
    ensures
        v * pow2((128 - k) as nat) < pow2(128),
        (v * pow2((128 - k) as nat)) / pow2((128 - k) as nat) == v,
{
    let d = pow2((128 - k) as nat);
    vstd::arithmetic::power2::lemma_pow2_pos((128 - k) as nat);
    vstd::arithmetic::power2::lemma_pow2_adds(k, (128 - k) as nat);
    vstd::arithmetic::mul::lemma_mul_strict_inequality(v as int, pow2(k) as int, d as int);
    vstd::arithmetic::div_mod::lemma_div_multiples_vanish(v as int, d as int);
    assert(d * v == v * d) by (nonlinear_arith);
}

/// The party that a number `r` designates: the first index whose running
/// weight sum exceeds `r`. Party `i` is designated by the numbers from the
/// running sum before it up to, but not including, the running sum after
/// it, so by exactly as many numbers as its weight.
pub open spec fn designates(weights: Seq<u64>, r: int, index: int) -> bool {
    &&& 0 <= index < weights.len()
    &&& r < prefix_weight(weights, index + 1)
    &&& forall|j: int| 0 <= j < index ==> r >= #[trigger] prefix_weight(weights, j + 1)
}

/// `leader` is the party that some number below the total weight
/// designates.
pub open spec fn drawn_leader(weights: Seq<u64>, random_value: int, leader: int) -> bool {
    0 <= random_value < total_weight(weights) && designates(weights, random_value, leader)
}

/// A number designates at most one party.
pub proof fn lemma_designated_party_is_unique(weights: Seq<u64>, r: int, i: int, j: int)
    requires
        designates(weights, r, i),
        designates(weights, r, j),
    ensures
        i == j,
{
    if i < j {
        assert(r >= prefix_weight(weights, i + 1));
    } else if j < i {
        assert(r >= prefix_weight(weights, j + 1));
    }
}

/// The numbers that designate party `i` are exactly those from the running
/// weight sum before it up to, but not including, the running sum after
/// it: a range as wide as the party's weight.
pub proof fn lemma_designated_range(weights: Seq<u64>, r: int, i: int)
    requires
        0 <= i < weights.len(),
        r >= 0,
    ensures
        designates(weights, r, i) <==> (prefix_weight(weights, i) <= r && r < prefix_weight(
            weights,
            i + 1,
        )),
        prefix_weight(weights, i + 1) - prefix_weight(weights, i) == weights[i],
{
    if prefix_weight(weights, i) <= r && r < prefix_weight(weights, i + 1) {
        assert forall|j: int| 0 <= j < i implies r >= #[trigger] prefix_weight(weights, j + 1) by {
            lemma_prefix_weight_monotone(weights, j + 1, i);
        }
    }
    if designates(weights, r, i) && i > 0 {
        assert(r >= prefix_weight(weights, (i - 1) + 1));
    }
}

/// Only a party of positive weight is designated: its weight exceeds the
/// distance from the running sum before it to the number.
pub proof fn lemma_designated_party_has_weight(weights: Seq<u64>, r: int, i: int)
    requires
        designates(weights, r, i),
        r >= 0,
    ensures
        weights[i] > 0,
{
    assert(prefix_weight(weights, i + 1) == prefix_weight(weights, i) + weights[i]);
    if i > 0 {
        assert(r >= prefix_weight(weights, (i - 1) + 1));
    }
}

/// The `d`-th candidate is the first one below `range`.
pub open spec fn first_accepted(seed: u64, range: u128, d: nat) -> bool {
    &&& candidate(seed, range, d) < range
    &&& forall|j: nat| j < d ==> #[trigger] candidate(seed, range, j) >= range
}

/// `r` is the outcome of drawing a number below `range` from the ChaCha20
/// stream of `seed`: the first candidate below `range`, and `None` if no
/// candidate is.
pub open spec fn drawn_below(seed: u64, range: u128, r: Option<u128>) -> bool {
    match r {
        Some(v) => exists|d: nat|
            {
                &&& #[trigger] first_accepted(seed, range, d)
                &&& v == candidate(seed, range, d)
            },
        None => forall|j: nat| #[trigger] candidate(seed, range, j) >= range,
    }
}

/// The draw below a bound depends on the seed and the bound alone: two
/// draws from the same seed below the same bound give the same number, or
/// both none.
pub proof fn lemma_drawn_below_is_deterministic(
    seed: u64,
    range: u128,
    r1: Option<u128>,
    r2: Option<u128>,
)
    requires
        drawn_below(seed, range, r1),
        drawn_below(seed, range, r2),
    ensures
        r1 == r2,
{
    match (r1, r2) {
        (Some(a), Some(b)) => {
            let d1 = choose|d: nat|
                {
                    &&& #[trigger] first_accepted(seed, range, d)
                    &&& a == candidate(seed, range, d)
                };
            let d2 = choose|d: nat|
                {
                    &&& #[trigger] first_accepted(seed, range, d)
                    &&& b == candidate(seed, range, d)
                };
            if d1 < d2 {
                assert(candidate(seed, range, d1) >= range);
            } else if d2 < d1 {
                assert(candidate(seed, range, d2) >= range);
            }
        },
        (Some(a), None) => {
            let d1 = choose|d: nat|
                {
                    &&& #[trigger] first_accepted(seed, range, d)
                    &&& a == candidate(seed, range, d)
                };
            assert(candidate(seed, range, d1) >= range);
        },
        (None, Some(b)) => {
            let d2 = choose|d: nat|
                {
                    &&& #[trigger] first_accepted(seed, range, d)
                    &&& b == candidate(seed, range, d)
                };
            assert(candidate(seed, range, d2) >= range);
        },
        (None, None) => {},
    }
}

/// `r` is the outcome of the weighted election from `seed` under `weights`:
/// an error if the weights sum to zero; otherwise the party that the first
/// candidate below the total weight designates, or an error if no
/// candidate is below it.
pub open spec fn seeded_election(
    weights: Seq<u64>,
    seed: u64,
    r: Result<u64, DefaultLeaderElectorError>,
) -> bool {
    let total = total_weight(weights);
    if total == 0 {
        r == Err::<u64, DefaultLeaderElectorError>(DefaultLeaderElectorError::ZeroWeightSum)
    } else {
        match r {
            Ok(leader) => exists|d: nat|
                {
                    &&& #[trigger] first_accepted(seed, total as u128, d)
                    &&& designates(weights, candidate(seed, total as u128, d) as int, leader as int)
                },
            Err(DefaultLeaderElectorError::DrawsExhausted) => forall|j: nat|
                #[trigger] candidate(seed, total as u128, j) >= total as u128,
            Err(DefaultLeaderElectorError::ZeroWeightSum) => false,
        }
    }
}

/// The election from a given seed has one outcome: the same weights and
/// seed give the same leader, or the same error.
pub proof fn lemma_seeded_election_is_deterministic(
    weights: Seq<u64>,
    seed: u64,
    r1: Result<u64, DefaultLeaderElectorError>,
    r2: Result<u64, DefaultLeaderElectorError>,
)
    requires
        seeded_election(weights, seed, r1),
        seeded_election(weights, seed, r2),
    ensures
        r1 == r2,
{
    let total = total_weight(weights);
    if total != 0 {
        let range = total as u128;
        match (r1, r2) {
            (Ok(a), Ok(b)) => {
                let d1 = choose|d: nat|
                    {
                        &&& #[trigger] first_accepted(seed, range, d)
                        &&& designates(weights, candidate(seed, range, d) as int, a as int)
                    };
                let d2 = choose|d: nat|
                    {
                        &&& #[trigger] first_accepted(seed, range, d)
                        &&& designates(weights, candidate(seed, range, d) as int, b as int)
                    };
                if d1 < d2 {
                    assert(candidate(seed, range, d1) >= range);
                } else if d2 < d1 {
                    assert(candidate(seed, range, d2) >= range);
                }
                lemma_designated_party_is_unique(
                    weights,
                    candidate(seed, range, d1) as int,
                    a as int,
                    b as int,
                );
            },
            (Ok(a), Err(_)) => {
                let d1 = choose|d: nat|
                    {
                        &&& #[trigger] first_accepted(seed, range, d)
                        &&& designates(weights, candidate(seed, range, d) as int, a as int)
                    };
                assert(candidate(seed, range, d1) >= range);
            },
            (Err(_), Ok(b)) => {
                let d2 = choose|d: nat|
                    {
                        &&& #[trigger] first_accepted(seed, range, d)
                        &&& designates(weights, candidate(seed, range, d) as int, b as int)
                    };
                assert(candidate(seed, range, d2) >= range);
            },
            (Err(_), Err(_)) => {},
        }
    }
}

/// What a seeded election's outcome says of the weights: an error only
/// when the weights sum to zero or the draws ran out, and a leader that a
/// number below the total weight designates.
proof fn lemma_seeded_election_facts(
    weights: Seq<u64>,
    seed: u64,
    r: Result<u64, DefaultLeaderElectorError>,
)
    requires
        seeded_election(weights, seed, r),
        weights.len() <= usize::MAX,
    ensures
        exists|s: u64| #[trigger] seeded_election(weights, s, r),
        total_weight(weights) == 0 ==> r == Err::<u64, DefaultLeaderElectorError>(
            DefaultLeaderElectorError::ZeroWeightSum,
        ),
        r matches Err(e) ==> total_weight(weights) == 0 || e is DrawsExhausted,
        r is Ok ==> exists|random_value: int|
            #[trigger] drawn_leader(weights, random_value, r->Ok_0 as int),
{
    let total = total_weight(weights);
    lemma_total_weight_fits(weights);
    if total != 0 {
        if let Ok(leader) = r {
            let range = total as u128;
            let d = choose|d: nat|
                {
                    &&& #[trigger] first_accepted(seed, range, d)
                    &&& designates(weights, candidate(seed, range, d) as int, leader as int)
                };
            assert(r->Ok_0 == leader);
            assert(drawn_leader(weights, candidate(seed, range, d) as int, r->Ok_0 as int));
        }
    }
}

proof fn lemma_shl_one(s: u128)
    requires
        s < 128,
    ensures
        (1u128 << s) == pow2(s as nat),
    decreases s,
{
    if s == 0 {
        assert((1u128 << 0u128) == 1) by (bit_vector);
        vstd::arithmetic::power2::lemma2_to64();
    } else {
        lemma_shl_one((s - 1) as u128);
        assert((1u128 << s) == 2 * (1u128 << ((s - 1) as u128))) by (bit_vector)
            requires
                0 < s < 128,
        ;
        lemma_pow2_unfold(s as nat);
    }
}

/// Two words, the first one high, make the 128-bit number that `draw`
/// describes.
proof fn lemma_words_combine(hi: u64, lo: u64)
    ensures
        ((hi as u128) << 64u128) | (lo as u128) == hi as nat * pow2(64) + lo as nat,
{
    assert(((hi as u128) << 64u128) | (lo as u128) == (hi as u128) * 0x1_0000_0000_0000_0000u128
        + (lo as u128)) by (bit_vector);
    vstd::arithmetic::power2::lemma2_to64_rest();
}

impl DefaultLeaderElector {
    /// Creates a new `DefaultLeaderElector`.
    pub fn new() -> (elector: Self)
        ensures
            elector == (DefaultLeaderElector {  }),
    {
        DefaultLeaderElector {  }
    }

    /// Computes the seed of the election from the configuration and the
    /// ballot number, with `DefaultHasher`.
    fn compute_seed(weights: &Vec<u64>, threshold: u128, ballot: u64) -> (seed: u64)
        ensures
            seed_of_config(weights@, threshold, ballot, seed),
    {
        let mut hasher = DefaultHasher::new();
        let ghost h0 = hasher@;
        hash_weights(weights, &mut hasher);
        let ghost h1 = hasher@;
        hash_threshold(threshold, &mut hasher);
        let ghost h2 = hasher@;
        hash_ballot(ballot, &mut hasher);
        let ghost h3 = hasher@;
        let seed = hasher.finish();
        assert(h0 == Seq::<Seq<u8>>::empty());
        assert(hashed_weights(Seq::empty(), weights@, h1) && hashed_threshold(h1, threshold, h2)
            && hashed_ballot(h2, ballot, h3));
        seed
    }

    /// Draws a number below `range` from the ChaCha20 stream seeded with
    /// `seed`, by rejection: each 128-bit draw is cut down to the bit length
    /// of `range`, and the first candidate below `range` is returned.
    /// `None` when a whole cycle of the stream was rejected: the stream then
    /// repeats itself, and no later draw is accepted either.
    fn hash_to_range(seed: u64, range: u128) -> (r: Option<u128>)
        requires
            range >= 1,
        ensures
            drawn_below(seed, range, r),
    {
        let mut k: u128 = 128;
        while (1u128 << (k - 1)) > range
            invariant
                1 <= k <= 128,
                range >= 1,
                kept_bits(range, k as nat) == kept_bits(range, 128),
            decreases k,
        {
            proof {
                lemma_shl_one((k - 1) as u128);
                vstd::arithmetic::power2::lemma2_to64();
            }
            k = k - 1;
        }
        proof {
            lemma_shl_one((k - 1) as u128);
            assert(kept_bits(range, k as nat) == k);
        }
        let mut stream = seeded_stream(seed);
        let mut draws: u128 = 0;
        proof {
            lemma_small_mod(0, words_per_cycle());
        }
        while draws < 0x4_0000_0000_0000_0000
            invariant
                1 <= k <= 128,
                k == kept_bits(range, 128),
                draws <= draws_per_cycle(),
                stream@ == (seed, (2 * draws as nat) % words_per_cycle()),
                forall|j: nat| j < draws ==> #[trigger] candidate(seed, range, j) >= range,
            decreases draws_per_cycle() - draws,
        {
            proof {
                lemma_small_mod((2 * draws) as nat, words_per_cycle());
                lemma_small_mod((2 * draws + 1) as nat, words_per_cycle());
                lemma_small_mod(draws as nat, draws_per_cycle());
            }
            let hi = next_word(&mut stream);
            let lo = next_word(&mut stream);
            let mut raw: u128 = ((hi as u128) << 64) | (lo as u128);
            proof {
                lemma_words_combine(hi, lo);
                vstd::bits::lemma_u128_shr_is_div(raw, (128 - k) as u128);
            }
            raw = raw >> (128 - k);
            assert(raw == candidate(seed, range, draws as nat));
            if raw < range {
                assert(first_accepted(seed, range, draws as nat));
                return Some(raw);
            }
            draws = draws + 1;
        }
        proof {
            assert forall|j: nat| #[trigger] candidate(seed, range, j) >= range by {
                let c = j % draws_per_cycle();
                assert(c % draws_per_cycle() == c);
                assert(candidate(seed, range, c) >= range);
                assert(draw(seed, j) == draw(seed, c));
            }
        }
        None
    }

    /// The party that `random_value` designates: the first index whose
    /// running weight sum exceeds `random_value`.
    pub fn leader_for(weights: &Vec<u64>, random_value: u128) -> (index: u64)
        requires
            random_value < total_weight(weights@),
        ensures
            designates(weights@, random_value as int, index as int),
    {
        let n = weights.len();
        proof {
            lemma_total_weight_fits(weights@);
        }
        let mut cumulative_sum: u128 = 0;
        let mut index: usize = 0;
        while index < weights.len()
            invariant
                index <= weights.len(),
                random_value < total_weight(weights@),
                total_weight(weights@) <= u128::MAX,
                cumulative_sum == prefix_weight(weights@, index as int),
                forall|j: int| 0 <= j < index ==> random_value >= #[trigger] prefix_weight(weights@, j + 1),
            decreases weights.len() - index,
        {
            proof {
                lemma_prefix_weight_monotone(weights@, index + 1, weights@.len() as int);
            }
            cumulative_sum = cumulative_sum + weights[index] as u128;
            if random_value < cumulative_sum {
                return index as u64;
            }
            index = index + 1;
        }
        proof {
            if n > 0 {
                assert(random_value >= prefix_weight(weights@, (n - 1) + 1));
            }
        }
        vstd::pervasive::unreached()
    }

    /// Elects a leader from `seed` under `weights`: draws a number below the
    /// total weight from the ChaCha20 stream of `seed`, and returns the party
    /// it designates.
    pub fn elect_from_seed(weights: &Vec<u64>, seed: u64) -> (r: Result<u64, DefaultLeaderElectorError>)
        ensures
            seeded_election(weights@, seed, r),
    {
        let n = weights.len();
        proof {
            lemma_total_weight_fits(weights@);
        }
        let mut total_weight_sum: u128 = 0;
        let mut i: usize = 0;
        while i < weights.len()
            invariant
                i <= weights.len(),
                total_weight(weights@) <= u128::MAX,
                total_weight_sum == prefix_weight(weights@, i as int),
            decreases weights.len() - i,
        {
            proof {
                lemma_prefix_weight_monotone(weights@, i + 1, weights@.len() as int);
            }
            total_weight_sum = total_weight_sum + weights[i] as u128;
            i = i + 1;
        }
        if total_weight_sum == 0 {
            return Err(DefaultLeaderElectorError::ZeroWeightSum);
        }
        match Self::hash_to_range(seed, total_weight_sum) {
            Some(random_value) => {
                let leader = Self::leader_for(weights, random_value);
                let elected: Result<u64, DefaultLeaderElectorError> = Ok(leader);
                proof {
                    assert(total_weight(weights@) as u128 == total_weight_sum);
                    let d = choose|d: nat|
                        {
                            &&& #[trigger] first_accepted(seed, total_weight_sum, d)
                            &&& random_value == candidate(seed, total_weight_sum, d)
                        };
                    assert(elected->Ok_0 == leader);
                    assert(first_accepted(seed, total_weight_sum, d) && designates(
                        weights@,
                        candidate(seed, total_weight_sum, d) as int,
                        elected->Ok_0 as int,
                    ));
                }
                elected
            },
            None => Err(DefaultLeaderElectorError::DrawsExhausted),
        }
    }

    /// Elects a leader for `ballot` under the weights and threshold of a
    /// configuration: a party drawn at random with probability proportional
    /// to its weight, from a seed that hashes the weights, the threshold and
    /// the ballot number.
    pub fn elect(weights: &Vec<u64>, threshold: u128, ballot: u64) -> (r: Result<
        u64,
        DefaultLeaderElectorError,
    >)
        ensures
            exists|seed: u64|
                seed_of_config(weights@, threshold, ballot, seed) && #[trigger] seeded_election(
                    weights@,
                    seed,
                    r,
                ),
            total_weight(weights@) == 0 ==> r == Err::<u64, DefaultLeaderElectorError>(
                DefaultLeaderElectorError::ZeroWeightSum,
            ),
            r matches Err(e) ==> total_weight(weights@) == 0 || e is DrawsExhausted,
            r is Ok ==> exists|random_value: int|
                #[trigger] drawn_leader(weights@, random_value, r->Ok_0 as int),
            r matches Ok(leader) ==> leader < weights@.len() && weights@[leader as int] > 0,
    {
        let seed = Self::compute_seed(weights, threshold, ballot);
        let r = Self::elect_from_seed(weights, seed);
        let n = weights.len();
        proof {
            assert(seed_of_config(weights@, threshold, ballot, seed) && seeded_election(weights@, seed, r));
            lemma_seeded_election_facts(weights@, seed, r);
            if let Ok(leader) = r {
                let x = choose|x: int| #[trigger] drawn_leader(weights@, x, r->Ok_0 as int);
                lemma_designated_party_has_weight(weights@, x, leader as int);
            }
        }
        r
    }
}

/// The default leader elector: weighted random election from a seed that
/// the configuration and the ballot number determine.
#[derive(Clone, Debug)]
pub struct DefaultLeaderElector {}

impl Default for DefaultLeaderElector {
    fn default() -> (elector: Self)
        ensures
            elector == (DefaultLeaderElector {  }),
    {
        DefaultLeaderElector::new()
    }
}

impl<V: Value, VS: ValueSelector<V>> LeaderElector<V, VS> for DefaultLeaderElector {
    /// Elects the leader of `party`'s current ballot under its configuration;
    /// the error is described in words.
    fn elect_leader(&self, party: &Party<V, VS>) -> (r: Result<u64, String>)
        ensures
            exists|seed: u64, outcome: Result<u64, DefaultLeaderElectorError>|
                {
                    &&& seed_of_config(
                        party.cfg.party_weights@,
                        party.cfg.threshold,
                        party.ballot,
                        seed,
                    )
                    &&& #[trigger] seeded_election(party.cfg.party_weights@, seed, outcome)
                    &&& reported_election(outcome, r)
                },
            r matches Ok(leader) ==> leader < party.cfg.party_weights@.len()
                && party.cfg.party_weights@[leader as int] > 0,
            total_weight(party.cfg.party_weights@) == 0 ==> (r matches Err(s) && s@
                == "zero weight sum"@),
            r matches Err(s) ==> (total_weight(party.cfg.party_weights@) == 0 && s@
                == "zero weight sum"@) || s@ == "random draws exhausted"@,
            r is Ok ==> exists|random_value: int|
                #[trigger] drawn_leader(party.cfg.party_weights@, random_value, r->Ok_0 as int),
    {
        let outcome = DefaultLeaderElector::elect(
            &party.cfg.party_weights,
            party.cfg.threshold,
            party.ballot,
        );
        let ghost seed = choose|seed: u64|
            seed_of_config(party.cfg.party_weights@, party.cfg.threshold, party.ballot, seed)
                && #[trigger] seeded_election(party.cfg.party_weights@, seed, outcome);
        let r = match outcome {
            Ok(leader) => {
                assert(outcome->Ok_0 == leader);
                let elected: Result<u64, String> = Ok(leader);
                assert(elected->Ok_0 == leader);
                assert(exists|x: int|
                    #[trigger] drawn_leader(party.cfg.party_weights@, x, elected->Ok_0 as int));
                elected
            },
            Err(e) => Err(e.describe()),
        };
        assert(seed_of_config(party.cfg.party_weights@, party.cfg.threshold, party.ballot, seed)
            && seeded_election(party.cfg.party_weights@, seed, outcome) && reported_election(
            outcome,
            r,
        ));
        r
    }
}

} // verus!
