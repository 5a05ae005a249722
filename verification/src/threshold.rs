//! The bound below which a VRF output claims a primary slot.
use vstd::arithmetic::power2::pow2;
use vstd::prelude::*;

use crate::bigint::{power_of_two, product, quotient, to_u128};
use crate::bytes::be_nat;

verus! {

/// The probability that an authority may claim a slot as a primary slot: a fraction, whose
/// numerator and denominator are written as big-endian bytes.
#[derive(Clone, Debug, PartialEq, Eq)]
pub struct ClaimProbability {
    /// Numerator.
    pub numerator: Vec<u8>,
    /// Denominator.
    pub denominator: Vec<u8>,
}

impl ClaimProbability {
    /// The fraction is defined and below one.
    pub open spec fn is_proper(self) -> bool {
        be_nat(self.numerator@) < be_nat(self.denominator@)
    }

    /// The fraction is at most another one.
    pub open spec fn is_at_most(self, other: ClaimProbability) -> bool {
        be_nat(self.numerator@) * be_nat(other.denominator@) <= be_nat(other.numerator@) * be_nat(
            self.denominator@,
        )
    }

    /// How many of the `2^128` values that a VRF draws from make up that share of them, rounded
    /// down.
    pub open spec fn share(self) -> nat {
        (pow2(128) * be_nat(self.numerator@)) / be_nat(self.denominator@)
    }
}

/// The sum of some weights.
pub open spec fn total_weight(weights: Seq<u64>) -> nat
    decreases weights.len(),
{
    if weights.len() == 0 {
        0
    } else {
        total_weight(weights.drop_last()) + weights.last() as nat
    }
}

/// `claim_probability` can be asked about these odds, and answers with a proper fraction.
pub open spec fn gives_probability<F: Fn((u64, u64), u64, u64) -> ClaimProbability>(
    claim_probability: F,
    c: (u64, u64),
    authority_weight: u64,
    total: u64,
) -> bool {
    &&& call_requires(claim_probability, (c, authority_weight, total))
    &&& forall|probability: ClaimProbability|
        #![trigger probability.is_proper()]
        call_ensures(claim_probability, (c, authority_weight, total), probability)
            ==> probability.is_proper()
}

/// What [`calculate_primary_threshold`] needs of its arguments.
pub open spec fn threshold_is_defined<F: Fn((u64, u64), u64, u64) -> ClaimProbability>(
    c: (u64, u64),
    authorities_weights: Seq<u64>,
    authority_weight: u64,
    claim_probability: F,
) -> bool {
    &&& authorities_weights.len() != 0
    &&& authority_weight != 0
    &&& c.1 != 0
    &&& total_weight(authorities_weights) <= u64::MAX
    &&& gives_probability(
        claim_probability,
        c,
        authority_weight,
        total_weight(authorities_weights) as u64,
    )
}

/// `threshold` is the share that belongs to an answer of `claim_probability`.
pub open spec fn is_primary_threshold<F: Fn((u64, u64), u64, u64) -> ClaimProbability>(
    c: (u64, u64),
    authorities_weights: Seq<u64>,
    authority_weight: u64,
    claim_probability: F,
    threshold: u128,
) -> bool {
    exists|probability: ClaimProbability|
        #![trigger probability.share()]
        {
            &&& call_ensures(
                claim_probability,
                (c, authority_weight, total_weight(authorities_weights) as u64),
                probability,
            )
            &&& threshold == probability.share()
        }
}

/// Whenever `claim_probability` is asked about these odds, its answers come to the same share.
pub open spec fn is_consistent<F: Fn((u64, u64), u64, u64) -> ClaimProbability>(
    claim_probability: F,
    c: (u64, u64),
    authority_weight: u64,
    total: u64,
) -> bool {
    forall|one: ClaimProbability, other: ClaimProbability|
        #![trigger call_ensures(claim_probability, (c, authority_weight, total), one),
            call_ensures(claim_probability, (c, authority_weight, total), other)]
        call_ensures(claim_probability, (c, authority_weight, total), one) && call_ensures(
            claim_probability,
            (c, authority_weight, total),
            other,
        ) ==> one.share() == other.share()
}

/// With these `c` and total weight, `claim_probability` never gives a heavier authority the lower
/// probability.
pub open spec fn follows_weight<F: Fn((u64, u64), u64, u64) -> ClaimProbability>(
    claim_probability: F,
    c: (u64, u64),
    total: u64,
) -> bool {
    forall|lighter: u64, heavier: u64, less: ClaimProbability, more: ClaimProbability|
        #![trigger call_ensures(claim_probability, (c, lighter, total), less),
            call_ensures(claim_probability, (c, heavier, total), more)]
        0 < lighter <= heavier <= total && call_ensures(
            claim_probability,
            (c, lighter, total),
            less,
        ) && call_ensures(claim_probability, (c, heavier, total), more) ==> less.is_at_most(more)
}

/// Adds some weights up, unless the sum is too large.
pub fn sum_weights(weights: &Vec<u64>) -> (total: Option<u64>)
    ensures
        total == (if total_weight(weights@) <= u64::MAX {
            Some(total_weight(weights@) as u64)
        } else {
            None
        }),
{
    let mut total: u64 = 0;
    for i in 0usize..weights.len()
        invariant
            total == total_weight(weights@.take(i as int)),
    {
        assert(weights@.take(i + 1).drop_last() =~= weights@.take(i as int));
        proof {
            lemma_total_weight_of_prefix(weights@, i + 1);
        }
        match total.checked_add(weights[i]) {
            Some(sum) => {
                total = sum;
            },
            None => {
                return None;
            },
        }
    }
    assert(weights@.take(weights@.len() as int) =~= weights@);
    Some(total)
}

proof fn lemma_total_weight_of_prefix(weights: Seq<u64>, len: int)
    requires
        0 <= len <= weights.len(),
    ensures
        total_weight(weights.take(len)) <= total_weight(weights),
    decreases weights.len(),
{
    if len < weights.len() {
        lemma_total_weight_of_prefix(weights.drop_last(), len);
        assert(weights.drop_last().take(len) =~= weights.take(len));
    } else {
        assert(weights.take(len) =~= weights);
    }
}

/// Calculates the primary selection threshold for a given authority, taking
/// into account `c` (`1 - c` represents the probability of a slot being empty).
///
/// The value of `c` can be found in the current Babe configuration.
///
/// `authorities_weights` must be the list of all weights of all autorities.
/// `authority_weight` must be the weight of the authority whose threshold to calculate.
/// `claim_probability` is given `c`, that weight and the sum of all weights. It must return
/// `1 - (1 - c)^(weight / sum)`.
pub fn calculate_primary_threshold<F: Fn((u64, u64), u64, u64) -> ClaimProbability>(
    c: (u64, u64),
    authorities_weights: &Vec<u64>,
    authority_weight: u64,
    claim_probability: &F,
) -> (threshold: u128)
    requires
        threshold_is_defined(c, authorities_weights@, authority_weight, *claim_probability),
    ensures
        is_primary_threshold(
            c,
            authorities_weights@,
            authority_weight,
            *claim_probability,
            threshold,
        ),
{
    let total = sum_weights(authorities_weights).unwrap();
    let probability = claim_probability(c, authority_weight, total);
    assert(probability.is_proper());
    scale_probability(&probability)
}

/// Scales a probability to the range of values that a VRF draws from.
pub fn scale_probability(probability: &ClaimProbability) -> (threshold: u128)
    requires
        probability.is_proper(),
    ensures
        threshold == probability.share(),
{
    let scaled = product(power_of_two(128).as_slice(), probability.numerator.as_slice());
    let share = quotient(scaled.as_slice(), probability.denominator.as_slice());
    proof {
        lemma_share_fits(*probability);
    }
    to_u128(share.as_slice()).unwrap()
}

proof fn lemma_share_fits(probability: ClaimProbability)
    requires
        probability.is_proper(),
    ensures
        probability.share() < pow2(128),
        pow2(128) == u128::MAX + 1,
{
    let values = pow2(128) as int;
    let numerator = be_nat(probability.numerator@) as int;
    let denominator = be_nat(probability.denominator@) as int;
    vstd::arithmetic::power2::lemma_pow2_pos(128);
    assert(values * numerator < denominator * values) by (nonlinear_arith)
        requires
            0 <= numerator < denominator,
            values > 0,
    ;
    vstd::arithmetic::div_mod::lemma_multiply_divide_lt(values * numerator, denominator, values);
    vstd::arithmetic::power2::lemma_pow2_adds(64, 64);
    vstd::arithmetic::power2::lemma2_to64();
    assert(pow2(128) == 0x1_0000_0000_0000_0000 * 0x1_0000_0000_0000_0000);
}

/// The threshold is the probability, scaled to `2^128` and rounded down: a value drawn evenly from
/// `2^128` ones is below it as often as the probability says, to within one value.
pub proof fn law_threshold_matches_probability(probability: ClaimProbability)
    requires
        probability.is_proper(),
    ensures
        probability.share() < pow2(128),
        probability.share() * be_nat(probability.denominator@) <= pow2(128) * be_nat(
            probability.numerator@,
        ),
        pow2(128) * be_nat(probability.numerator@) < (probability.share() + 1) * be_nat(
            probability.denominator@,
        ),
{
    lemma_share_fits(probability);
    let scaled = (pow2(128) * be_nat(probability.numerator@)) as int;
    let denominator = be_nat(probability.denominator@) as int;
    let share = scaled / denominator;
    vstd::arithmetic::div_mod::lemma_fundamental_div_mod(scaled, denominator);
    assert(denominator * share == share * denominator) by (nonlinear_arith);
    assert((share + 1) * denominator == share * denominator + denominator) by (nonlinear_arith);
}

/// A likelier claim never has the lower threshold.
pub proof fn law_threshold_follows_probability(less: ClaimProbability, more: ClaimProbability)
    requires
        less.is_proper(),
        more.is_proper(),
        less.is_at_most(more),
    ensures
        less.share() <= more.share(),
{
    let values = pow2(128) as int;
    let (n1, d1) = (be_nat(less.numerator@) as int, be_nat(less.denominator@) as int);
    let (n2, d2) = (be_nat(more.numerator@) as int, be_nat(more.denominator@) as int);
    let (s1, s2) = (less.share() as int, more.share() as int);
    law_threshold_matches_probability(less);
    law_threshold_matches_probability(more);
    if s1 > s2 {
        assert(false) by (nonlinear_arith)
            requires
                s1 >= s2 + 1,
                values > 0,
                d1 > 0,
                d2 > 0,
                n1 * d2 <= n2 * d1,
                s1 * d1 <= values * n1,
                values * n2 < (s2 + 1) * d2,
        {
            assert(s1 * d1 * d2 <= values * n1 * d2);
            assert(values * (n1 * d2) <= values * (n2 * d1));
            assert(values * n2 * d1 < (s2 + 1) * d2 * d1);
            assert((s2 + 1) * (d2 * d1) <= s1 * (d2 * d1));
        }
    }
}

/// Of the weights of all authorities only the sum counts, not how many there are nor their order.
pub proof fn law_only_total_weight_counts<F: Fn((u64, u64), u64, u64) -> ClaimProbability>(
    c: (u64, u64),
    some_weights: Seq<u64>,
    other_weights: Seq<u64>,
    authority_weight: u64,
    claim_probability: F,
    threshold: u128,
)
    requires
        some_weights.len() != 0,
        other_weights.len() != 0,
        total_weight(some_weights) == total_weight(other_weights),
    ensures
        threshold_is_defined(c, some_weights, authority_weight, claim_probability)
            <==> threshold_is_defined(c, other_weights, authority_weight, claim_probability),
        is_primary_threshold(c, some_weights, authority_weight, claim_probability, threshold)
            <==> is_primary_threshold(
            c,
            other_weights,
            authority_weight,
            claim_probability,
            threshold,
        ),
{
}

/// An authority has one threshold, whatever weights the sum is made of, if `claim_probability`
/// answers the same whenever it is asked about its odds.
pub proof fn law_threshold_is_determined<F: Fn((u64, u64), u64, u64) -> ClaimProbability>(
    c: (u64, u64),
    some_weights: Seq<u64>,
    other_weights: Seq<u64>,
    authority_weight: u64,
    claim_probability: F,
    one: u128,
    other: u128,
)
    requires
        total_weight(some_weights) == total_weight(other_weights),
        is_consistent(
            claim_probability,
            c,
            authority_weight,
            total_weight(some_weights) as u64,
        ),
        is_primary_threshold(c, some_weights, authority_weight, claim_probability, one),
        is_primary_threshold(c, other_weights, authority_weight, claim_probability, other),
    ensures
        one == other,
{
}

/// A heavier authority never has the lower threshold, and none has a higher one than an authority
/// that holds all the weight would, if `claim_probability` never gives a heavier authority the
/// lower probability.
pub proof fn law_threshold_follows_weight<F: Fn((u64, u64), u64, u64) -> ClaimProbability>(
    c: (u64, u64),
    weights: Seq<u64>,
    lighter: u64,
    heavier: u64,
    claim_probability: F,
    lower: u128,
    higher: u128,
)
    requires
        lighter <= heavier <= total_weight(weights),
        threshold_is_defined(c, weights, lighter, claim_probability),
        threshold_is_defined(c, weights, heavier, claim_probability),
        follows_weight(claim_probability, c, total_weight(weights) as u64),
        is_primary_threshold(c, weights, lighter, claim_probability, lower),
        is_primary_threshold(c, weights, heavier, claim_probability, higher),
    ensures
        lower <= higher,
{
    let total = total_weight(weights) as u64;
    let less = choose|probability: ClaimProbability|
        #![trigger probability.share()]
        call_ensures(claim_probability, (c, lighter, total), probability) && lower
            == probability.share();
    let more = choose|probability: ClaimProbability|
        #![trigger probability.share()]
        call_ensures(claim_probability, (c, heavier, total), probability) && higher
            == probability.share();
    assert(less.is_proper() && more.is_proper());
    law_threshold_follows_probability(less, more);
}

/// The total weight of two lists together is the sum of theirs, and that of a single weight is
/// that weight. No weight is passed over, however many there are.
pub proof fn law_total_weight_is_additive(some: Seq<u64>, more: Seq<u64>, weight: u64)
    ensures
        total_weight(some + more) == total_weight(some) + total_weight(more),
        total_weight(seq![weight]) == weight,
        total_weight(Seq::empty()) == 0,
    decreases more.len(),
{
    assert(total_weight(seq![weight].drop_last()) == 0);
    if more.len() == 0 {
        assert(some + more =~= some);
    } else {
        law_total_weight_is_additive(some, more.drop_last(), weight);
        assert((some + more).drop_last() =~= some + more.drop_last());
    }
}

/// Authorities that all have the same weight have as many times that weight together.
pub proof fn law_total_of_equal_weights(weights: Seq<u64>, weight: u64)
    requires
        forall|i: int| 0 <= i < weights.len() ==> weights[i] == weight,
    ensures
        total_weight(weights) == weights.len() * weight,
    decreases weights.len(),
{
    if weights.len() != 0 {
        let rest = weights.drop_last();
        law_total_of_equal_weights(rest, weight);
        law_total_weight_is_additive(rest, seq![weights.last()], weight);
        assert(weights =~= rest + seq![weights.last()]);
        assert(weights.len() * weight == rest.len() * weight + weight) by (nonlinear_arith)
            requires
                weights.len() == rest.len() + 1,
        ;
    }
}

/// The threshold of an authority is the largest number that makes up no more of `2^128` than an
/// answer of `claim_probability` about `c`, its weight and the sum of all weights.
pub proof fn law_threshold_is_share_of_answer<F: Fn((u64, u64), u64, u64) -> ClaimProbability>(
    c: (u64, u64),
    weights: Seq<u64>,
    authority_weight: u64,
    claim_probability: F,
    threshold: u128,
)
    requires
        forall|answer: ClaimProbability|
            #![trigger be_nat(answer.numerator@)]
            call_ensures(
                claim_probability,
                (c, authority_weight, total_weight(weights) as u64),
                answer,
            ) ==> be_nat(answer.numerator@) < be_nat(answer.denominator@),
        is_primary_threshold(c, weights, authority_weight, claim_probability, threshold),
    ensures
        exists|answer: ClaimProbability|
            #![trigger be_nat(answer.numerator@)]
            call_ensures(
                claim_probability,
                (c, authority_weight, total_weight(weights) as u64),
                answer,
            ) && threshold * be_nat(answer.denominator@) <= pow2(128) * be_nat(answer.numerator@) < (
            threshold + 1) * be_nat(answer.denominator@),
{
    let total = total_weight(weights) as u64;
    let answer = choose|probability: ClaimProbability|
        #![trigger probability.share()]
        call_ensures(claim_probability, (c, authority_weight, total), probability) && threshold
            == probability.share();
    assert(call_ensures(claim_probability, (c, authority_weight, total), answer));
    law_threshold_matches_probability(answer);
}

/// There is a threshold wherever there are authorities, the author has some weight, `c` is a
/// fraction, the weights add up in 64 bits, and `claim_probability` can be asked and answers with
/// a fraction below one.
pub proof fn law_threshold_is_defined<F: Fn((u64, u64), u64, u64) -> ClaimProbability>(
    c: (u64, u64),
    weights: Seq<u64>,
    authority_weight: u64,
    claim_probability: F,
)
    ensures
        threshold_is_defined(c, weights, authority_weight, claim_probability) <==> {
            &&& weights.len() != 0
            &&& authority_weight != 0
            &&& c.1 != 0
            &&& total_weight(weights) <= u64::MAX
            &&& call_requires(
                claim_probability,
                (c, authority_weight, total_weight(weights) as u64),
            )
            &&& forall|answer: ClaimProbability|
                #![trigger be_nat(answer.numerator@)]
                call_ensures(
                    claim_probability,
                    (c, authority_weight, total_weight(weights) as u64),
                    answer,
                ) ==> be_nat(answer.numerator@) < be_nat(answer.denominator@)
        },
{
    let total = total_weight(weights) as u64;
    if threshold_is_defined(c, weights, authority_weight, claim_probability) {
        assert forall|answer: ClaimProbability|
            #![trigger be_nat(answer.numerator@)]
            call_ensures(claim_probability, (c, authority_weight, total), answer) implies be_nat(
            answer.numerator@,
        ) < be_nat(answer.denominator@) by {
            assert(answer.is_proper());
        }
    }
}

} // verus!
