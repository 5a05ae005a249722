//! When a slot claim is accepted, and what it is refused for.
//!
//! The laws here speak of what a block and the information about its epoch hold, of what the
//! signature and the VRF of the author prove, and of nothing in between. The messages that a VRF is
//! run on, and the bytes that are hashed to assign a slot, are any that spell the numbers in
//! question.
use vstd::arithmetic::power2::pow2;
use vstd::prelude::*;

use crate::blake2::blake2b_hash;
use crate::bytes::{be_nat, law_le_bytes_spell_u64, le_bytes, le_nat};
use crate::header::{BabeAllowedSlots, BabeNextConfig, BabeNextEpoch};
use crate::pending::{
    always_gives_probability, assigned_authority, assignment_hash, conclusion,
    lemma_can_finish_with, slot_type_is_allowed, vrf_messages, weights_of, PendingState,
    VerifyError, VerifySuccess, EPOCH_LABEL, RANDOMNESS_LABEL, SEAL_CONTEXT, SLOT_LABEL,
    VRF_CONTEXT, VRF_TRANSCRIPT,
};
use crate::schnorr::{
    domain_separator, public_key_decodes, signature_verifies, vrf_bytes, vrf_proof_decodes,
};
use crate::threshold::{law_threshold_is_share_of_answer, total_weight, ClaimProbability};

verus! {

/// The messages that a VRF is run on spell the whole slot number and the whole epoch number, and
/// hold the randomness. No two slots, epochs or randomness values have the same messages.
pub proof fn law_vrf_messages_tell_slots_apart(
    slot_number: u64,
    epoch_number: u64,
    randomness: Seq<u8>,
    other_slot_number: u64,
    other_epoch_number: u64,
    other_randomness: Seq<u8>,
)
    ensures
        ({
            let messages = vrf_messages(slot_number, epoch_number, randomness);
            &&& messages.len() == 4
            &&& le_nat(messages[1].1) == slot_number
            &&& le_nat(messages[2].1) == epoch_number
            &&& messages[3].1 == randomness
        }),
        vrf_messages(slot_number, epoch_number, randomness) == vrf_messages(
            other_slot_number,
            other_epoch_number,
            other_randomness,
        ) <==> {
            &&& slot_number == other_slot_number
            &&& epoch_number == other_epoch_number
            &&& randomness == other_randomness
        },
{
    law_le_bytes_spell_u64(slot_number, le_bytes(slot_number as nat, 8));
    law_le_bytes_spell_u64(epoch_number, le_bytes(epoch_number as nat, 8));
    law_le_bytes_spell_u64(other_slot_number, le_bytes(other_slot_number as nat, 8));
    law_le_bytes_spell_u64(other_epoch_number, le_bytes(other_epoch_number as nat, 8));
    let messages = vrf_messages(slot_number, epoch_number, randomness);
    let others = vrf_messages(other_slot_number, other_epoch_number, other_randomness);
    if messages == others {
        assert(messages[1].1 == others[1].1);
        assert(messages[2].1 == others[2].1);
        assert(messages[3].1 == others[3].1);
    }
}

/// Four labelled messages that spell the slot number and the epoch number in eight bytes each and
/// hold the randomness are those that the VRF is run on.
pub proof fn law_vrf_messages_are_spelled(
    slot_number: u64,
    epoch_number: u64,
    randomness: Seq<u8>,
    messages: Seq<(Seq<u8>, Seq<u8>)>,
)
    requires
        messages.len() == 4,
        messages[0] == (domain_separator(), VRF_TRANSCRIPT@),
        messages[1].0 == SLOT_LABEL@,
        messages[1].1.len() == 8,
        le_nat(messages[1].1) == slot_number,
        messages[2].0 == EPOCH_LABEL@,
        messages[2].1.len() == 8,
        le_nat(messages[2].1) == epoch_number,
        messages[3] == (RANDOMNESS_LABEL@, randomness),
    ensures
        vrf_messages(slot_number, epoch_number, randomness) == messages,
{
    law_le_bytes_spell_u64(slot_number, messages[1].1);
    law_le_bytes_spell_u64(epoch_number, messages[2].1);
    assert(messages =~= vrf_messages(slot_number, epoch_number, randomness));
}

/// A slot is assigned by the hash of the randomness and, after it, the eight bytes that spell the
/// whole slot number.
pub proof fn law_assignment_hash_is_spelled(
    randomness: Seq<u8>,
    slot_number: u64,
    slot_bytes: Seq<u8>,
)
    requires
        slot_bytes.len() == 8,
        le_nat(slot_bytes) == slot_number,
    ensures
        assignment_hash(randomness, slot_number) == blake2b_hash(32, randomness + slot_bytes),
{
    law_le_bytes_spell_u64(slot_number, slot_bytes);
}

/// The index of the authority that a slot is assigned to is below the number of authorities, and
/// the whole hash differs from it by a multiple of that number. There is one such index.
pub proof fn law_assigned_authority_is_congruent(slot_hash: Seq<u8>, authorities: nat, index: nat)
    requires
        authorities != 0,
    ensures
        assigned_authority(slot_hash, authorities) < authorities,
        exists|k: nat| #[trigger]
            (k * authorities) + assigned_authority(slot_hash, authorities) == be_nat(slot_hash),
        index < authorities && (exists|k: nat| #[trigger]
            (k * authorities) + index == be_nat(slot_hash)) ==> index == assigned_authority(
            slot_hash,
            authorities,
        ),
{
    let hash = be_nat(slot_hash) as int;
    let n = authorities as int;
    vstd::arithmetic::div_mod::lemma_fundamental_div_mod(hash, n);
    vstd::arithmetic::div_mod::lemma_mod_bound(hash, n);
    vstd::arithmetic::div_mod::lemma_div_pos_is_pos(hash, n);
    let k = (hash / n) as nat;
    assert(n * (hash / n) == k * authorities) by (nonlinear_arith)
        requires
            k == hash / n,
            n == authorities,
    ;
    assert((k * authorities) + assigned_authority(slot_hash, authorities) == be_nat(slot_hash));
    if index < authorities && (exists|k: nat| #[trigger]
        (k * authorities) + index == be_nat(slot_hash)) {
        let k = choose|k: nat| #[trigger] (k * authorities) + index == be_nat(slot_hash);
        assert(k * authorities == k as int * n);
        vstd::arithmetic::div_mod::lemma_fundamental_div_mod_converse(
            hash,
            n,
            k as int,
            index as int,
        );
    }
}

/// A verification concludes with success if and only if the claim is of an allowed type and by an
/// authority that exists, the seal is valid, what a VRF draws is proved and, for a primary claim,
/// below the threshold, and the slot is assigned to the author of a secondary claim. Success
/// reports the slot, the epoch and the described epoch of the block.
pub proof fn law_conclusion_needs_everything(
    pending: PendingState,
    authorities: nat,
    allowed_slots: BabeAllowedSlots,
    seal_is_valid: bool,
    drawn: Option<Seq<u8>>,
    threshold: u128,
    slot_hash: Seq<u8>,
)
    requires
        pending.primary_slot_claim ==> pending.vrf_output_and_proof is Some,
    ensures
        conclusion(
            pending,
            authorities,
            allowed_slots,
            seal_is_valid,
            drawn,
            threshold,
            slot_hash,
        ) is Ok <==> {
            &&& slot_type_is_allowed(
                allowed_slots,
                pending.primary_slot_claim,
                pending.vrf_output_and_proof is Some,
            )
            &&& pending.authority_index < authorities
            &&& seal_is_valid
            &&& pending.vrf_output_and_proof is Some ==> drawn is Some
            &&& pending.primary_slot_claim ==> le_nat(drawn.unwrap()) < threshold
            &&& !pending.primary_slot_claim ==> be_nat(slot_hash) % authorities
                == pending.authority_index
        },
        conclusion(
            pending,
            authorities,
            allowed_slots,
            seal_is_valid,
            drawn,
            threshold,
            slot_hash,
        ) matches Ok(success) ==> {
            &&& success.slot_number == pending.slot_number
            &&& success.epoch_number == pending.epoch_number
            &&& success.epoch_transition_target == pending.epoch_transition_target
        },
{
}

/// A verification that does not conclude with success tells the first thing that is wrong.
pub proof fn law_conclusion_tells_what_is_wrong(
    pending: PendingState,
    authorities: nat,
    allowed_slots: BabeAllowedSlots,
    seal_is_valid: bool,
    drawn: Option<Seq<u8>>,
    threshold: u128,
    slot_hash: Seq<u8>,
    error: VerifyError,
)
    requires
        pending.primary_slot_claim ==> pending.vrf_output_and_proof is Some,
        conclusion(
            pending,
            authorities,
            allowed_slots,
            seal_is_valid,
            drawn,
            threshold,
            slot_hash,
        ) == Err::<VerifySuccess, VerifyError>(error),
    ensures
        error == VerifyError::ForbiddenSlotType <==> !slot_type_is_allowed(
            allowed_slots,
            pending.primary_slot_claim,
            pending.vrf_output_and_proof is Some,
        ),
        error == VerifyError::ForbiddenSlotType || (error == VerifyError::InvalidAuthorityIndex
            <==> pending.authority_index >= authorities),
        error == VerifyError::ForbiddenSlotType || error == VerifyError::InvalidAuthorityIndex || (
        error == VerifyError::BadSignature <==> !seal_is_valid),
        error == VerifyError::BadVrfProof ==> pending.vrf_output_and_proof is Some && drawn is None,
        error == VerifyError::OverPrimaryClaimThreshold ==> pending.primary_slot_claim
            && drawn is Some && le_nat(drawn.unwrap()) >= threshold,
        error == VerifyError::BadSecondarySlotAuthor ==> !pending.primary_slot_claim && be_nat(
            slot_hash,
        ) % authorities != pending.authority_index && (pending.vrf_output_and_proof is Some
            ==> drawn is Some),
        error == VerifyError::ForbiddenSlotType || error == VerifyError::InvalidAuthorityIndex
            || error == VerifyError::BadSignature || error == VerifyError::BadVrfProof || error
            == VerifyError::OverPrimaryClaimThreshold || error
            == VerifyError::BadSecondarySlotAuthor,
{
}

/// A claim is refused for its type, before anything else, if and only if it is a secondary claim
/// and the configuration names another type of secondary claim, or none.
pub proof fn law_forbidden_claims<F: Fn((u64, u64), u64, u64) -> ClaimProbability>(
    pending: PendingState,
    epoch: BabeNextEpoch,
    config: BabeNextConfig,
    claim_probability: F,
    outcome: Result<VerifySuccess, VerifyError>,
)
    requires
        pending.is_outcome(epoch, config, claim_probability, outcome),
    ensures
        outcome == Err::<VerifySuccess, VerifyError>(VerifyError::ForbiddenSlotType) <==> {
            &&& !pending.primary_slot_claim
            &&& pending.vrf_output_and_proof is Some
                ==> !(config.allowed_slots is PrimaryAndSecondaryVRFSlots)
            &&& pending.vrf_output_and_proof is None
                ==> !(config.allowed_slots is PrimaryAndSecondaryPlainSlots)
        },
{
}

/// A claim of an allowed type is refused for its author if and only if the epoch has no authority
/// of that index.
pub proof fn law_unknown_authors<F: Fn((u64, u64), u64, u64) -> ClaimProbability>(
    pending: PendingState,
    epoch: BabeNextEpoch,
    config: BabeNextConfig,
    claim_probability: F,
    outcome: Result<VerifySuccess, VerifyError>,
)
    requires
        pending.is_outcome(epoch, config, claim_probability, outcome),
    ensures
        outcome == Err::<VerifySuccess, VerifyError>(VerifyError::InvalidAuthorityIndex) <==> {
            &&& slot_type_is_allowed(
                config.allowed_slots,
                pending.primary_slot_claim,
                pending.vrf_output_and_proof is Some,
            )
            &&& pending.authority_index >= epoch.authorities@.len()
        },
{
}

/// Whatever the type of the claim, an accepted block is sealed by the authority of its index: the
/// seal is that authority's signature on the hash of the header without it. An admissible claim
/// that is not so sealed is refused for its signature, and no other is.
pub proof fn law_seals<F: Fn((u64, u64), u64, u64) -> ClaimProbability>(
    pending: PendingState,
    epoch: BabeNextEpoch,
    config: BabeNextConfig,
    claim_probability: F,
    outcome: Result<VerifySuccess, VerifyError>,
)
    requires
        pending.is_outcome(epoch, config, claim_probability, outcome),
    ensures
        outcome is Ok ==> pending.authority_index < epoch.authorities@.len() && signature_verifies(
            epoch.authorities@[pending.authority_index as int].public_key@,
            SEAL_CONTEXT@,
            pending.pre_seal_hash,
            pending.seal_signature,
        ),
        outcome == Err::<VerifySuccess, VerifyError>(VerifyError::BadSignature) <==> {
            &&& slot_type_is_allowed(
                config.allowed_slots,
                pending.primary_slot_claim,
                pending.vrf_output_and_proof is Some,
            )
            &&& pending.authority_index < epoch.authorities@.len()
            &&& !signature_verifies(
                epoch.authorities@[pending.authority_index as int].public_key@,
                SEAL_CONTEXT@,
                pending.pre_seal_hash,
                pending.seal_signature,
            )
        },
{
}

/// Whatever the type of the claim, an accepted block that holds a VRF output holds a proof that it
/// is the author's for the slot, the epoch and the randomness. An admissible, well sealed claim
/// whose proof is not one is refused for it, and no other is.
pub proof fn law_vrf_proofs<F: Fn((u64, u64), u64, u64) -> ClaimProbability>(
    pending: PendingState,
    epoch: BabeNextEpoch,
    config: BabeNextConfig,
    claim_probability: F,
    outcome: Result<VerifySuccess, VerifyError>,
    output: Seq<u8>,
    proof_bytes: Seq<u8>,
    messages: Seq<(Seq<u8>, Seq<u8>)>,
)
    requires
        pending.is_outcome(epoch, config, claim_probability, outcome),
        pending.vrf_output_and_proof == Some((output, proof_bytes)),
        messages.len() == 4,
        messages[0] == (domain_separator(), VRF_TRANSCRIPT@),
        messages[1].0 == SLOT_LABEL@,
        messages[1].1.len() == 8,
        le_nat(messages[1].1) == pending.slot_number,
        messages[2].0 == EPOCH_LABEL@,
        messages[2].1.len() == 8,
        le_nat(messages[2].1) == pending.epoch_number,
        messages[3] == (RANDOMNESS_LABEL@, epoch.randomness@),
    ensures
        outcome is Ok ==> vrf_bytes(
            epoch.authorities@[pending.authority_index as int].public_key@,
            messages,
            output,
            proof_bytes,
            VRF_CONTEXT@,
        ) is Some,
        outcome == Err::<VerifySuccess, VerifyError>(VerifyError::BadVrfProof) <==> {
            &&& slot_type_is_allowed(config.allowed_slots, pending.primary_slot_claim, true)
            &&& pending.authority_index < epoch.authorities@.len()
            &&& signature_verifies(
                epoch.authorities@[pending.authority_index as int].public_key@,
                SEAL_CONTEXT@,
                pending.pre_seal_hash,
                pending.seal_signature,
            )
            &&& vrf_bytes(
                epoch.authorities@[pending.authority_index as int].public_key@,
                messages,
                output,
                proof_bytes,
                VRF_CONTEXT@,
            ) is None
        },
{
    law_vrf_messages_are_spelled(
        pending.slot_number,
        pending.epoch_number,
        epoch.randomness@,
        messages,
    );
}

/// A block without a VRF output is never refused for one.
pub proof fn law_no_vrf_no_proof<F: Fn((u64, u64), u64, u64) -> ClaimProbability>(
    pending: PendingState,
    epoch: BabeNextEpoch,
    config: BabeNextConfig,
    claim_probability: F,
    outcome: Result<VerifySuccess, VerifyError>,
)
    requires
        pending.is_outcome(epoch, config, claim_probability, outcome),
        pending.vrf_output_and_proof is None,
    ensures
        outcome != Err::<VerifySuccess, VerifyError>(VerifyError::BadVrfProof),
{
}

/// A primary claim with nothing else wrong is accepted if and only if the number that its VRF
/// draws, counted from one, makes up no more of `2^128` than an answer of `claim_probability` about
/// `c`, the author's weight and the sum of the weights of all authorities. It is refused for its
/// threshold otherwise.
pub proof fn law_primary_claims<F: Fn((u64, u64), u64, u64) -> ClaimProbability>(
    pending: PendingState,
    epoch: BabeNextEpoch,
    config: BabeNextConfig,
    claim_probability: F,
    outcome: Result<VerifySuccess, VerifyError>,
    output: Seq<u8>,
    proof_bytes: Seq<u8>,
    messages: Seq<(Seq<u8>, Seq<u8>)>,
    drawn: Seq<u8>,
    weights: Seq<u64>,
)
    requires
        pending.is_outcome(epoch, config, claim_probability, outcome),
        pending.primary_slot_claim,
        pending.vrf_output_and_proof == Some((output, proof_bytes)),
        messages.len() == 4,
        messages[0] == (domain_separator(), VRF_TRANSCRIPT@),
        messages[1].0 == SLOT_LABEL@,
        messages[1].1.len() == 8,
        le_nat(messages[1].1) == pending.slot_number,
        messages[2].0 == EPOCH_LABEL@,
        messages[2].1.len() == 8,
        le_nat(messages[2].1) == pending.epoch_number,
        messages[3] == (RANDOMNESS_LABEL@, epoch.randomness@),
        pending.authority_index < epoch.authorities@.len(),
        signature_verifies(
            epoch.authorities@[pending.authority_index as int].public_key@,
            SEAL_CONTEXT@,
            pending.pre_seal_hash,
            pending.seal_signature,
        ),
        vrf_bytes(
            epoch.authorities@[pending.authority_index as int].public_key@,
            messages,
            output,
            proof_bytes,
            VRF_CONTEXT@,
        ) == Some(drawn),
        weights.len() == epoch.authorities@.len(),
        forall|i: int|
            0 <= i < weights.len() ==> #[trigger] weights[i] == epoch.authorities@[i].weight,
        forall|answer: ClaimProbability|
            #![trigger be_nat(answer.numerator@)]
            call_ensures(
                claim_probability,
                (
                    config.c,
                    epoch.authorities@[pending.authority_index as int].weight,
                    total_weight(weights) as u64,
                ),
                answer,
            ) ==> be_nat(answer.numerator@) < be_nat(answer.denominator@),
    ensures
        exists|answer: ClaimProbability|
            #![trigger be_nat(answer.numerator@)]
            {
                &&& call_ensures(
                    claim_probability,
                    (
                        config.c,
                        epoch.authorities@[pending.authority_index as int].weight,
                        total_weight(weights) as u64,
                    ),
                    answer,
                )
                &&& outcome is Ok <==> (le_nat(drawn) + 1) * be_nat(answer.denominator@) <= pow2(
                    128,
                ) * be_nat(answer.numerator@)
            },
        outcome is Ok || outcome == Err::<VerifySuccess, VerifyError>(
            VerifyError::OverPrimaryClaimThreshold,
        ),
{
    law_vrf_messages_are_spelled(
        pending.slot_number,
        pending.epoch_number,
        epoch.randomness@,
        messages,
    );
    assert(weights =~= weights_of(epoch.authorities@));
    let threshold = choose|threshold: u128|
        pending.has_threshold(epoch, config, claim_probability, threshold) && outcome
            == #[trigger] pending.outcome(epoch, config, threshold);
    let weight = epoch.authorities@[pending.authority_index as int].weight;
    let total = total_weight(weights) as u64;
    law_threshold_is_share_of_answer(config.c, weights, weight, claim_probability, threshold);
    let answer = choose|answer: ClaimProbability|
        #![trigger be_nat(answer.numerator@)]
        call_ensures(claim_probability, (config.c, weight, total), answer) && threshold * be_nat(
            answer.denominator@,
        ) <= pow2(128) * be_nat(answer.numerator@) < (threshold + 1) * be_nat(answer.denominator@);
    let denominator = be_nat(answer.denominator@) as int;
    let scaled = (pow2(128) * be_nat(answer.numerator@)) as int;
    let number = le_nat(drawn) as int;
    let t = threshold as int;
    assert(number < t <==> (number + 1) * denominator <= scaled) by (nonlinear_arith)
        requires
            t * denominator <= scaled < (t + 1) * denominator,
            denominator > 0,
            number >= 0,
    ;
    assert(be_nat(answer.numerator@) < be_nat(answer.denominator@));
}

/// A claim is refused for its threshold only if it is a primary one, and for another author being
/// expected only if it is a secondary one.
pub proof fn law_refusals_fit_claims<F: Fn((u64, u64), u64, u64) -> ClaimProbability>(
    pending: PendingState,
    epoch: BabeNextEpoch,
    config: BabeNextConfig,
    claim_probability: F,
    outcome: Result<VerifySuccess, VerifyError>,
)
    requires
        pending.primary_slot_claim ==> pending.vrf_output_and_proof is Some,
        pending.is_outcome(epoch, config, claim_probability, outcome),
    ensures
        outcome == Err::<VerifySuccess, VerifyError>(VerifyError::OverPrimaryClaimThreshold)
            ==> pending.primary_slot_claim,
        outcome == Err::<VerifySuccess, VerifyError>(VerifyError::BadSecondarySlotAuthor)
            ==> !pending.primary_slot_claim,
        outcome matches Err(error) ==> {
            ||| error == VerifyError::ForbiddenSlotType
            ||| error == VerifyError::InvalidAuthorityIndex
            ||| error == VerifyError::BadSignature
            ||| error == VerifyError::BadVrfProof
            ||| error == VerifyError::OverPrimaryClaimThreshold
            ||| error == VerifyError::BadSecondarySlotAuthor
        },
{
}

/// A secondary claim that is not refused for its type, its author's index, its seal or its VRF is
/// accepted if and only if the whole hash of the randomness and the slot number, read with the most
/// significant byte first, leaves the author's index when divided by the number of authorities. It
/// is refused for its author otherwise.
pub proof fn law_secondary_claims<F: Fn((u64, u64), u64, u64) -> ClaimProbability>(
    pending: PendingState,
    epoch: BabeNextEpoch,
    config: BabeNextConfig,
    claim_probability: F,
    outcome: Result<VerifySuccess, VerifyError>,
    slot_bytes: Seq<u8>,
)
    requires
        pending.is_outcome(epoch, config, claim_probability, outcome),
        !pending.primary_slot_claim,
        slot_bytes.len() == 8,
        le_nat(slot_bytes) == pending.slot_number,
        outcome != Err::<VerifySuccess, VerifyError>(VerifyError::ForbiddenSlotType),
        outcome != Err::<VerifySuccess, VerifyError>(VerifyError::InvalidAuthorityIndex),
        outcome != Err::<VerifySuccess, VerifyError>(VerifyError::BadSignature),
        outcome != Err::<VerifySuccess, VerifyError>(VerifyError::BadVrfProof),
    ensures
        outcome is Ok <==> be_nat(blake2b_hash(32, epoch.randomness@ + slot_bytes))
            % epoch.authorities@.len() == pending.authority_index,
        outcome is Ok || outcome == Err::<VerifySuccess, VerifyError>(
            VerifyError::BadSecondarySlotAuthor,
        ),
{
    law_assignment_hash_is_spelled(epoch.randomness@, pending.slot_number, slot_bytes);
}

/// What is reported of an accepted block is its slot, its epoch and the epoch it describes.
pub proof fn law_success_reports_block<F: Fn((u64, u64), u64, u64) -> ClaimProbability>(
    pending: PendingState,
    epoch: BabeNextEpoch,
    config: BabeNextConfig,
    claim_probability: F,
    success: VerifySuccess,
)
    requires
        pending.is_outcome(epoch, config, claim_probability, Ok(success)),
    ensures
        success.slot_number == pending.slot_number,
        success.epoch_number == pending.epoch_number,
        success.epoch_transition_target == pending.epoch_transition_target,
{
}

/// The information about an epoch is good enough to finish a verification with if and only if
///
/// - the public key of the author is one, should the claim be admissible;
/// - the VRF proof can be read, should the claim be well sealed too;
/// - the author has weight, `c` is below one and the weights add up in 64 bits, should a primary
///   claim then have a correct proof.
pub proof fn law_good_enough_information(
    pending: PendingState,
    epoch: BabeNextEpoch,
    config: BabeNextConfig,
    messages: Seq<(Seq<u8>, Seq<u8>)>,
    weights: Seq<u64>,
)
    requires
        messages.len() == 4,
        messages[0] == (domain_separator(), VRF_TRANSCRIPT@),
        messages[1].0 == SLOT_LABEL@,
        messages[1].1.len() == 8,
        le_nat(messages[1].1) == pending.slot_number,
        messages[2].0 == EPOCH_LABEL@,
        messages[2].1.len() == 8,
        le_nat(messages[2].1) == pending.epoch_number,
        messages[3] == (RANDOMNESS_LABEL@, epoch.randomness@),
        weights.len() == epoch.authorities@.len(),
        forall|i: int|
            0 <= i < weights.len() ==> #[trigger] weights[i] == epoch.authorities@[i].weight,
    ensures
        pending.can_finish(epoch, config) <==> (slot_type_is_allowed(
            config.allowed_slots,
            pending.primary_slot_claim,
            pending.vrf_output_and_proof is Some,
        ) && pending.authority_index < epoch.authorities@.len() ==> {
            let author = epoch.authorities@[pending.authority_index as int];
            &&& public_key_decodes(author.public_key@)
            &&& signature_verifies(
                author.public_key@,
                SEAL_CONTEXT@,
                pending.pre_seal_hash,
                pending.seal_signature,
            ) ==> (pending.vrf_output_and_proof matches Some((output, proof_bytes)) ==> {
                &&& vrf_proof_decodes(proof_bytes)
                &&& pending.primary_slot_claim && vrf_bytes(
                    author.public_key@,
                    messages,
                    output,
                    proof_bytes,
                    VRF_CONTEXT@,
                ) is Some ==> {
                    &&& author.weight != 0
                    &&& config.c.0 < config.c.1
                    &&& total_weight(weights) <= u64::MAX
                }
            })
        }),
{
    law_vrf_messages_are_spelled(
        pending.slot_number,
        pending.epoch_number,
        epoch.randomness@,
        messages,
    );
    assert(weights =~= weights_of(epoch.authorities@));
}

/// With information that is good enough, a verification can be finished by asking any
/// `claim_probability` that may be asked about every `c` below one and every weight that is part of
/// a total, and answers with a fraction below one.
pub proof fn law_good_enough_information_suffices<
    F: Fn((u64, u64), u64, u64) -> ClaimProbability,
>(pending: PendingState, epoch: BabeNextEpoch, config: BabeNextConfig, claim_probability: F)
    requires
        pending.can_finish(epoch, config),
        forall|c: (u64, u64), authority_weight: u64, total: u64|
            c.0 < c.1 && 0 < authority_weight <= total ==> #[trigger] call_requires(
                claim_probability,
                (c, authority_weight, total),
            ),
        forall|c: (u64, u64), authority_weight: u64, total: u64, answer: ClaimProbability|
            c.0 < c.1 && 0 < authority_weight <= total && #[trigger] call_ensures(
                claim_probability,
                (c, authority_weight, total),
                answer,
            ) ==> be_nat(answer.numerator@) < be_nat(answer.denominator@),
    ensures
        always_gives_probability(claim_probability),
        pending.can_finish_with(epoch, config, claim_probability),
{
    lemma_can_finish_with(pending, epoch, config, claim_probability);
}

} // verus!
