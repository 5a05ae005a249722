//! When the verification of a block is begun, what a header is refused for, and what becomes of
//! what it holds.
//!
//! The laws here speak of what a header, its parent and the configuration hold, and of the epochs
//! of slots.
use vstd::prelude::*;

use crate::epoch::{epoch_of, law_epochs_follow_slots, law_epochs_partition_slots};
use crate::header::{lemma_nonzero, BabePreDigest};
use crate::pending::{PendingState, VerifyError};
use crate::schnorr::signature_decodes;
use crate::threshold::ClaimProbability;
use crate::verify::{
    begin_outcome, begun_in_epoch_0, config_is_valid, is_start_outcome, SuccessOrPending,
    VerifyConfig,
};

verus! {

/// A header is refused for having no slot claim if and only if it has none.
pub proof fn law_claims_are_needed(config: VerifyConfig<'_>)
    ensures
        begin_outcome(config) == Err::<PendingState, VerifyError>(
            VerifyError::MissingPreRuntimeDigest,
        ) <==> config.header.digest.babe_pre_runtime is None,
{
}

/// A header with a slot claim is refused for its parent if and only if the parent is not the
/// genesis block and has no slot claim. The type of the parent's claim does not matter.
pub proof fn law_parents_need_claims(config: VerifyConfig<'_>)
    ensures
        begin_outcome(config) == Err::<PendingState, VerifyError>(
            VerifyError::ParentIsntBabeConsensus,
        ) <==> {
            &&& config.header.digest.babe_pre_runtime is Some
            &&& config.parent_block_header.number != 0
            &&& config.parent_block_header.digest.babe_pre_runtime is None
        },
{
}

/// A header is refused for its slot if and only if its parent is not the genesis block and claims
/// the same slot or a later one.
pub proof fn law_slots_must_increase(config: VerifyConfig<'_>)
    ensures
        begin_outcome(config) == Err::<PendingState, VerifyError>(
            VerifyError::SlotNumberNotIncreasing,
        ) <==> {
            &&& config.parent_block_header.number != 0
            &&& config.header.digest.babe_pre_runtime matches Some(claim)
            &&& config.parent_block_header.digest.babe_pre_runtime matches Some(parent_claim)
            &&& claim.spec_slot_number() <= parent_claim.spec_slot_number()
        },
{
}

/// A child of the genesis block must describe an epoch, and is never refused for describing one.
pub proof fn law_first_block_must_describe_epoch(config: VerifyConfig<'_>, claim: BabePreDigest)
    requires
        config.header.digest.babe_pre_runtime == Some(claim),
        config.parent_block_header.number == 0,
    ensures
        begin_outcome(config) == Err::<PendingState, VerifyError>(
            VerifyError::MissingEpochChangeLog,
        ) <==> config.header.digest.babe_epoch_information is None,
        begin_outcome(config) != Err::<PendingState, VerifyError>(
            VerifyError::UnexpectedEpochChangeLog,
        ),
{
}

/// A block after a parent that claims an earlier slot must describe an epoch if it is in another
/// epoch than the parent, and must not describe one otherwise. It is refused for that in no other
/// case.
pub proof fn law_epoch_changes_must_be_logged(
    config: VerifyConfig<'_>,
    claim: BabePreDigest,
    parent_claim: BabePreDigest,
    block1_slot_number: u64,
)
    requires
        config.header.digest.babe_pre_runtime == Some(claim),
        config.parent_block_header.number != 0,
        config.parent_block_header.digest.babe_pre_runtime == Some(parent_claim),
        config.block1_slot_number == Some(block1_slot_number),
        parent_claim.spec_slot_number() < claim.spec_slot_number(),
    ensures
        ({
            let length = config.genesis_configuration.slots_per_epoch@;
            let epoch = epoch_of(claim.spec_slot_number(), length, block1_slot_number);
            let parent_epoch = epoch_of(
                parent_claim.spec_slot_number(),
                length,
                block1_slot_number,
            );
            let is_logged = config.header.digest.babe_epoch_information is Some;
            &&& begin_outcome(config) == Err::<PendingState, VerifyError>(
                VerifyError::MissingEpochChangeLog,
            ) <==> epoch != parent_epoch && !is_logged
            &&& begin_outcome(config) == Err::<PendingState, VerifyError>(
                VerifyError::UnexpectedEpochChangeLog,
            ) <==> epoch == parent_epoch && is_logged
        }),
{
}

/// A header that nothing else is wrong with is refused for its seal if and only if it has none, or
/// one that is no signature.
pub proof fn law_seals_are_needed(config: VerifyConfig<'_>)
    requires
        begin_outcome(config) != Err::<PendingState, VerifyError>(
            VerifyError::MissingPreRuntimeDigest,
        ),
        begin_outcome(config) != Err::<PendingState, VerifyError>(
            VerifyError::ParentIsntBabeConsensus,
        ),
        begin_outcome(config) != Err::<PendingState, VerifyError>(
            VerifyError::SlotNumberNotIncreasing,
        ),
        begin_outcome(config) != Err::<PendingState, VerifyError>(
            VerifyError::MissingEpochChangeLog,
        ),
        begin_outcome(config) != Err::<PendingState, VerifyError>(
            VerifyError::UnexpectedEpochChangeLog,
        ),
    ensures
        begin_outcome(config) == Err::<PendingState, VerifyError>(VerifyError::MissingSeal)
            <==> config.header.digest.babe_seal is None,
        begin_outcome(config) == Err::<PendingState, VerifyError>(VerifyError::BadSignature) <==> (
        config.header.digest.babe_seal matches Some(seal) && !signature_decodes(seal@)),
        begin_outcome(config) is Ok <==> (config.header.digest.babe_seal matches Some(seal)
            && signature_decodes(seal@)),
{
}

/// Nothing else stands in the way of a child of the genesis block: if it has a slot claim of any
/// type, describes an epoch and has a seal that is a signature, its verification is begun.
pub proof fn law_first_block_is_begun(config: VerifyConfig<'_>, claim: BabePreDigest, seal: Vec<u8>)
    requires
        config.header.digest.babe_pre_runtime == Some(claim),
        config.parent_block_header.number == 0,
        config.header.digest.babe_epoch_information is Some,
        config.header.digest.babe_seal == Some(seal),
        signature_decodes(seal@),
    ensures
        begin_outcome(config) is Ok,
{
}

/// Nothing else stands in the way of a later block: if it has a slot claim of any type, its parent
/// has one of any type to an earlier slot, it describes an epoch exactly if it is in another one
/// than the parent, and it has a seal that is a signature, its verification is begun.
pub proof fn law_later_block_is_begun(
    config: VerifyConfig<'_>,
    claim: BabePreDigest,
    parent_claim: BabePreDigest,
    block1_slot_number: u64,
    seal: Vec<u8>,
)
    requires
        config.header.digest.babe_pre_runtime == Some(claim),
        config.parent_block_header.number != 0,
        config.parent_block_header.digest.babe_pre_runtime == Some(parent_claim),
        config.block1_slot_number == Some(block1_slot_number),
        parent_claim.spec_slot_number() < claim.spec_slot_number(),
        config.header.digest.babe_epoch_information is Some <==> epoch_of(
            claim.spec_slot_number(),
            config.genesis_configuration.slots_per_epoch@,
            block1_slot_number,
        ) != epoch_of(
            parent_claim.spec_slot_number(),
            config.genesis_configuration.slots_per_epoch@,
            block1_slot_number,
        ),
        config.header.digest.babe_seal == Some(seal),
        signature_decodes(seal@),
    ensures
        begin_outcome(config) is Ok,
{
}

/// A verification that is begun knows the hash, the seal, the slot, the author and the VRF output
/// and proof that the header holds, and whether the claim is a primary one.
pub proof fn law_begun_knows_header(config: VerifyConfig<'_>, pending: PendingState)
    requires
        begin_outcome(config) == Ok::<PendingState, VerifyError>(pending),
    ensures
        pending.pre_seal_hash == config.header.hash_without_seal@,
        config.header.digest.babe_seal matches Some(seal) && pending.seal_signature == seal@,
        config.header.digest.babe_pre_runtime matches Some(claim) && {
            &&& pending.slot_number == claim.spec_slot_number()
            &&& pending.authority_index == claim.spec_authority_index()
            &&& pending.vrf_output_and_proof == claim.spec_vrf()
            &&& pending.primary_slot_claim <==> claim is Primary
        },
{
}

/// A verification that is begun knows the epoch whose slots the claimed one is among, which are
/// counted from the slot of block #1, and which is epoch 0 for block #1 itself. If the header
/// describes an epoch, it is the next one.
pub proof fn law_begun_knows_epoch(config: VerifyConfig<'_>, pending: PendingState)
    requires
        config.genesis_configuration.slots_per_epoch@ != 0,
        config_is_valid(config),
        begin_outcome(config) == Ok::<PendingState, VerifyError>(pending),
    ensures
        config.block1_slot_number is None ==> pending.epoch_number == 0,
        config.block1_slot_number matches Some(block1) ==> {
            let length = config.genesis_configuration.slots_per_epoch@;
            &&& block1 + pending.epoch_number * length <= pending.slot_number
            &&& pending.slot_number < block1 + (pending.epoch_number + 1) * length
        },
        config.header.digest.babe_epoch_information is Some
            <==> pending.epoch_transition_target is Some,
        pending.epoch_transition_target matches Some(target) ==> target@ == pending.epoch_number
            + 1,
{
    broadcast use lemma_nonzero;

    let slot_number = config.header.digest.babe_pre_runtime.unwrap().spec_slot_number();
    if let Some(block1) = config.block1_slot_number {
        let length = config.genesis_configuration.slots_per_epoch@;
        law_epochs_follow_slots(slot_number, slot_number, length, block1);
        law_epochs_partition_slots(
            slot_number,
            length,
            block1,
            epoch_of(slot_number, length, block1),
        );
    }
}

/// A configuration makes sense if and only if
///
/// - it gives the slot number of block #1, or is about block #1;
/// - the claimed slot does not precede that of block #1;
/// - nor does an earlier slot that a parent other than the genesis block claims;
/// - a block that describes an epoch is not in the very last one, which only epochs of one slot,
///   counted from slot 0, ever reach.
pub proof fn law_configurations_that_make_sense(config: VerifyConfig<'_>)
    requires
        config.genesis_configuration.slots_per_epoch@ != 0,
    ensures
        config_is_valid(config) <==> {
            &&& config.block1_slot_number is None ==> config.header.number == 1
            &&& config.header.digest.babe_pre_runtime matches Some(claim) ==> {
                &&& config.block1_slot_number matches Some(block1) ==> block1
                    <= claim.spec_slot_number()
                &&& config.parent_block_header.number != 0 ==> (
                config.parent_block_header.digest.babe_pre_runtime matches Some(parent_claim)
                    ==> parent_claim.spec_slot_number() >= claim.spec_slot_number() || (
                config.block1_slot_number matches Some(block1) && block1
                    <= parent_claim.spec_slot_number()))
                &&& config.header.digest.babe_epoch_information is Some && (
                config.parent_block_header.number == 0 || (
                config.parent_block_header.digest.babe_pre_runtime matches Some(parent_claim)
                    && parent_claim.spec_slot_number() < claim.spec_slot_number()))
                    && config.block1_slot_number == Some(0u64)
                    && config.genesis_configuration.slots_per_epoch@ == 1
                    ==> claim.spec_slot_number() != u64::MAX
            }
        },
{
    if let Some(claim) = config.header.digest.babe_pre_runtime {
        if let Some(block1) = config.block1_slot_number {
            let slot_number = claim.spec_slot_number();
            if block1 <= slot_number {
                let length = config.genesis_configuration.slots_per_epoch@;
                law_epochs_partition_slots(slot_number, length, block1, u64::MAX as int);
                law_epochs_follow_slots(slot_number, slot_number, length, block1);
                assert(length >= 2 ==> u64::MAX * length >= u64::MAX * 2) by (nonlinear_arith);
            }
        }
    }
}

/// A header that is refused is refused for that whatever `claim_probability` would answer.
pub proof fn law_refused_headers<F: Fn((u64, u64), u64, u64) -> ClaimProbability>(
    config: VerifyConfig<'_>,
    error: VerifyError,
    claim_probability: F,
    outcome: Result<SuccessOrPending, VerifyError>,
)
    requires
        begin_outcome(config) == Err::<PendingState, VerifyError>(error),
    ensures
        is_start_outcome(config, claim_probability, outcome) <==> outcome == Err::<
            SuccessOrPending,
            VerifyError,
        >(error),
        begun_in_epoch_0(config) is None,
{
}

/// The verification of a block that is begun is finished at once, with the information of the
/// genesis block, if and only if the block is in epoch 0. It is left pending otherwise.
pub proof fn law_begun_blocks<F: Fn((u64, u64), u64, u64) -> ClaimProbability>(
    config: VerifyConfig<'_>,
    pending: PendingState,
    claim_probability: F,
    outcome: Result<SuccessOrPending, VerifyError>,
)
    requires
        begin_outcome(config) == Ok::<PendingState, VerifyError>(pending),
        is_start_outcome(config, claim_probability, outcome),
    ensures
        begun_in_epoch_0(config) == (if pending.epoch_number == 0 {
            Some(pending)
        } else {
            None
        }),
        match outcome {
            Ok(SuccessOrPending::Pending(left)) => pending.epoch_number != 0 && left@ == pending,
            Ok(SuccessOrPending::Success(success)) => pending.epoch_number == 0
                && pending.is_outcome(
                config.genesis_configuration.epoch0_information,
                config.genesis_configuration.epoch0_configuration,
                claim_probability,
                Ok(success),
            ),
            Err(error) => pending.epoch_number == 0 && pending.is_outcome(
                config.genesis_configuration.epoch0_information,
                config.genesis_configuration.epoch0_configuration,
                claim_probability,
                Err(error),
            ),
        },
{
}

} // verus!
