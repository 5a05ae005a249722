//! What verified blocks have in common.
//!
//! Every law is stated over the functions that the contracts of [`crate::verify`] and
//! [`crate::pending`] are written in. Those that need it speak of configurations that make sense,
//! which [`config_is_valid`] tells, and whose epochs have slots.
use core::time::Duration;
use vstd::prelude::*;

use crate::bytes::{be_nat, le_nat};
use crate::epoch::{epoch_of, law_block1_is_in_epoch_0, law_epochs_follow_slots};
use crate::header::{lemma_nonzero, BabeAllowedSlots, BabeNextConfig, BabeNextEpoch};
use crate::pending::{
    assigned_authority, assignment_hash, slot_type_is_allowed, weights_of, PendingState,
    VerifyError, VerifySuccess,
};
use crate::threshold::{
    is_consistent, law_threshold_is_determined, total_weight, ClaimProbability,
};
use crate::verify::{
    begin_outcome, begun_in_epoch_0, block_epoch, config_is_valid, is_start_outcome, starts_epoch,
    SuccessOrPending, VerifyConfig,
};

verus! {

/// `pending` is the verification in progress of a block whose configuration makes sense.
pub open spec fn is_begun(config: VerifyConfig<'_>, pending: PendingState) -> bool {
    &&& config_is_valid(config)
    &&& config.genesis_configuration.slots_per_epoch@ != 0
    &&& begin_outcome(config) == Ok::<PendingState, VerifyError>(pending)
}

/// The epoch number of a verification in progress is the epoch of the slot that is claimed.
proof fn lemma_epoch_fits(config: VerifyConfig<'_>, pending: PendingState)
    requires
        is_begun(config, pending),
    ensures
        config.header.digest.babe_pre_runtime matches Some(claim) && {
            &&& pending.epoch_number == block_epoch(config, claim)
            &&& pending.slot_number == claim.spec_slot_number()
        },
{
    let claim = config.header.digest.babe_pre_runtime.unwrap();
    match config.block1_slot_number {
        Some(block1) => law_epochs_follow_slots(
            claim.spec_slot_number(),
            claim.spec_slot_number(),
            config.genesis_configuration.slots_per_epoch@,
            block1,
        ),
        None => {},
    }
}

/// Every verification in progress is well formed. Among other things, a primary claim always comes
/// with a VRF output.
pub proof fn law_begun_is_well_formed(config: VerifyConfig<'_>, pending: PendingState)
    requires
        is_begun(config, pending),
    ensures
        pending.well_formed(),
{
    broadcast use lemma_nonzero;

    lemma_epoch_fits(config, pending);
}

/// Slot numbers strictly increase from a parent to its child, and epoch numbers never decrease.
/// The parent of block #1 has neither.
pub proof fn law_slots_increase(config: VerifyConfig<'_>, pending: PendingState)
    requires
        is_begun(config, pending),
        config.parent_block_header.number != 0,
    ensures
        config.parent_block_header.digest.babe_pre_runtime matches Some(parent_claim) && {
            &&& parent_claim.spec_slot_number() < pending.slot_number
            &&& config.block1_slot_number matches Some(block1)
            &&& epoch_of(
                parent_claim.spec_slot_number(),
                config.genesis_configuration.slots_per_epoch@,
                block1,
            ) <= pending.epoch_number
        },
{
    lemma_epoch_fits(config, pending);
    law_epochs_follow_slots(
        config.parent_block_header.digest.babe_pre_runtime.unwrap().spec_slot_number(),
        pending.slot_number,
        config.genesis_configuration.slots_per_epoch@,
        config.block1_slot_number.unwrap(),
    );
}

/// The first block of an epoch describes an epoch, and it is the next one. No other block
/// describes any.
pub proof fn law_first_block_describes_next_epoch(config: VerifyConfig<'_>, pending: PendingState)
    requires
        is_begun(config, pending),
    ensures
        config.header.digest.babe_pre_runtime matches Some(claim) && (
        pending.epoch_transition_target is Some <==> starts_epoch(config, claim)),
        pending.epoch_transition_target is Some
            <==> config.header.digest.babe_epoch_information is Some,
        pending.epoch_transition_target matches Some(target) ==> target@ == pending.epoch_number
            + 1,
{
    law_begun_is_well_formed(config, pending);
}

/// A block that describes no epoch is in the epoch of its parent, and the other way round.
pub proof fn law_same_epoch_as_parent(config: VerifyConfig<'_>, pending: PendingState)
    requires
        is_begun(config, pending),
    ensures
        pending.epoch_transition_target is None <==> {
            &&& config.parent_block_header.number != 0
            &&& config.parent_block_header.digest.babe_pre_runtime matches Some(parent_claim)
            &&& config.block1_slot_number matches Some(block1)
            &&& epoch_of(
                parent_claim.spec_slot_number(),
                config.genesis_configuration.slots_per_epoch@,
                block1,
            ) == pending.epoch_number
        },
{
    lemma_epoch_fits(config, pending);
}

/// Block #1 is in epoch 0 and describes epoch 1, whether or not its own slot number is given as
/// that of block #1.
pub proof fn law_block_1_describes_epoch_1(config: VerifyConfig<'_>, pending: PendingState)
    requires
        is_begun(config, pending),
        config.parent_block_header.number == 0,
        config.block1_slot_number matches Some(block1) ==> block1 == pending.slot_number,
    ensures
        pending.epoch_number == 0,
        pending.epoch_transition_target matches Some(target) && target@ == 1,
{
    lemma_epoch_fits(config, pending);
    law_begun_is_well_formed(config, pending);
    match config.block1_slot_number {
        Some(block1) => law_block1_is_in_epoch_0(
            config.genesis_configuration.slots_per_epoch@,
            block1,
        ),
        None => {},
    }
}

/// Two outcomes of [`start_verify_header`](crate::verify::start_verify_header) are the same:
/// the same error, the same success, or verifications in progress that know the same.
pub open spec fn is_same_outcome(
    one: Result<SuccessOrPending, VerifyError>,
    other: Result<SuccessOrPending, VerifyError>,
) -> bool {
    match (one, other) {
        (Ok(SuccessOrPending::Pending(p)), Ok(SuccessOrPending::Pending(q))) => p@ == q@,
        _ => one == other,
    }
}

/// If finishing a verification takes the threshold of the author, `claim_probability` answers the
/// same whenever it is asked about it.
pub open spec fn threshold_is_answered_once<F: Fn((u64, u64), u64, u64) -> ClaimProbability>(
    pending: PendingState,
    epoch: BabeNextEpoch,
    config: BabeNextConfig,
    claim_probability: F,
) -> bool {
    pending.is_judged_by_threshold(epoch, config) ==> is_consistent(
        claim_probability,
        config.c,
        pending.author(epoch).weight,
        total_weight(weights_of(epoch.authorities@)) as u64,
    )
}

/// If starting a verification takes the threshold of the author, which only a primary claim to a
/// slot of epoch 0 does, `claim_probability` answers the same whenever it is asked about it.
pub open spec fn start_is_answered_once<F: Fn((u64, u64), u64, u64) -> ClaimProbability>(
    config: VerifyConfig<'_>,
    claim_probability: F,
) -> bool {
    begun_in_epoch_0(config) matches Some(pending) ==> threshold_is_answered_once(
        pending,
        config.genesis_configuration.epoch0_information,
        config.genesis_configuration.epoch0_configuration,
        claim_probability,
    )
}

/// Finishing a verification comes to one outcome. Where a primary claim gets as far as its
/// threshold, this takes a `claim_probability` that answers the same whenever it is asked about it.
pub proof fn law_finish_is_determined<F: Fn((u64, u64), u64, u64) -> ClaimProbability>(
    pending: PendingState,
    epoch: BabeNextEpoch,
    config: BabeNextConfig,
    claim_probability: F,
    one: Result<VerifySuccess, VerifyError>,
    other: Result<VerifySuccess, VerifyError>,
)
    requires
        pending.well_formed(),
        threshold_is_answered_once(pending, epoch, config, claim_probability),
        pending.is_outcome(epoch, config, claim_probability, one),
        pending.is_outcome(epoch, config, claim_probability, other),
    ensures
        one == other,
{
    let t1 = choose|threshold: u128|
        pending.has_threshold(epoch, config, claim_probability, threshold) && one
            == #[trigger] pending.outcome(epoch, config, threshold);
    let t2 = choose|threshold: u128|
        pending.has_threshold(epoch, config, claim_probability, threshold) && other
            == #[trigger] pending.outcome(epoch, config, threshold);
    if pending.is_judged_by_threshold(epoch, config) {
        let weights = weights_of(epoch.authorities@);
        law_threshold_is_determined(
            config.c,
            weights,
            weights,
            pending.author(epoch).weight,
            claim_probability,
            t1,
            t2,
        );
    }
}

/// What is returned of a verification that was finished at once.
pub open spec fn finished_at_once(finished: Result<VerifySuccess, VerifyError>) -> Result<
    SuccessOrPending,
    VerifyError,
> {
    match finished {
        Ok(success) => Ok(SuccessOrPending::Success(success)),
        Err(error) => Err(error),
    }
}

/// Where nothing is wrong with its header, a block of epoch 0 fares as if its verification had been
/// finished with the information of the genesis block, errors included, and is never left pending.
/// Every other block is left pending, whatever its seal and its VRF prove.
pub proof fn law_epoch_0_is_finished_at_once<F: Fn((u64, u64), u64, u64) -> ClaimProbability>(
    config: VerifyConfig<'_>,
    pending: PendingState,
    claim_probability: F,
    outcome: Result<SuccessOrPending, VerifyError>,
    finished: Result<VerifySuccess, VerifyError>,
)
    requires
        is_begun(config, pending),
    ensures
        ({
            let epoch = config.genesis_configuration.epoch0_information;
            let epoch_config = config.genesis_configuration.epoch0_configuration;
            pending.epoch_number == 0 ==> {
                &&& is_start_outcome(config, claim_probability, finished_at_once(finished))
                    <==> pending.is_outcome(epoch, epoch_config, claim_probability, finished)
                &&& is_start_outcome(config, claim_probability, outcome) ==> !(outcome matches Ok(
                    SuccessOrPending::Pending(_),
                ))
                &&& is_start_outcome(config, claim_probability, outcome) && pending.is_outcome(
                    epoch,
                    epoch_config,
                    claim_probability,
                    finished,
                ) && threshold_is_answered_once(pending, epoch, epoch_config, claim_probability)
                    ==> outcome == finished_at_once(finished)
            }
        }),
        pending.epoch_number != 0 ==> (is_start_outcome(config, claim_probability, outcome) <==> (
        outcome matches Ok(SuccessOrPending::Pending(left)) && left@ == pending)),
{
    if pending.epoch_number == 0 && is_start_outcome(config, claim_probability, outcome)
        && start_is_answered_once(config, claim_probability) && is_start_outcome(
        config,
        claim_probability,
        finished_at_once(finished),
    ) {
        law_start_is_determined(config, claim_probability, outcome, finished_at_once(finished));
    }
}

/// Starting the verification of a block comes to one outcome. Where a primary claim to a slot of
/// epoch 0 gets as far as its threshold, this takes a `claim_probability` that answers the same
/// whenever it is asked about it.
pub proof fn law_start_is_determined<F: Fn((u64, u64), u64, u64) -> ClaimProbability>(
    config: VerifyConfig<'_>,
    claim_probability: F,
    one: Result<SuccessOrPending, VerifyError>,
    other: Result<SuccessOrPending, VerifyError>,
)
    requires
        config_is_valid(config),
        config.genesis_configuration.slots_per_epoch@ != 0,
        start_is_answered_once(config, claim_probability),
        is_start_outcome(config, claim_probability, one),
        is_start_outcome(config, claim_probability, other),
    ensures
        is_same_outcome(one, other),
{
    if let Ok(pending) = begin_outcome(config) {
        if pending.epoch_number == 0 {
            law_begun_is_well_formed(config, pending);
            law_finish_is_determined(
                pending,
                config.genesis_configuration.epoch0_information,
                config.genesis_configuration.epoch0_configuration,
                claim_probability,
                finished(one),
                finished(other),
            );
        }
    }
}

/// What finishing came to, if the verification was not left pending.
spec fn finished(outcome: Result<SuccessOrPending, VerifyError>) -> Result<
    VerifySuccess,
    VerifyError,
> {
    match outcome {
        Ok(started) => Ok(started->Success_0),
        Err(error) => Err(error),
    }
}

/// Block #1 fares the same whether or not its own slot number is given as that of block #1, and
/// is never left pending.
pub proof fn law_block_1_needs_no_slot_number<F: Fn((u64, u64), u64, u64) -> ClaimProbability>(
    config: VerifyConfig<'_>,
    slot_number: u64,
    claim_probability: F,
    one: Result<SuccessOrPending, VerifyError>,
    other: Result<SuccessOrPending, VerifyError>,
)
    requires
        config.header.number == 1,
        config.parent_block_header.number == 0,
        config.genesis_configuration.slots_per_epoch@ != 0,
        config.block1_slot_number is None,
        config.header.digest.babe_pre_runtime matches Some(claim) ==> claim.spec_slot_number()
            == slot_number,
    ensures
        ({
            let informed = VerifyConfig { block1_slot_number: Some(slot_number), ..config };
            &&& config_is_valid(config)
            &&& config_is_valid(informed)
            &&& begin_outcome(config) == begin_outcome(informed)
            &&& is_start_outcome(config, claim_probability, one) <==> is_start_outcome(
                informed,
                claim_probability,
                one,
            )
            &&& is_start_outcome(config, claim_probability, one) ==> !(one matches Ok(
                SuccessOrPending::Pending(_),
            ))
            &&& start_is_answered_once(config, claim_probability) && is_start_outcome(
                config,
                claim_probability,
                one,
            ) && is_start_outcome(informed, claim_probability, other) ==> one == other
        }),
{
    law_block1_is_in_epoch_0(config.genesis_configuration.slots_per_epoch@, slot_number);
    if start_is_answered_once(config, claim_probability) && is_start_outcome(
        config,
        claim_probability,
        one,
    ) && is_start_outcome(config, claim_probability, other) {
        law_start_is_determined(config, claim_probability, one, other);
    }
}

/// The time has no part in the verification of a block.
pub proof fn law_time_has_no_part<F: Fn((u64, u64), u64, u64) -> ClaimProbability>(
    config: VerifyConfig<'_>,
    now_from_unix_epoch: Duration,
    claim_probability: F,
    one: Result<SuccessOrPending, VerifyError>,
    other: Result<SuccessOrPending, VerifyError>,
)
    requires
        config.genesis_configuration.slots_per_epoch@ != 0,
    ensures
        ({
            let later = VerifyConfig { now_from_unix_epoch, ..config };
            &&& config_is_valid(config) <==> config_is_valid(later)
            &&& begin_outcome(config) == begin_outcome(later)
            &&& is_start_outcome(config, claim_probability, one) <==> is_start_outcome(
                later,
                claim_probability,
                one,
            )
            &&& config_is_valid(config) && start_is_answered_once(config, claim_probability)
                && is_start_outcome(config, claim_probability, one) && is_start_outcome(
                later,
                claim_probability,
                other,
            ) ==> is_same_outcome(one, other)
        }),
{
    if config_is_valid(config) && start_is_answered_once(config, claim_probability)
        && is_start_outcome(config, claim_probability, one) && is_start_outcome(
        config,
        claim_probability,
        other,
    ) {
        law_start_is_determined(config, claim_probability, one, other);
    }
}

/// No block is left pending in epoch 0, whose information the genesis block gives, and no block of
/// another epoch is verified without information about its epoch.
pub proof fn law_pending_outside_epoch_0<F: Fn((u64, u64), u64, u64) -> ClaimProbability>(
    config: VerifyConfig<'_>,
    claim_probability: F,
    outcome: Result<SuccessOrPending, VerifyError>,
)
    requires
        is_start_outcome(config, claim_probability, outcome),
    ensures
        outcome matches Ok(SuccessOrPending::Pending(pending)) ==> pending@.epoch_number != 0,
        outcome matches Ok(SuccessOrPending::Success(success)) ==> success.epoch_number == 0,
{
}

/// What is reported of a verified block is the slot that its header claims, the epoch that the
/// slot is in and, if the header describes an epoch, the number of that epoch, which is one more.
pub proof fn law_success_reports_header(
    config: VerifyConfig<'_>,
    pending: PendingState,
    epoch: BabeNextEpoch,
    epoch_config: BabeNextConfig,
    threshold: u128,
    success: VerifySuccess,
)
    requires
        is_begun(config, pending),
        pending.outcome(epoch, epoch_config, threshold) == Ok::<VerifySuccess, VerifyError>(
            success,
        ),
    ensures
        config.header.digest.babe_pre_runtime matches Some(claim) && {
            &&& success.slot_number == claim.spec_slot_number()
            &&& success.epoch_number == block_epoch(config, claim)
        },
        success.epoch_transition_target is Some
            <==> config.header.digest.babe_epoch_information is Some,
        success.epoch_transition_target matches Some(target) ==> target@ == success.epoch_number
            + 1,
{
    lemma_epoch_fits(config, pending);
    law_begun_is_well_formed(config, pending);
}

/// A block is accepted if and only if its slot claim is of an allowed type, an authority of the
/// epoch has signed it, its VRF output is proved correct if it has one, and
///
/// - what is drawn from the VRF is below the threshold of the author, if the claim is primary;
/// - the slot is assigned to the author, if the claim is secondary.
pub proof fn law_acceptance(
    pending: PendingState,
    epoch: BabeNextEpoch,
    config: BabeNextConfig,
    threshold: u128,
)
    requires
        pending.well_formed(),
    ensures
        pending.outcome(epoch, config, threshold) is Ok <==> {
            &&& pending.is_admissible(epoch, config)
            &&& pending.seal_is_valid(epoch)
            &&& pending.vrf_output_and_proof is Some ==> pending.drawn(epoch) is Some
            &&& pending.primary_slot_claim ==> le_nat(pending.drawn(epoch).unwrap()) < threshold
            &&& !pending.primary_slot_claim ==> assigned_authority(
                assignment_hash(epoch.randomness@, pending.slot_number),
                epoch.authorities@.len(),
            ) == pending.authority_index
        },
{
}

/// Primary claims are allowed by every configuration, and each type of secondary claim by exactly
/// one.
pub proof fn law_allowed_slot_types(allowed_slots: BabeAllowedSlots, has_vrf: bool)
    ensures
        slot_type_is_allowed(allowed_slots, true, has_vrf),
        slot_type_is_allowed(allowed_slots, false, false)
            <==> allowed_slots is PrimaryAndSecondaryPlainSlots,
        slot_type_is_allowed(allowed_slots, false, true)
            <==> allowed_slots is PrimaryAndSecondaryVRFSlots,
{
}

/// Every slot is assigned to one of the authorities of its epoch.
pub proof fn law_every_slot_is_assigned(slot_hash: Seq<u8>, authorities: nat)
    requires
        authorities != 0,
    ensures
        assigned_authority(slot_hash, authorities) < authorities,
{
    vstd::arithmetic::div_mod::lemma_mod_bound(be_nat(slot_hash) as int, authorities as int);
}

/// Two authorities never both have a secondary claim to the same slot of an epoch accepted.
pub proof fn law_secondary_author_is_unique(
    one: PendingState,
    other: PendingState,
    epoch: BabeNextEpoch,
    config: BabeNextConfig,
    one_threshold: u128,
    other_threshold: u128,
)
    requires
        !one.primary_slot_claim,
        !other.primary_slot_claim,
        one.slot_number == other.slot_number,
        one.outcome(epoch, config, one_threshold) is Ok,
        other.outcome(epoch, config, other_threshold) is Ok,
    ensures
        one.authority_index == other.authority_index,
{
}

/// The authority that a slot is assigned to may always claim it with a secondary claim of the type
/// that is allowed, whatever its weight and its threshold. If the type has a VRF output, its proof
/// must be correct.
pub proof fn law_assigned_authority_may_claim(
    pending: PendingState,
    epoch: BabeNextEpoch,
    config: BabeNextConfig,
    threshold: u128,
)
    requires
        epoch.authorities@.len() != 0,
        !pending.primary_slot_claim,
        slot_type_is_allowed(
            config.allowed_slots,
            false,
            pending.vrf_output_and_proof is Some,
        ),
        pending.vrf_output_and_proof is Some ==> pending.drawn(epoch) is Some,
        pending.authority_index == assigned_authority(
            assignment_hash(epoch.randomness@, pending.slot_number),
            epoch.authorities@.len(),
        ),
        pending.seal_is_valid(epoch),
    ensures
        pending.outcome(epoch, config, threshold) == Ok::<VerifySuccess, VerifyError>(
            pending.success(),
        ),
{
    law_every_slot_is_assigned(
        assignment_hash(epoch.randomness@, pending.slot_number),
        epoch.authorities@.len(),
    );
}

/// A higher threshold never turns down what a lower one accepts, and has no part in secondary
/// claims.
pub proof fn law_threshold_only_bounds_primary_claims(
    pending: PendingState,
    epoch: BabeNextEpoch,
    config: BabeNextConfig,
    lower: u128,
    higher: u128,
)
    requires
        lower <= higher,
    ensures
        pending.outcome(epoch, config, lower) is Ok ==> pending.outcome(epoch, config, higher)
            == pending.outcome(epoch, config, lower),
        !pending.primary_slot_claim ==> pending.outcome(epoch, config, higher) == pending.outcome(
            epoch,
            config,
            lower,
        ),
{
}

} // verus!
