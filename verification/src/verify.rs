//! Verification of the authorship of a block.
//!
//! Verifying a block is done in two phases:
//!
//! - First, call [`start_verify_header`] to start the verification process. This returns a
//!   [`SuccessOrPending`] enum.
//! - If [`SuccessOrPending::Pending`] has been returned, you need to provide the
//!   [`BabeNextEpoch`](crate::header::BabeNextEpoch) and the
//!   [`BabeNextConfig`](crate::header::BabeNextConfig) of a specific epoch to
//!   [`PendingVerify::finish`].
//!
//! The information to keep in memory is:
//!
//! - The slot number of block 1. When block number 1 is verified, one needs to keep in memory the
//!   slot number that is returned with [`VerifySuccess::slot_number`]. This value must later be
//!   provided as part of the [`VerifyConfig`].
//! - The [`BabeNextEpoch`](crate::header::BabeNextEpoch) corresponding to each epoch number.
//!
//! In both situations, you need to be aware of forks. Only the information contained in an
//! ancestor of the block being verified must be provided.
use core::time::Duration;
use vstd::prelude::*;

use crate::epoch::{epoch_of, slot_number_to_epoch};
use crate::header::{nonzero, BabeGenesisConfiguration, BabePreDigest, Header, NonZeroU64};
use crate::pending::{always_gives_probability, lemma_can_finish_with, PendingState};
use crate::schnorr::{decode_signature, signature_decodes};
use crate::threshold::ClaimProbability;

pub use crate::pending::{PendingVerify, VerifyError, VerifySuccess};

verus! {

/// Configuration for [`start_verify_header`].
pub struct VerifyConfig<'a> {
    /// Header of the block to verify.
    pub header: &'a Header,
    /// Time elapsed since [the Unix Epoch](https://en.wikipedia.org/wiki/Unix_time) (i.e.
    /// 00:00:00 UTC on 1 January 1970), ignoring leap seconds. Not read.
    pub now_from_unix_epoch: Duration,
    /// Header of the parent of the block to verify.
    ///
    /// [`start_verify_header`] assumes that this block has been successfully verified before.
    pub parent_block_header: &'a Header,
    /// BABE configuration retrieved from the genesis block.
    pub genesis_configuration: &'a BabeGenesisConfiguration,
    /// Slot number of block #1. **Must** be provided, unless the block being verified is block
    /// #1 itself.
    pub block1_slot_number: Option<u64>,
}

/// Verification in progress. The block is **not** fully verified yet. You must call
/// [`PendingVerify::finish`] in order to finish the verification.
#[must_use]
pub enum SuccessOrPending {
    /// Need information about an epoch in order to finish verifying the block.
    Pending(PendingVerify),
    /// Block has been successfully verified.
    Success(VerifySuccess),
}

/// The epoch that the block to verify belongs to.
pub open spec fn block_epoch(config: VerifyConfig<'_>, claim: BabePreDigest) -> int {
    match config.block1_slot_number {
        Some(block1) => epoch_of(
            claim.spec_slot_number(),
            config.genesis_configuration.slots_per_epoch@,
            block1,
        ),
        None => 0,
    }
}

/// The block to verify is in another epoch than its parent. A child of the genesis block always
/// is.
pub open spec fn starts_epoch(config: VerifyConfig<'_>, claim: BabePreDigest) -> bool {
    config.parent_block_header.number == 0 || {
        &&& config.parent_block_header.digest.babe_pre_runtime matches Some(parent_claim)
        &&& config.block1_slot_number matches Some(block1)
        &&& block_epoch(config, claim) != epoch_of(
            parent_claim.spec_slot_number(),
            config.genesis_configuration.slots_per_epoch@,
            block1,
        )
    }
}

/// The verification in progress of a block that is sealed with `seal`.
pub open spec fn pending_state(
    config: VerifyConfig<'_>,
    claim: BabePreDigest,
    seal: Seq<u8>,
) -> PendingState {
    PendingState {
        pre_seal_hash: config.header.hash_without_seal@,
        seal_signature: seal,
        epoch_transition_target: if config.header.digest.babe_epoch_information is Some {
            Some(nonzero((block_epoch(config, claim) + 1) as u64))
        } else {
            None
        },
        epoch_number: block_epoch(config, claim) as u64,
        slot_number: claim.spec_slot_number(),
        authority_index: claim.spec_authority_index(),
        primary_slot_claim: claim is Primary,
        vrf_output_and_proof: claim.spec_vrf(),
    }
}

/// What is wrong between a block and its parent, if anything.
pub open spec fn parent_error(config: VerifyConfig<'_>, claim: BabePreDigest) -> Option<
    VerifyError,
> {
    if config.parent_block_header.number == 0 {
        None
    } else {
        match config.parent_block_header.digest.babe_pre_runtime {
            None => Some(VerifyError::ParentIsntBabeConsensus),
            Some(parent_claim) => if claim.spec_slot_number() <= parent_claim.spec_slot_number() {
                Some(VerifyError::SlotNumberNotIncreasing)
            } else {
                None
            },
        }
    }
}

/// What the header of a block alone, with its parent, comes to.
pub open spec fn begin_outcome(config: VerifyConfig<'_>) -> Result<PendingState, VerifyError> {
    match config.header.digest.babe_pre_runtime {
        None => Err(VerifyError::MissingPreRuntimeDigest),
        Some(claim) => match parent_error(config, claim) {
            Some(error) => Err(error),
            None => {
                let has_log = config.header.digest.babe_epoch_information is Some;
                if has_log && !starts_epoch(config, claim) {
                    Err(VerifyError::UnexpectedEpochChangeLog)
                } else if !has_log && starts_epoch(config, claim) {
                    Err(VerifyError::MissingEpochChangeLog)
                } else {
                    match config.header.digest.babe_seal {
                        None => Err(VerifyError::MissingSeal),
                        Some(seal) => if signature_decodes(seal@) {
                            Ok(pending_state(config, claim, seal@))
                        } else {
                            Err(VerifyError::BadSignature)
                        },
                    }
                }
            },
        },
    }
}

/// The configurations that make sense: the slot number of block #1 is there unless the block is
/// block #1 itself, no slot that is looked at precedes it, and the number of the epoch that the
/// block describes fits 64 bits.
pub open spec fn config_is_valid(config: VerifyConfig<'_>) -> bool {
    &&& config.block1_slot_number is None ==> config.header.number == 1
    &&& config.header.digest.babe_pre_runtime matches Some(claim) ==> {
        &&& config.block1_slot_number matches Some(block1) ==> block1 <= claim.spec_slot_number()
        &&& parent_error(config, claim) is None ==> {
            &&& config.parent_block_header.number != 0 ==> {
                &&& config.block1_slot_number matches Some(block1)
                &&& config.parent_block_header.digest.babe_pre_runtime matches Some(parent_claim)
                &&& block1 <= parent_claim.spec_slot_number()
            }
            &&& config.header.digest.babe_epoch_information is Some ==> block_epoch(config, claim)
                < u64::MAX
        }
    }
}

/// Tells whether [`begin_verify_header`] may be called with `config`.
pub fn check_config(config: &VerifyConfig<'_>) -> (valid: bool)
    ensures
        valid == config_is_valid(*config),
{
    if config.block1_slot_number.is_none() && config.header.number != 1 {
        return false;
    }
    let claim = match &config.header.digest.babe_pre_runtime {
        Some(claim) => claim,
        None => {
            return true;
        },
    };
    let slot_number: u64 = claim.slot_number();
    let epoch_number: u64 = match config.block1_slot_number {
        Some(block1) => match slot_number_to_epoch(
            slot_number,
            config.genesis_configuration,
            block1,
        ) {
            Ok(epoch_number) => epoch_number,
            Err(_) => {
                return false;
            },
        },
        None => 0,
    };
    if config.parent_block_header.number != 0 {
        let parent_slot_number: u64 = match &config.parent_block_header.digest.babe_pre_runtime {
            Some(parent_claim) => parent_claim.slot_number(),
            None => {
                return true;
            },
        };
        if slot_number <= parent_slot_number {
            return true;
        }
        match config.block1_slot_number {
            Some(block1) => {
                if parent_slot_number < block1 {
                    return false;
                }
            },
            None => {
                return false;
            },
        }
    }
    config.header.digest.babe_epoch_information.is_none() || epoch_number < u64::MAX
}

/// Verifies everything about a block header that its epoch has no part in.
pub fn begin_verify_header(config: &VerifyConfig<'_>) -> (outcome: Result<
    PendingVerify,
    VerifyError,
>)
    requires
        config_is_valid(*config),
    ensures
        outcome matches Ok(pending) ==> {
            &&& begin_outcome(*config) == Ok::<PendingState, VerifyError>(pending@)
            &&& pending@.well_formed()
        },
        outcome matches Err(error) ==> begin_outcome(*config) == Err::<PendingState, VerifyError>(
            error,
        ),
{
    let claim = match &config.header.digest.babe_pre_runtime {
        Some(claim) => claim,
        None => {
            return Err(VerifyError::MissingPreRuntimeDigest);
        },
    };
    let slot_number: u64 = claim.slot_number();

    // Determine the epoch number the block we verify belongs to.
    let epoch_number: u64 = match config.block1_slot_number {
        Some(block1) => slot_number_to_epoch(
            slot_number,
            config.genesis_configuration,
            block1,
        ).unwrap(),
        None => 0,
    };

    // Determine the epoch number of the parent block. `None` if the parent is the genesis block.
    let parent_epoch_number: Option<u64> = if config.parent_block_header.number != 0 {
        let parent_slot_number: u64 = match &config.parent_block_header.digest.babe_pre_runtime {
            Some(parent_claim) => parent_claim.slot_number(),
            None => {
                return Err(VerifyError::ParentIsntBabeConsensus);
            },
        };
        if slot_number <= parent_slot_number {
            return Err(VerifyError::SlotNumberNotIncreasing);
        }
        Some(
            slot_number_to_epoch(
                parent_slot_number,
                config.genesis_configuration,
                config.block1_slot_number.unwrap(),
            ).unwrap(),
        )
    } else {
        None
    };

    // Extract the epoch change information stored in the header, if any.
    let epoch_transition_target: Option<NonZeroU64> =
        if config.header.digest.babe_epoch_information.is_some() {
        Some(NonZeroU64::new(epoch_number + 1).unwrap())
    } else {
        None
    };

    // Make sure that the expected epoch transitions correspond to what the blocks report.
    let epoch_changes: bool = match parent_epoch_number {
        Some(parent) => parent != epoch_number,
        None => true,
    };
    if epoch_transition_target.is_some() && !epoch_changes {
        return Err(VerifyError::UnexpectedEpochChangeLog);
    }
    if epoch_transition_target.is_none() && epoch_changes {
        return Err(VerifyError::MissingEpochChangeLog);
    }

    let seal = match &config.header.digest.babe_seal {
        Some(seal) => seal,
        None => {
            return Err(VerifyError::MissingSeal);
        },
    };
    if !decode_signature(seal.as_slice()) {
        return Err(VerifyError::BadSignature);
    }
    broadcast use crate::header::lemma_nonzero;

    Ok(
        PendingVerify::new(
            config.header.hash_without_seal,
            seal.clone(),
            epoch_transition_target,
            epoch_number,
            claim,
        ),
    )
}

/// The verification in progress of a block of epoch 0, if nothing is wrong with its header.
pub open spec fn begun_in_epoch_0(config: VerifyConfig<'_>) -> Option<PendingState> {
    match begin_outcome(config) {
        Ok(pending) => if pending.epoch_number == 0 {
            Some(pending)
        } else {
            None
        },
        Err(_) => None,
    }
}

/// `outcome` is what [`start_verify_header`] owes for `config`.
///
/// - A header that is wrong by itself, or with its parent, is refused.
/// - A block of epoch 0 is verified to the end, with the information that the genesis block gives.
/// - Every other block is left pending.
pub open spec fn is_start_outcome<F: Fn((u64, u64), u64, u64) -> ClaimProbability>(
    config: VerifyConfig<'_>,
    claim_probability: F,
    outcome: Result<SuccessOrPending, VerifyError>,
) -> bool {
    match begin_outcome(config) {
        Err(error) => outcome == Err::<SuccessOrPending, VerifyError>(error),
        Ok(pending) => if pending.epoch_number == 0 {
            let epoch = config.genesis_configuration.epoch0_information;
            let epoch_config = config.genesis_configuration.epoch0_configuration;
            match outcome {
                Ok(SuccessOrPending::Success(success)) => pending.is_outcome(
                    epoch,
                    epoch_config,
                    claim_probability,
                    Ok(success),
                ),
                Ok(SuccessOrPending::Pending(_)) => false,
                Err(error) => pending.is_outcome(
                    epoch,
                    epoch_config,
                    claim_probability,
                    Err(error),
                ),
            }
        } else {
            outcome matches Ok(SuccessOrPending::Pending(left)) && left@ == pending
        },
    }
}

/// Verifies whether a block header provides a correct proof of the legitimacy of the authorship.
///
/// Returns either a [`PendingVerify`] if more information is needed, or a [`VerifySuccess`] if
/// the verification could be successfully performed.
///
/// `claim_probability` is the one of
/// [`calculate_primary_threshold`](crate::threshold::calculate_primary_threshold).
pub fn start_verify_header<F: Fn((u64, u64), u64, u64) -> ClaimProbability>(
    config: VerifyConfig<'_>,
    claim_probability: &F,
) -> (outcome: Result<SuccessOrPending, VerifyError>)
    requires
        config_is_valid(config),
        begun_in_epoch_0(config) matches Some(pending) ==> pending.can_finish_with(
            config.genesis_configuration.epoch0_information,
            config.genesis_configuration.epoch0_configuration,
            *claim_probability,
        ),
    ensures
        is_start_outcome(config, *claim_probability, outcome),
        outcome matches Ok(SuccessOrPending::Pending(pending)) ==> pending@.well_formed(),
        outcome matches Ok(SuccessOrPending::Success(success)) ==> (
        success.epoch_transition_target matches Some(target) ==> target@ == success.epoch_number
            + 1),
{
    let pending = match begin_verify_header(&config) {
        Ok(pending) => pending,
        Err(error) => {
            return Err(error);
        },
    };
    // The information about epoch number 0 is never given by any block and is instead found in
    // the BABE genesis configuration.
    if pending.epoch_number() == 0 {
        match pending.finish(
            (
                &config.genesis_configuration.epoch0_information,
                config.genesis_configuration.epoch0_configuration,
            ),
            claim_probability,
        ) {
            Ok(success) => Ok(SuccessOrPending::Success(success)),
            Err(error) => Err(error),
        }
    } else {
        Ok(SuccessOrPending::Pending(pending))
    }
}

/// Does what [`start_verify_header`] does, unless the configuration makes no sense or the block
/// is in epoch 0 and what the genesis block says of that epoch is not good enough to verify it
/// with. It then returns `None`.
pub fn checked_start_verify_header<F: Fn((u64, u64), u64, u64) -> ClaimProbability>(
    config: VerifyConfig<'_>,
    claim_probability: &F,
) -> (outcome: Option<Result<SuccessOrPending, VerifyError>>)
    requires
        always_gives_probability(*claim_probability),
    ensures
        outcome is Some == {
            &&& config_is_valid(config)
            &&& begun_in_epoch_0(config) matches Some(pending) ==> pending.can_finish(
                config.genesis_configuration.epoch0_information,
                config.genesis_configuration.epoch0_configuration,
            )
        },
        config.block1_slot_number is None && config.header.number != 1 ==> outcome is None,
        outcome matches Some(started) ==> is_start_outcome(config, *claim_probability, started),
        outcome matches Some(Ok(SuccessOrPending::Pending(pending))) ==> pending@.well_formed(),
        outcome matches Some(Ok(SuccessOrPending::Success(success))) ==> (
        success.epoch_transition_target matches Some(target) ==> target@ == success.epoch_number
            + 1),
{
    if !check_config(&config) {
        return None;
    }
    match begin_verify_header(&config) {
        Ok(pending) => {
            if pending.epoch_number() == 0 {
                let genesis_info = (
                    &config.genesis_configuration.epoch0_information,
                    config.genesis_configuration.epoch0_configuration,
                );
                if !pending.can_finish(genesis_info) {
                    return None;
                }
                proof {
                    lemma_can_finish_with(
                        pending@,
                        config.genesis_configuration.epoch0_information,
                        config.genesis_configuration.epoch0_configuration,
                        *claim_probability,
                    );
                }
            }
        },
        Err(_) => {},
    }
    Some(start_verify_header(config, claim_probability))
}

} // verus!
