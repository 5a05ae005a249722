//! The second phase of the verification of a block, which needs to know about its epoch.
use vstd::prelude::*;

use crate::bigint::{remainder, to_u32};
use crate::blake2::{blake2b, blake2b_hash};
use crate::bytes::{be_nat, le_bytes, le_nat, u128_from_le, u64_le_bytes};
use crate::header::{
    BabeAllowedSlots, BabeAuthority, BabeNextConfig, BabeNextEpoch, BabePreDigest, NonZeroU64,
};
use crate::schnorr::{
    append_message, append_u64, decode_public_key, decode_vrf_proof, domain_separator,
    public_key_decodes, signature_decodes, signature_verifies, transcript_messages, transcript_new,
    verify_simple, vrf_bytes, vrf_proof_decodes, vrf_verify,
};
use crate::threshold::{
    calculate_primary_threshold, gives_probability, is_primary_threshold, sum_weights,
    threshold_is_defined, total_weight, ClaimProbability,
};

verus! {

/// Context under which authors sign headers: `substrate`.
pub const SEAL_CONTEXT: [u8; 9] = [115, 117, 98, 115, 116, 114, 97, 116, 101];

/// Name of the transcript that the VRF is run on: `BABE`.
pub const VRF_TRANSCRIPT: [u8; 4] = [66, 65, 66, 69];

/// Label of the slot number in that transcript: `slot number`.
pub const SLOT_LABEL: [u8; 11] = [115, 108, 111, 116, 32, 110, 117, 109, 98, 101, 114];

/// Label of the epoch number in that transcript: `current epoch`.
pub const EPOCH_LABEL: [u8; 13] = [
    99, 117, 114, 114, 101, 110, 116, 32, 101, 112, 111, 99, 104,
];

/// Label of the randomness of the epoch in that transcript: `chain randomness`.
pub const RANDOMNESS_LABEL: [u8; 16] = [
    99, 104, 97, 105, 110, 32, 114, 97, 110, 100, 111, 109, 110, 101, 115, 115,
];

/// Context under which the number that a primary claim is judged by is drawn:
/// `substrate-babe-vrf`.
pub const VRF_CONTEXT: [u8; 18] = [
    115, 117, 98, 115, 116, 114, 97, 116, 101, 45, 98, 97, 98, 101, 45, 118, 114, 102,
];

/// Information yielded back after successfully verifying a block.
#[derive(Debug, Clone, Copy, PartialEq, Eq, Structural)]
pub struct VerifySuccess {
    /// Slot number the block belongs to.
    pub slot_number: u64,
    /// Epoch number the block belongs to.
    pub epoch_number: u64,
    /// If `Some`, the verified block contains an epoch transition describing the given epoch.
    /// This epoch transition must later be provided back when calling [`PendingVerify::finish`]
    /// when verifying blocks that are part of that epoch.
    ///
    /// > **Note**: If `Some`, the value is always equal to [`VerifySuccess::epoch_number`] + 1.
    pub epoch_transition_target: Option<NonZeroU64>,
}

/// Failure to verify a block.
#[derive(Debug, Clone, Copy, PartialEq, Eq, Structural)]
pub enum VerifyError {
    /// The seal (containing the signature of the authority) is missing from the header.
    MissingSeal,
    /// No pre-runtime digest in the block header.
    MissingPreRuntimeDigest,
    /// Parent block doesn't contain any Babe information.
    ParentIsntBabeConsensus,
    /// Slot number must be strictly increasing between a parent and its child.
    SlotNumberNotIncreasing,
    /// Block contains an epoch change digest log, but no epoch change is to be performed.
    UnexpectedEpochChangeLog,
    /// Block is the first block after a new epoch, but it is missing an epoch change digest log.
    MissingEpochChangeLog,
    /// Authority index stored within block is out of range.
    InvalidAuthorityIndex,
    /// Block header signature is invalid.
    BadSignature,
    /// VRF proof in the block header is invalid.
    BadVrfProof,
    /// Block is a secondary slot claim and its author is not the expected author.
    BadSecondarySlotAuthor,
    /// VRF output is over threshold required to claim the primary slot.
    OverPrimaryClaimThreshold,
    /// Type of slot claim forbidden by current configuration.
    ForbiddenSlotType,
}

/// Verification in progress. The block is **not** fully verified yet. You must call
/// [`PendingVerify::finish`] in order to finish the verification.
#[must_use]
pub struct PendingVerify {
    /// Hash of the block header without its seal.
    pre_seal_hash: [u8; 32],
    /// Block signature contained in the header that we verify.
    seal_signature: Vec<u8>,
    /// If `Some`, block is at an epoch transition.
    /// This can only happen for blocks that are the first block of an epoch.
    epoch_transition_target: Option<NonZeroU64>,
    /// Epoch number the block belongs to.
    epoch_number: u64,
    /// Slot number the block belongs to.
    slot_number: u64,
    /// Index of the authority that has signed the block, according to the block header.
    authority_index: u32,
    /// If true, the slot claim is a primary claim. If false, a secondary claim.
    primary_slot_claim: bool,
    /// VRF output and proof contained in the block header. Cannot be `None` if
    /// `primary_slot_claim` is true.
    vrf_output_and_proof: Option<([u8; 32], [u8; 64])>,
}

/// What a [`PendingVerify`] knows of a block.
pub struct PendingState {
    /// Hash of the block header without its seal.
    pub pre_seal_hash: Seq<u8>,
    /// Block signature contained in the header.
    pub seal_signature: Seq<u8>,
    /// The epoch that the block describes, if it describes one.
    pub epoch_transition_target: Option<NonZeroU64>,
    /// Epoch number the block belongs to.
    pub epoch_number: u64,
    /// Slot number the block belongs to.
    pub slot_number: u64,
    /// Index of the authority that has signed the block, according to the block header.
    pub authority_index: u32,
    /// Whether the slot claim is a primary claim.
    pub primary_slot_claim: bool,
    /// VRF output and proof contained in the block header.
    pub vrf_output_and_proof: Option<(Seq<u8>, Seq<u8>)>,
}

impl PendingState {
    /// What holds of every verification in progress.
    pub open spec fn well_formed(self) -> bool {
        &&& self.pre_seal_hash.len() == 32
        &&& signature_decodes(self.seal_signature)
        &&& self.primary_slot_claim ==> self.vrf_output_and_proof is Some
        &&& self.vrf_output_and_proof matches Some((output, proof)) ==> output.len() == 32
            && proof.len() == 64
        &&& self.epoch_transition_target matches Some(target) ==> target@ == self.epoch_number + 1
    }

    /// What a successful verification reports.
    pub open spec fn success(self) -> VerifySuccess {
        VerifySuccess {
            slot_number: self.slot_number,
            epoch_number: self.epoch_number,
            epoch_transition_target: self.epoch_transition_target,
        }
    }
}

impl View for PendingVerify {
    type V = PendingState;

    closed spec fn view(&self) -> PendingState {
        PendingState {
            pre_seal_hash: self.pre_seal_hash@,
            seal_signature: self.seal_signature@,
            epoch_transition_target: self.epoch_transition_target,
            epoch_number: self.epoch_number,
            slot_number: self.slot_number,
            authority_index: self.authority_index,
            primary_slot_claim: self.primary_slot_claim,
            vrf_output_and_proof: match self.vrf_output_and_proof {
                Some((output, proof)) => Some((output@, proof@)),
                None => None,
            },
        }
    }
}

impl PendingVerify {
    #[verifier::type_invariant]
    spec fn type_wf(self) -> bool {
        self@.well_formed()
    }

    pub(crate) fn new(
        pre_seal_hash: [u8; 32],
        seal_signature: Vec<u8>,
        epoch_transition_target: Option<NonZeroU64>,
        epoch_number: u64,
        claim: &BabePreDigest,
    ) -> (pending: PendingVerify)
        requires
            signature_decodes(seal_signature@),
            epoch_transition_target matches Some(target) ==> target@ == epoch_number + 1,
        ensures
            pending@ == (PendingState {
                pre_seal_hash: pre_seal_hash@,
                seal_signature: seal_signature@,
                epoch_transition_target,
                epoch_number,
                slot_number: claim.spec_slot_number(),
                authority_index: claim.spec_authority_index(),
                primary_slot_claim: claim is Primary,
                vrf_output_and_proof: claim.spec_vrf(),
            }),
    {
        // Gather the BABE-related information from the header.
        let (authority_index, slot_number, primary_slot_claim, vrf_output_and_proof): (
            u32,
            u64,
            bool,
            Option<([u8; 32], [u8; 64])>,
        ) = match claim {
            BabePreDigest::Primary(digest) => (
                digest.authority_index,
                digest.slot_number,
                true,
                Some((digest.vrf_output, digest.vrf_proof)),
            ),
            BabePreDigest::SecondaryPlain(digest) => {
                (digest.authority_index, digest.slot_number, false, None)
            },
            BabePreDigest::SecondaryVRF(digest) => (
                digest.authority_index,
                digest.slot_number,
                false,
                Some((digest.vrf_output, digest.vrf_proof)),
            ),
        };
        PendingVerify {
            pre_seal_hash,
            seal_signature,
            epoch_transition_target,
            epoch_number,
            slot_number,
            authority_index,
            primary_slot_claim,
            vrf_output_and_proof,
        }
    }

    /// Returns the epoch number whose information must be passed to [`PendingVerify::finish`].
    pub fn epoch_number(&self) -> (epoch_number: u64)
        ensures
            epoch_number == self@.epoch_number,
    {
        self.epoch_number
    }

    /// Returns true if the epoch of the verified block is the same as its parent's.
    pub fn same_epoch_as_parent(&self) -> (same: bool)
        ensures
            same == (self@.epoch_transition_target is None),
    {
        self.epoch_transition_target.is_none()
    }
}

/// The slot claims that a configuration allows: every primary one, and the secondary ones of the
/// kind it names, if it names one.
pub open spec fn slot_type_is_allowed(
    allowed_slots: BabeAllowedSlots,
    primary_slot_claim: bool,
    has_vrf: bool,
) -> bool {
    match allowed_slots {
        BabeAllowedSlots::PrimarySlots => primary_slot_claim,
        BabeAllowedSlots::PrimaryAndSecondaryPlainSlots => primary_slot_claim || !has_vrf,
        BabeAllowedSlots::PrimaryAndSecondaryVRFSlots => primary_slot_claim || has_vrf,
    }
}

/// The index of the authority that a slot is assigned to, among as many as there are.
pub open spec fn assigned_authority(slot_hash: Seq<u8>, authorities: nat) -> nat {
    be_nat(slot_hash) % authorities
}

/// What a verification in progress comes to, given
///
/// - the number of authorities and the slot claims that are allowed,
/// - whether the seal is a valid signature,
/// - what was drawn from the VRF, if its proof is correct,
/// - the threshold of the author, which matters to primary claims,
/// - the hash that assigns the slot to an authority, which matters to secondary claims.
pub open spec fn conclusion(
    pending: PendingState,
    authorities: nat,
    allowed_slots: BabeAllowedSlots,
    seal_is_valid: bool,
    drawn: Option<Seq<u8>>,
    threshold: u128,
    slot_hash: Seq<u8>,
) -> Result<VerifySuccess, VerifyError> {
    if !slot_type_is_allowed(
        allowed_slots,
        pending.primary_slot_claim,
        pending.vrf_output_and_proof is Some,
    ) {
        Err(VerifyError::ForbiddenSlotType)
    } else if pending.authority_index >= authorities {
        Err(VerifyError::InvalidAuthorityIndex)
    } else if !seal_is_valid {
        Err(VerifyError::BadSignature)
    } else if pending.vrf_output_and_proof is Some && drawn is None {
        Err(VerifyError::BadVrfProof)
    } else if pending.primary_slot_claim && le_nat(drawn.unwrap()) >= threshold {
        Err(VerifyError::OverPrimaryClaimThreshold)
    } else if !pending.primary_slot_claim && assigned_authority(slot_hash, authorities)
        != pending.authority_index {
        Err(VerifyError::BadSecondarySlotAuthor)
    } else {
        Ok(pending.success())
    }
}

/// The messages that the VRF of a slot is run on.
pub open spec fn vrf_messages(slot_number: u64, epoch_number: u64, randomness: Seq<u8>) -> Seq<
    (Seq<u8>, Seq<u8>),
> {
    seq![
        (domain_separator(), VRF_TRANSCRIPT@),
        (SLOT_LABEL@, le_bytes(slot_number as nat, 8)),
        (EPOCH_LABEL@, le_bytes(epoch_number as nat, 8)),
        (RANDOMNESS_LABEL@, randomness),
    ]
}

/// The hash that assigns a slot to an authority: `blake2(randomness | slot_number)`.
pub open spec fn assignment_hash(randomness: Seq<u8>, slot_number: u64) -> Seq<u8> {
    blake2b_hash(32, randomness + le_bytes(slot_number as nat, 8))
}

/// The weights of some authorities.
pub open spec fn weights_of(authorities: Seq<BabeAuthority>) -> Seq<u64> {
    Seq::new(authorities.len(), |i: int| authorities[i].weight)
}

impl PendingState {
    /// The claim is of a type that is allowed, by an authority that exists.
    pub open spec fn is_admissible(self, epoch: BabeNextEpoch, config: BabeNextConfig) -> bool {
        &&& slot_type_is_allowed(
            config.allowed_slots,
            self.primary_slot_claim,
            self.vrf_output_and_proof is Some,
        )
        &&& self.authority_index < epoch.authorities@.len()
    }

    /// The authority that the block claims to be signed by.
    pub open spec fn author(self, epoch: BabeNextEpoch) -> BabeAuthority {
        epoch.authorities@[self.authority_index as int]
    }

    /// The author has signed the hash of the header without its seal.
    pub open spec fn seal_is_valid(self, epoch: BabeNextEpoch) -> bool {
        signature_verifies(
            self.author(epoch).public_key@,
            SEAL_CONTEXT@,
            self.pre_seal_hash,
            self.seal_signature,
        )
    }

    /// What is drawn from the VRF of the author on this slot, epoch and randomness, where the
    /// block holds a VRF output and a correct proof of it.
    pub open spec fn drawn(self, epoch: BabeNextEpoch) -> Option<Seq<u8>> {
        match self.vrf_output_and_proof {
            Some((output, proof)) => vrf_bytes(
                self.author(epoch).public_key@,
                vrf_messages(self.slot_number, self.epoch_number, epoch.randomness@),
                output,
                proof,
                VRF_CONTEXT@,
            ),
            None => None,
        }
    }

    /// Nothing is wrong with the block that comes before its claim to a primary slot is judged.
    pub open spec fn is_judged_by_threshold(
        self,
        epoch: BabeNextEpoch,
        config: BabeNextConfig,
    ) -> bool {
        &&& self.is_admissible(epoch, config)
        &&& self.seal_is_valid(epoch)
        &&& self.primary_slot_claim
        &&& self.drawn(epoch) is Some
    }

    /// `threshold` is the one that the claim is judged by, if it is judged by one.
    pub open spec fn has_threshold<F: Fn((u64, u64), u64, u64) -> ClaimProbability>(
        self,
        epoch: BabeNextEpoch,
        config: BabeNextConfig,
        claim_probability: F,
        threshold: u128,
    ) -> bool {
        self.is_judged_by_threshold(epoch, config) ==> is_primary_threshold(
            config.c,
            weights_of(epoch.authorities@),
            self.author(epoch).weight,
            claim_probability,
            threshold,
        )
    }

    /// What the verification comes to, the threshold of the author being `threshold`.
    pub open spec fn outcome(
        self,
        epoch: BabeNextEpoch,
        config: BabeNextConfig,
        threshold: u128,
    ) -> Result<VerifySuccess, VerifyError> {
        conclusion(
            self,
            epoch.authorities@.len(),
            config.allowed_slots,
            self.seal_is_valid(epoch),
            self.drawn(epoch),
            threshold,
            assignment_hash(epoch.randomness@, self.slot_number),
        )
    }

    /// `outcome` is what the verification comes to, with a threshold that belongs to an answer of
    /// `claim_probability` if the claim is judged by one.
    pub open spec fn is_outcome<F: Fn((u64, u64), u64, u64) -> ClaimProbability>(
        self,
        epoch: BabeNextEpoch,
        config: BabeNextConfig,
        claim_probability: F,
        outcome: Result<VerifySuccess, VerifyError>,
    ) -> bool {
        exists|threshold: u128|
            {
                &&& self.has_threshold(epoch, config, claim_probability, threshold)
                &&& outcome == #[trigger] self.outcome(epoch, config, threshold)
            }
    }

    /// As far as the verification gets, the public key of the author is one and the VRF proof can
    /// be read.
    pub open spec fn can_be_decoded(self, epoch: BabeNextEpoch, config: BabeNextConfig) -> bool {
        &&& self.is_admissible(epoch, config) ==> public_key_decodes(self.author(epoch).public_key@)
        &&& self.is_admissible(epoch, config) && self.seal_is_valid(epoch)
            && self.vrf_output_and_proof is Some ==> vrf_proof_decodes(
            self.vrf_output_and_proof.unwrap().1,
        )
    }

    /// What [`PendingVerify::finish`] needs: the key and the proof can be decoded, and the author
    /// has a threshold if the verification gets that far.
    pub open spec fn can_finish_with<F: Fn((u64, u64), u64, u64) -> ClaimProbability>(
        self,
        epoch: BabeNextEpoch,
        config: BabeNextConfig,
        claim_probability: F,
    ) -> bool {
        &&& self.can_be_decoded(epoch, config)
        &&& self.is_judged_by_threshold(epoch, config) ==> threshold_is_defined(
            config.c,
            weights_of(epoch.authorities@),
            self.author(epoch).weight,
            claim_probability,
        )
    }

    /// The part of [`PendingState::can_finish_with`] that no answer about probabilities has a
    /// part in, with `c` below one, without which there is no threshold.
    pub open spec fn can_finish(self, epoch: BabeNextEpoch, config: BabeNextConfig) -> bool {
        &&& self.can_be_decoded(epoch, config)
        &&& self.is_judged_by_threshold(epoch, config) ==> {
            &&& self.author(epoch).weight != 0
            &&& config.c.0 < config.c.1
            &&& total_weight(weights_of(epoch.authorities@)) <= u64::MAX
        }
    }
}

/// `claim_probability` answers about every odds with a proper fraction.
pub open spec fn always_gives_probability<F: Fn((u64, u64), u64, u64) -> ClaimProbability>(
    claim_probability: F,
) -> bool {
    forall|c: (u64, u64), authority_weight: u64, total: u64|
        c.0 < c.1 && 0 < authority_weight <= total ==> #[trigger] gives_probability(
            claim_probability,
            c,
            authority_weight,
            total,
        )
}

/// Builds the transcript that the VRF of a slot is run on.
fn make_transcript(slot_number: u64, epoch_number: u64, randomness: &[u8; 32]) -> (transcript:
    merlin::Transcript)
    ensures
        transcript_messages(transcript) == vrf_messages(slot_number, epoch_number, randomness@),
{
    let mut transcript = transcript_new(&VRF_TRANSCRIPT);
    append_u64(&mut transcript, &SLOT_LABEL, slot_number);
    append_u64(&mut transcript, &EPOCH_LABEL, epoch_number);
    append_message(&mut transcript, &RANDOMNESS_LABEL, randomness.as_slice());
    assert(transcript_messages(transcript) =~= vrf_messages(
        slot_number,
        epoch_number,
        randomness@,
    ));
    transcript
}

/// Calculates the hash that assigns a slot to an authority.
fn make_assignment_hash(randomness: &[u8; 32], slot_number: u64) -> (hash: Vec<u8>)
    ensures
        hash@ == assignment_hash(randomness@, slot_number),
{
    let mut data: Vec<u8> = Vec::new();
    data.extend_from_slice(randomness.as_slice());
    let slot_bytes = u64_le_bytes(slot_number);
    data.extend_from_slice(slot_bytes.as_slice());
    assert(data@ =~= randomness@ + le_bytes(slot_number as nat, 8));
    blake2b(32, data.as_slice())
}

/// Lists the weights of some authorities.
fn list_weights(authorities: &Vec<BabeAuthority>) -> (weights: Vec<u64>)
    ensures
        weights@ == weights_of(authorities@),
{
    let mut weights: Vec<u64> = Vec::new();
    for i in 0usize..authorities.len()
        invariant
            weights@.len() == i,
            forall|j: int| 0 <= j < i ==> weights@[j] == authorities@[j].weight,
    {
        weights.push(authorities[i].weight);
    }
    assert(weights@ =~= weights_of(authorities@));
    weights
}

/// Tells whether a slot is assigned to the authority of a given index.
pub fn is_assigned_to(slot_hash: &[u8], authorities: usize, authority_index: u32) -> (assigned:
    bool)
    requires
        authorities != 0,
    ensures
        assigned == (assigned_authority(slot_hash@, authorities as nat) == authority_index),
{
    // The expected authority index is `hash % num_authorities`.
    let expected = remainder(slot_hash, authorities);
    match to_u32(expected.as_slice()) {
        Some(expected_authority_index) => expected_authority_index == authority_index,
        None => false,
    }
}

/// Tells whether a configuration allows a type of slot claim.
pub fn allows_slot_type(
    allowed_slots: BabeAllowedSlots,
    primary_slot_claim: bool,
    has_vrf: bool,
) -> (allowed: bool)
    ensures
        allowed == slot_type_is_allowed(allowed_slots, primary_slot_claim, has_vrf),
{
    match (allowed_slots, primary_slot_claim, has_vrf) {
        (_, true, _) => true,
        (BabeAllowedSlots::PrimaryAndSecondaryPlainSlots, false, false) => true,
        (BabeAllowedSlots::PrimaryAndSecondaryVRFSlots, false, true) => true,
        _ => false,
    }
}

impl PendingVerify {
    /// Concludes the verification from what there is to know about the epoch, the seal and the
    /// slot claim.
    pub fn conclude(
        &self,
        authorities: usize,
        allowed_slots: BabeAllowedSlots,
        seal_is_valid: bool,
        drawn: Option<[u8; 16]>,
        threshold: u128,
        slot_hash: &[u8],
    ) -> (outcome: Result<VerifySuccess, VerifyError>)
        ensures
            outcome == conclusion(
                self@,
                authorities as nat,
                allowed_slots,
                seal_is_valid,
                match drawn {
                    Some(bytes) => Some(bytes@),
                    None => None,
                },
                threshold,
                slot_hash@,
            ),
    {
        proof {
            use_type_invariant(self);
        }
        // Check that the claim is one of the allowed slot types.
        if !allows_slot_type(
            allowed_slots,
            self.primary_slot_claim,
            self.vrf_output_and_proof.is_some(),
        ) {
            return Err(VerifyError::ForbiddenSlotType);
        }
        if self.authority_index as usize >= authorities {
            return Err(VerifyError::InvalidAuthorityIndex);
        }
        if !seal_is_valid {
            return Err(VerifyError::BadSignature);
        }
        if self.vrf_output_and_proof.is_some() {
            match drawn {
                Some(bytes) => {
                    // If this is a primary slot claim, we need to make sure that the VRF output is
                    // below a certain threshold, otherwise all the authorities could claim all the
                    // slots.
                    if self.primary_slot_claim && u128_from_le(&bytes) >= threshold {
                        return Err(VerifyError::OverPrimaryClaimThreshold);
                    }
                },
                None => {
                    return Err(VerifyError::BadVrfProof);
                },
            }
        }
        // Each slot can be claimed by one specific authority in what is called a secondary slot
        // claim. If the block is a secondary slot claim, we need to make sure that the author
        // is indeed the one that is expected.
        if !self.primary_slot_claim && !is_assigned_to(
            slot_hash,
            authorities,
            self.authority_index,
        ) {
            return Err(VerifyError::BadSecondarySlotAuthor);
        }
        Ok(
            VerifySuccess {
                slot_number: self.slot_number,
                epoch_number: self.epoch_number,
                epoch_transition_target: self.epoch_transition_target,
            },
        )
    }

    /// Verifies the seal of the block against the public key of its author.
    fn verify_seal(&self, epoch: &BabeNextEpoch) -> (valid: bool)
        requires
            self@.authority_index < epoch.authorities@.len(),
            public_key_decodes(self@.author(*epoch).public_key@),
        ensures
            valid == self@.seal_is_valid(*epoch),
    {
        proof {
            use_type_invariant(self);
        }
        verify_simple(
            epoch.authorities[self.authority_index as usize].public_key.as_slice(),
            SEAL_CONTEXT.as_slice(),
            self.pre_seal_hash.as_slice(),
            self.seal_signature.as_slice(),
        )
    }

    /// Verifies the VRF output and proof of the block, if it has any, and draws from it.
    fn verify_vrf(&self, epoch: &BabeNextEpoch) -> (drawn: Option<[u8; 16]>)
        requires
            self@.authority_index < epoch.authorities@.len(),
            public_key_decodes(self@.author(*epoch).public_key@),
            self@.vrf_output_and_proof is Some ==> vrf_proof_decodes(
                self@.vrf_output_and_proof.unwrap().1,
            ),
        ensures
            drawn matches Some(bytes) ==> self@.drawn(*epoch) == Some(bytes@),
            drawn is None ==> self@.drawn(*epoch) is None,
    {
        match &self.vrf_output_and_proof {
            Some((output, proof)) => vrf_verify(
                epoch.authorities[self.authority_index as usize].public_key.as_slice(),
                make_transcript(self.slot_number, self.epoch_number, &epoch.randomness),
                output,
                proof,
                VRF_CONTEXT.as_slice(),
            ),
            None => None,
        }
    }

    /// Finishes the verification. Must provide the information about the epoch whose number is
    /// obtained with [`PendingVerify::epoch_number`].
    ///
    /// `claim_probability` is the one of [`calculate_primary_threshold`].
    pub fn finish<F: Fn((u64, u64), u64, u64) -> ClaimProbability>(
        self,
        epoch_info: (&BabeNextEpoch, BabeNextConfig),
        claim_probability: &F,
    ) -> (outcome: Result<VerifySuccess, VerifyError>)
        requires
            self@.can_finish_with(*epoch_info.0, epoch_info.1, *claim_probability),
        ensures
            self@.is_outcome(*epoch_info.0, epoch_info.1, *claim_probability, outcome),
            self@.well_formed(),
            outcome matches Ok(success) ==> (success.epoch_transition_target matches Some(target)
                ==> target@ == success.epoch_number + 1),
    {
        proof {
            use_type_invariant(&self);
        }
        let (epoch, config) = epoch_info;
        let mut seal_is_valid: bool = false;
        let mut drawn: Option<[u8; 16]> = None;
        let mut threshold: u128 = 0;
        let mut slot_hash: Vec<u8> = Vec::new();

        if (self.authority_index as usize) < epoch.authorities.len() && allows_slot_type(
            config.allowed_slots,
            self.primary_slot_claim,
            self.vrf_output_and_proof.is_some(),
        ) {
            seal_is_valid = self.verify_seal(epoch);
            if seal_is_valid {
                drawn = self.verify_vrf(epoch);
                if self.primary_slot_claim && drawn.is_some() {
                    threshold =
                    calculate_primary_threshold(
                        config.c,
                        &list_weights(&epoch.authorities),
                        epoch.authorities[self.authority_index as usize].weight,
                        claim_probability,
                    );
                }
                if !self.primary_slot_claim {
                    slot_hash = make_assignment_hash(&epoch.randomness, self.slot_number);
                }
            }
        }
        let outcome = self.conclude(
            epoch.authorities.len(),
            config.allowed_slots,
            seal_is_valid,
            drawn,
            threshold,
            slot_hash.as_slice(),
        );
        assert(outcome == self@.outcome(*epoch, config, threshold));
        outcome
    }
}

proof fn lemma_weight_is_part_of_total(weights: Seq<u64>, index: int)
    requires
        0 <= index < weights.len(),
    ensures
        weights[index] <= total_weight(weights),
    decreases weights.len(),
{
    if index < weights.len() - 1 {
        lemma_weight_is_part_of_total(weights.drop_last(), index);
    }
}

pub(crate) proof fn lemma_can_finish_with<F: Fn((u64, u64), u64, u64) -> ClaimProbability>(
    pending: PendingState,
    epoch: BabeNextEpoch,
    config: BabeNextConfig,
    claim_probability: F,
)
    requires
        pending.can_finish(epoch, config),
        always_gives_probability(claim_probability),
    ensures
        pending.can_finish_with(epoch, config, claim_probability),
{
    if pending.is_judged_by_threshold(epoch, config) {
        let weights = weights_of(epoch.authorities@);
        lemma_weight_is_part_of_total(weights, pending.authority_index as int);
        assert(gives_probability(
            claim_probability,
            config.c,
            pending.author(epoch).weight,
            total_weight(weights) as u64,
        ));
    }
}

impl PendingVerify {
    /// Tells whether the information about an epoch is good enough to finish the verification
    /// with.
    pub fn can_finish(&self, epoch_info: (&BabeNextEpoch, BabeNextConfig)) -> (possible: bool)
        ensures
            possible == self@.can_finish(*epoch_info.0, epoch_info.1),
    {
        let (epoch, config) = epoch_info;
        if (self.authority_index as usize) >= epoch.authorities.len() || !allows_slot_type(
            config.allowed_slots,
            self.primary_slot_claim,
            self.vrf_output_and_proof.is_some(),
        ) {
            return true;
        }
        let authority: &BabeAuthority = &epoch.authorities[self.authority_index as usize];
        if !decode_public_key(authority.public_key.as_slice()) {
            return false;
        }
        if !self.verify_seal(epoch) {
            return true;
        }
        match &self.vrf_output_and_proof {
            Some((_, proof)) => {
                if !decode_vrf_proof(proof.as_slice()) {
                    return false;
                }
            },
            None => {},
        }
        if !self.primary_slot_claim || self.verify_vrf(epoch).is_none() {
            return true;
        }
        authority.weight != 0 && config.c.0 < config.c.1 && sum_weights(
            &list_weights(&epoch.authorities),
        ).is_some()
    }

    /// Does what [`PendingVerify::finish`] does, unless the information about the epoch is not
    /// good enough for it: the public key of the author is none, the VRF proof cannot be read, or
    /// the author has no threshold. It then returns `None`.
    pub fn checked_finish<F: Fn((u64, u64), u64, u64) -> ClaimProbability>(
        self,
        epoch_info: (&BabeNextEpoch, BabeNextConfig),
        claim_probability: &F,
    ) -> (outcome: Option<Result<VerifySuccess, VerifyError>>)
        requires
            always_gives_probability(*claim_probability),
        ensures
            outcome is Some == self@.can_finish(*epoch_info.0, epoch_info.1),
            outcome matches Some(finished) ==> self@.is_outcome(
                *epoch_info.0,
                epoch_info.1,
                *claim_probability,
                finished,
            ),
            self@.well_formed(),
            outcome matches Some(Ok(success)) ==> (
            success.epoch_transition_target matches Some(target) ==> target@
                == success.epoch_number + 1),
    {
        proof {
            use_type_invariant(&self);
        }
        if self.can_finish(epoch_info) {
            proof {
                lemma_can_finish_with(self@, *epoch_info.0, epoch_info.1, *claim_probability);
            }
            Some(self.finish(epoch_info, claim_probability))
        } else {
            None
        }
    }
}

} // verus!
