//! The parts of a block header, and of the BABE configuration, that authorship rests on.
use vstd::prelude::*;

verus! {

/// A number other than zero.
#[derive(Clone, Copy, Debug, PartialEq, Eq, Structural)]
pub struct NonZeroU64 {
    value: u64,
}

impl View for NonZeroU64 {
    type V = u64;

    closed spec fn view(&self) -> u64 {
        self.value
    }
}

/// The [`NonZeroU64`] that holds `value`.
pub closed spec fn nonzero(value: u64) -> NonZeroU64 {
    NonZeroU64 { value }
}

/// A [`NonZeroU64`] is told from others by the number it holds alone.
pub broadcast proof fn lemma_nonzero(value: u64)
    ensures
        #[trigger] nonzero(value)@ == value,
{
}

impl NonZeroU64 {
    #[verifier::type_invariant]
    spec fn not_zero(self) -> bool {
        self.value != 0
    }

    /// Wraps `value`, unless it is zero.
    pub fn new(value: u64) -> (wrapped: Option<NonZeroU64>)
        ensures
            wrapped == (if value == 0 {
                None
            } else {
                Some(nonzero(value))
            }),
    {
        if value == 0 {
            None
        } else {
            Some(NonZeroU64 { value })
        }
    }

    /// The number.
    pub fn get(self) -> (value: u64)
        ensures
            value == self@,
            self == nonzero(value),
            value != 0,
    {
        proof {
            use_type_invariant(&self);
        }
        self.value
    }
}

/// What a slot claim by VRF holds in a block header.
#[derive(Clone, Copy, Debug, PartialEq, Eq)]
pub struct BabePrimaryPreDigest {
    /// Index, in the list of authorities of the epoch, of the author of the block.
    pub authority_index: u32,
    /// Slot that the block claims.
    pub slot_number: u64,
    /// VRF output.
    pub vrf_output: [u8; 32],
    /// Proof that the author generated the VRF output correctly.
    pub vrf_proof: [u8; 64],
}

/// What a secondary slot claim without a VRF output holds in a block header.
#[derive(Clone, Copy, Debug, PartialEq, Eq)]
pub struct BabeSecondaryPlainPreDigest {
    /// Index, in the list of authorities of the epoch, of the author of the block.
    pub authority_index: u32,
    /// Slot that the block claims.
    pub slot_number: u64,
}

/// What a secondary slot claim with a VRF output holds in a block header.
#[derive(Clone, Copy, Debug, PartialEq, Eq)]
pub struct BabeSecondaryVRFPreDigest {
    /// Index, in the list of authorities of the epoch, of the author of the block.
    pub authority_index: u32,
    /// Slot that the block claims.
    pub slot_number: u64,
    /// VRF output.
    pub vrf_output: [u8; 32],
    /// Proof that the author generated the VRF output correctly.
    pub vrf_proof: [u8; 64],
}

/// The slot claim that a block header holds.
#[derive(Clone, Copy, Debug, PartialEq, Eq)]
pub enum BabePreDigest {
    /// The VRF output of the author is low enough.
    Primary(BabePrimaryPreDigest),
    /// The slot is assigned to the author.
    SecondaryPlain(BabeSecondaryPlainPreDigest),
    /// The slot is assigned to the author, who gives a VRF output nonetheless.
    SecondaryVRF(BabeSecondaryVRFPreDigest),
}

impl BabePreDigest {
    /// The slot that is claimed.
    pub open spec fn spec_slot_number(self) -> u64 {
        match self {
            BabePreDigest::Primary(digest) => digest.slot_number,
            BabePreDigest::SecondaryPlain(digest) => digest.slot_number,
            BabePreDigest::SecondaryVRF(digest) => digest.slot_number,
        }
    }

    /// The index of the authority that claims it.
    pub open spec fn spec_authority_index(self) -> u32 {
        match self {
            BabePreDigest::Primary(digest) => digest.authority_index,
            BabePreDigest::SecondaryPlain(digest) => digest.authority_index,
            BabePreDigest::SecondaryVRF(digest) => digest.authority_index,
        }
    }

    /// The VRF output and its proof, where the claim has them.
    pub open spec fn spec_vrf(self) -> Option<(Seq<u8>, Seq<u8>)> {
        match self {
            BabePreDigest::Primary(digest) => Some((digest.vrf_output@, digest.vrf_proof@)),
            BabePreDigest::SecondaryPlain(_) => None,
            BabePreDigest::SecondaryVRF(digest) => Some((digest.vrf_output@, digest.vrf_proof@)),
        }
    }

    /// Returns the slot that is claimed.
    pub fn slot_number(&self) -> (slot_number: u64)
        ensures
            slot_number == self.spec_slot_number(),
    {
        match self {
            BabePreDigest::Primary(digest) => digest.slot_number,
            BabePreDigest::SecondaryPlain(digest) => digest.slot_number,
            BabePreDigest::SecondaryVRF(digest) => digest.slot_number,
        }
    }
}

/// A public key that may sign blocks.
#[derive(Clone, Copy, Debug, PartialEq, Eq)]
pub struct BabeAuthority {
    /// Schnorrkel public key.
    pub public_key: [u8; 32],
    /// Arbitrary number. The higher it is compared with those of the other authorities, the more
    /// slots the authority may claim.
    pub weight: u64,
}

/// Who may sign the blocks of an epoch.
#[derive(Clone, Debug, PartialEq, Eq)]
pub struct BabeNextEpoch {
    /// The authorities of the epoch.
    pub authorities: Vec<BabeAuthority>,
    /// The randomness value of the epoch.
    pub randomness: [u8; 32],
}

/// The kinds of slot claim that a configuration allows.
#[derive(Clone, Copy, Debug, PartialEq, Eq, Structural)]
pub enum BabeAllowedSlots {
    /// Primary claims alone.
    PrimarySlots,
    /// Primary claims, and secondary ones without a VRF output.
    PrimaryAndSecondaryPlainSlots,
    /// Primary claims, and secondary ones with a VRF output.
    PrimaryAndSecondaryVRFSlots,
}

/// The constants of an epoch.
#[derive(Clone, Copy, Debug, PartialEq, Eq)]
pub struct BabeNextConfig {
    /// Numerator and denominator of `c`; `1 - c` is the probability that a slot is empty.
    pub c: (u64, u64),
    /// The slot claims that are allowed.
    pub allowed_slots: BabeAllowedSlots,
}

/// The BABE configuration that the genesis block gives.
#[derive(Clone, Debug, PartialEq, Eq)]
pub struct BabeGenesisConfiguration {
    /// Number of slots in every epoch.
    pub slots_per_epoch: NonZeroU64,
    /// The constants of epoch 0.
    pub epoch0_configuration: BabeNextConfig,
    /// Who may sign the blocks of epoch 0.
    pub epoch0_information: BabeNextEpoch,
}

/// The BABE entries in the digest of a block header.
#[derive(Clone, Debug, PartialEq, Eq)]
pub struct Digest {
    /// The slot claim.
    pub babe_pre_runtime: Option<BabePreDigest>,
    /// Who may sign the blocks of the epoch after the one that the block starts, and the
    /// constants of that epoch where they change.
    pub babe_epoch_information: Option<(BabeNextEpoch, Option<BabeNextConfig>)>,
    /// The signature of the author.
    pub babe_seal: Option<Vec<u8>>,
}

/// A decoded block header.
#[derive(Clone, Debug, PartialEq, Eq)]
pub struct Header {
    /// Number of the block.
    pub number: u64,
    /// Hash of the header with the seal taken out of its digest: what the author signs.
    pub hash_without_seal: [u8; 32],
    /// The BABE entries of the digest.
    pub digest: Digest,
}

/// Whatever its type, a claim is to the slot and by the authority that it holds.
pub proof fn law_claims_hold_slot_and_author(
    primary: BabePrimaryPreDigest,
    plain: BabeSecondaryPlainPreDigest,
    with_vrf: BabeSecondaryVRFPreDigest,
)
    ensures
        BabePreDigest::Primary(primary).spec_slot_number() == primary.slot_number,
        BabePreDigest::SecondaryPlain(plain).spec_slot_number() == plain.slot_number,
        BabePreDigest::SecondaryVRF(with_vrf).spec_slot_number() == with_vrf.slot_number,
        BabePreDigest::Primary(primary).spec_authority_index() == primary.authority_index,
        BabePreDigest::SecondaryPlain(plain).spec_authority_index() == plain.authority_index,
        BabePreDigest::SecondaryVRF(with_vrf).spec_authority_index() == with_vrf.authority_index,
{
}

/// Primary claims, and secondary ones of the type that has one, come with the VRF output and the
/// proof that they hold. Plain secondary claims come with none.
pub proof fn law_claims_hold_vrf(
    primary: BabePrimaryPreDigest,
    plain: BabeSecondaryPlainPreDigest,
    with_vrf: BabeSecondaryVRFPreDigest,
)
    ensures
        BabePreDigest::Primary(primary).spec_vrf() == Some(
            (primary.vrf_output@, primary.vrf_proof@),
        ),
        BabePreDigest::SecondaryPlain(plain).spec_vrf() is None,
        BabePreDigest::SecondaryVRF(with_vrf).spec_vrf() == Some(
            (with_vrf.vrf_output@, with_vrf.vrf_proof@),
        ),
{
}

} // verus!
