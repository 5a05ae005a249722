use babe::header::{
    BabeAllowedSlots, BabeAuthority, BabeGenesisConfiguration, BabeNextConfig, BabeNextEpoch,
    BabePreDigest, BabePrimaryPreDigest, BabeSecondaryPlainPreDigest, BabeSecondaryVRFPreDigest,
    Digest, Header, NonZeroU64,
};
use babe::pending::{PendingVerify, VerifyError, VerifySuccess};
use babe::threshold::ClaimProbability;
use babe::verify::{
    begin_verify_header, check_config, checked_start_verify_header, start_verify_header,
    SuccessOrPending, VerifyConfig,
};
use schnorrkel::{ExpansionMode, Keypair, MiniSecretKey};
use std::time::Duration;

const SLOTS_PER_EPOCH: u64 = 100;
const BLOCK_1_SLOT: u64 = 1000;

/// With this randomness, slot 1000 is assigned to the last of three authorities, slot 1001 to the
/// first.
fn randomness() -> [u8; 32] {
    let mut bytes = [0u8; 32];
    for (i, byte) in bytes.iter_mut().enumerate() {
        *byte = i as u8;
    }
    bytes
}

fn keypair(index: u8) -> Keypair {
    MiniSecretKey::from_bytes(&[index + 1; 32])
        .unwrap()
        .expand_to_keypair(ExpansionMode::Ed25519)
}

fn epoch_info() -> BabeNextEpoch {
    BabeNextEpoch {
        authorities: (0..3)
            .map(|i| BabeAuthority {
                public_key: keypair(i).public.to_bytes(),
                weight: 10 * (i as u64 + 1),
            })
            .collect(),
        randomness: randomness(),
    }
}

fn config_allowing(allowed_slots: BabeAllowedSlots) -> BabeNextConfig {
    BabeNextConfig {
        c: (1, 4),
        allowed_slots,
    }
}

fn genesis_allowing(allowed_slots: BabeAllowedSlots) -> BabeGenesisConfiguration {
    BabeGenesisConfiguration {
        slots_per_epoch: NonZeroU64::new(SLOTS_PER_EPOCH).unwrap(),
        epoch0_configuration: config_allowing(allowed_slots),
        epoch0_information: epoch_info(),
    }
}

fn genesis() -> BabeGenesisConfiguration {
    genesis_allowing(BabeAllowedSlots::PrimaryAndSecondaryPlainSlots)
}

fn plain_claim(authority_index: u32, slot_number: u64) -> BabePreDigest {
    BabePreDigest::SecondaryPlain(BabeSecondaryPlainPreDigest {
        authority_index,
        slot_number,
    })
}

fn vrf_of(author: u8, slot_number: u64, epoch_number: u64) -> ([u8; 32], [u8; 64]) {
    let mut transcript = merlin::Transcript::new(b"BABE");
    transcript.append_u64(b"slot number", slot_number);
    transcript.append_u64(b"current epoch", epoch_number);
    transcript.append_message(b"chain randomness", &randomness());
    let (in_out, proof, _) = keypair(author).vrf_sign(transcript);
    (in_out.to_preout().to_bytes(), proof.to_bytes())
}

fn primary_claim(author: u8, slot_number: u64, epoch_number: u64) -> BabePreDigest {
    let (vrf_output, vrf_proof) = vrf_of(author, slot_number, epoch_number);
    BabePreDigest::Primary(BabePrimaryPreDigest {
        authority_index: author as u32,
        slot_number,
        vrf_output,
        vrf_proof,
    })
}

fn secondary_vrf_claim(author: u8, slot_number: u64, epoch_number: u64) -> BabePreDigest {
    let (vrf_output, vrf_proof) = vrf_of(author, slot_number, epoch_number);
    BabePreDigest::SecondaryVRF(BabeSecondaryVRFPreDigest {
        authority_index: author as u32,
        slot_number,
        vrf_output,
        vrf_proof,
    })
}

/// A header sealed by `author`.
fn header(number: u64, claim: BabePreDigest, describes_epoch: bool, author: u8) -> Header {
    let mut hash_without_seal = [7u8; 32];
    hash_without_seal[0] = number as u8;
    Header {
        number,
        hash_without_seal,
        digest: Digest {
            babe_pre_runtime: Some(claim),
            babe_epoch_information: if describes_epoch {
                Some((epoch_info(), None))
            } else {
                None
            },
            babe_seal: Some(
                keypair(author)
                    .sign_simple(b"substrate", &hash_without_seal)
                    .to_bytes()
                    .to_vec(),
            ),
        },
    }
}

fn genesis_header() -> Header {
    Header {
        number: 0,
        hash_without_seal: [0; 32],
        digest: Digest {
            babe_pre_runtime: None,
            babe_epoch_information: None,
            babe_seal: None,
        },
    }
}

fn half(_: (u64, u64), _: u64, _: u64) -> ClaimProbability {
    ClaimProbability {
        numerator: vec![1],
        denominator: vec![2],
    }
}

fn almost_one(_: (u64, u64), _: u64, _: u64) -> ClaimProbability {
    let mut numerator = vec![255u8; 17];
    numerator[16] = 254;
    ClaimProbability {
        numerator,
        denominator: vec![255; 17],
    }
}

fn zero(_: (u64, u64), _: u64, _: u64) -> ClaimProbability {
    ClaimProbability {
        numerator: vec![0],
        denominator: vec![1],
    }
}

fn configure<'a>(
    header: &'a Header,
    parent_block_header: &'a Header,
    genesis_configuration: &'a BabeGenesisConfiguration,
    block1_slot_number: Option<u64>,
) -> VerifyConfig<'a> {
    VerifyConfig {
        header,
        now_from_unix_epoch: Duration::from_secs(0),
        parent_block_header,
        genesis_configuration,
        block1_slot_number,
    }
}

/// Starts the verification of a child of block #1, where the configuration makes sense.
fn start(header: &Header, parent: &Header) -> Result<SuccessOrPending, VerifyError> {
    let genesis = genesis();
    let config = configure(header, parent, &genesis, Some(BLOCK_1_SLOT));
    assert!(check_config(&config));
    start_verify_header(config, &half)
}

fn error_of(outcome: Result<SuccessOrPending, VerifyError>) -> VerifyError {
    match outcome {
        Ok(_) => panic!("the block was not refused"),
        Err(error) => error,
    }
}

fn success_of(outcome: Result<SuccessOrPending, VerifyError>) -> VerifySuccess {
    match outcome {
        Ok(SuccessOrPending::Success(success)) => success,
        Ok(SuccessOrPending::Pending(_)) => panic!("the block was left pending"),
        Err(error) => panic!("the block was refused: {:?}", error),
    }
}

fn pending_of(outcome: Result<SuccessOrPending, VerifyError>) -> PendingVerify {
    match outcome {
        Ok(SuccessOrPending::Pending(pending)) => pending,
        Ok(SuccessOrPending::Success(_)) => panic!("the block was verified"),
        Err(error) => panic!("the block was refused: {:?}", error),
    }
}

fn block_1() -> Header {
    header(1, plain_claim(2, BLOCK_1_SLOT), true, 2)
}

/// A block of epoch 1, slot 1100, after a parent in slot 1000.
fn pending_in_epoch_1(claim: BabePreDigest, author: u8) -> PendingVerify {
    pending_of(start(&header(2, claim, true, author), &block_1()))
}

/// The authority that slot 1100 is assigned to, among three.
fn owner_of_slot_1100() -> u8 {
    let mut hash = blake2_rfc::blake2b::Blake2b::new(32);
    hash.update(&randomness());
    hash.update(&1100u64.to_le_bytes());
    let value = num_bigint::BigUint::from_bytes_be(hash.finalize().as_bytes());
    u8::try_from(value % num_bigint::BigUint::from(3u8)).unwrap()
}

#[test]
fn block_1_is_verified_without_its_slot_number() {
    let (block, parent, genesis) = (block_1(), genesis_header(), genesis());
    let success = success_of(start_verify_header(
        configure(&block, &parent, &genesis, None),
        &half,
    ));
    assert_eq!(success.slot_number, BLOCK_1_SLOT);
    assert_eq!(success.epoch_number, 0);
    assert_eq!(success.epoch_transition_target, NonZeroU64::new(1));
}

#[test]
fn block_1_is_verified_with_its_slot_number() {
    let (block, parent, genesis) = (block_1(), genesis_header(), genesis());
    let success = success_of(start_verify_header(
        configure(&block, &parent, &genesis, Some(BLOCK_1_SLOT)),
        &half,
    ));
    assert_eq!(success.epoch_number, 0);
    assert_eq!(success.epoch_transition_target, NonZeroU64::new(1));
}

#[test]
fn block_1_must_describe_epoch_1() {
    let block = header(1, plain_claim(2, BLOCK_1_SLOT), false, 2);
    let (parent, genesis) = (genesis_header(), genesis());
    let outcome = start_verify_header(configure(&block, &parent, &genesis, None), &half);
    assert_eq!(error_of(outcome), VerifyError::MissingEpochChangeLog);
}

#[test]
fn later_block_of_epoch_0_is_verified_at_once() {
    let success = success_of(start(
        &header(2, plain_claim(0, 1001), false, 0),
        &block_1(),
    ));
    assert_eq!(
        success,
        VerifySuccess {
            slot_number: 1001,
            epoch_number: 0,
            epoch_transition_target: None,
        }
    );
}

#[test]
fn missing_pre_runtime_digest() {
    let mut block = header(2, plain_claim(0, 1001), false, 0);
    block.digest.babe_pre_runtime = None;
    assert_eq!(
        error_of(start(&block, &block_1())),
        VerifyError::MissingPreRuntimeDigest
    );
}

#[test]
fn parent_isnt_babe_consensus() {
    let mut parent = block_1();
    parent.digest.babe_pre_runtime = None;
    assert_eq!(
        error_of(start(&header(2, plain_claim(0, 1001), false, 0), &parent)),
        VerifyError::ParentIsntBabeConsensus
    );
}

#[test]
fn slot_number_not_increasing() {
    let parent = header(2, plain_claim(0, 1001), false, 0);
    for slot_number in [1000, 1001] {
        assert_eq!(
            error_of(start(
                &header(3, plain_claim(0, slot_number), false, 0),
                &parent
            )),
            VerifyError::SlotNumberNotIncreasing
        );
    }
}

#[test]
fn unexpected_epoch_change_log() {
    assert_eq!(
        error_of(start(&header(2, plain_claim(0, 1001), true, 0), &block_1())),
        VerifyError::UnexpectedEpochChangeLog
    );
}

#[test]
fn missing_epoch_change_log() {
    assert_eq!(
        error_of(start(
            &header(2, plain_claim(0, 1100), false, 0),
            &block_1()
        )),
        VerifyError::MissingEpochChangeLog
    );
}

#[test]
fn missing_seal() {
    let mut block = header(2, plain_claim(0, 1001), false, 0);
    block.digest.babe_seal = None;
    assert_eq!(error_of(start(&block, &block_1())), VerifyError::MissingSeal);
}

#[test]
fn missing_epoch_change_log_comes_before_missing_seal() {
    let mut block = header(2, plain_claim(0, 1100), false, 0);
    block.digest.babe_seal = None;
    assert_eq!(
        error_of(start(&block, &block_1())),
        VerifyError::MissingEpochChangeLog
    );
}

#[test]
fn seal_that_cannot_be_read() {
    let good = header(2, plain_claim(0, 1001), false, 0);
    let seal = good.digest.babe_seal.clone().unwrap();

    let mut short = good.clone();
    short.digest.babe_seal = Some(seal[..63].to_vec());
    assert_eq!(error_of(start(&short, &block_1())), VerifyError::BadSignature);

    let mut unmarked = good.clone();
    let mut bytes = seal.clone();
    bytes[63] &= 127;
    unmarked.digest.babe_seal = Some(bytes);
    assert_eq!(
        error_of(start(&unmarked, &block_1())),
        VerifyError::BadSignature
    );

    let mut not_a_scalar = good.clone();
    not_a_scalar.digest.babe_seal = Some(vec![255; 64]);
    assert_eq!(
        error_of(start(&not_a_scalar, &block_1())),
        VerifyError::BadSignature
    );
}

#[test]
fn unreadable_seal_of_a_later_epoch_is_refused_at_once() {
    let mut block = header(2, plain_claim(0, 1100), true, 0);
    block.digest.babe_seal = Some(Vec::new());
    assert_eq!(error_of(start(&block, &block_1())), VerifyError::BadSignature);
}

#[test]
fn seal_by_another_authority() {
    assert_eq!(
        error_of(start(&header(2, plain_claim(0, 1001), false, 1), &block_1())),
        VerifyError::BadSignature
    );
}

#[test]
fn seal_of_another_header() {
    let mut block = header(2, plain_claim(0, 1001), false, 0);
    block.hash_without_seal[5] ^= 1;
    assert_eq!(error_of(start(&block, &block_1())), VerifyError::BadSignature);
}

#[test]
fn invalid_authority_index() {
    assert_eq!(
        error_of(start(&header(2, plain_claim(3, 1001), false, 0), &block_1())),
        VerifyError::InvalidAuthorityIndex
    );
}

#[test]
fn bad_secondary_slot_author() {
    for author in [1, 2] {
        assert_eq!(
            error_of(start(
                &header(2, plain_claim(author as u32, 1001), false, author),
                &block_1()
            )),
            VerifyError::BadSecondarySlotAuthor
        );
    }
}

#[test]
fn forbidden_slot_type() {
    let claims = [
        plain_claim(0, 1001),
        secondary_vrf_claim(0, 1001, 0),
        primary_claim(0, 1001, 0),
    ];
    let expected = [
        (BabeAllowedSlots::PrimarySlots, [false, false, true]),
        (
            BabeAllowedSlots::PrimaryAndSecondaryPlainSlots,
            [true, false, true],
        ),
        (
            BabeAllowedSlots::PrimaryAndSecondaryVRFSlots,
            [false, true, true],
        ),
    ];
    let parent = block_1();
    for (allowed_slots, accepted) in expected {
        let genesis = genesis_allowing(allowed_slots);
        for i in 0..3 {
            let block = header(2, claims[i], false, 0);
            let outcome = start_verify_header(
                configure(&block, &parent, &genesis, Some(BLOCK_1_SLOT)),
                &almost_one,
            );
            if accepted[i] {
                assert_eq!(success_of(outcome).slot_number, 1001);
            } else {
                assert_eq!(error_of(outcome), VerifyError::ForbiddenSlotType);
            }
        }
    }
}

#[test]
fn forbidden_slot_type_comes_before_invalid_authority_index() {
    let genesis = genesis_allowing(BabeAllowedSlots::PrimarySlots);
    let (block, parent) = (header(2, plain_claim(9, 1001), false, 0), block_1());
    let outcome = start_verify_header(
        configure(&block, &parent, &genesis, Some(BLOCK_1_SLOT)),
        &half,
    );
    assert_eq!(error_of(outcome), VerifyError::ForbiddenSlotType);
}

#[test]
fn primary_claim_below_the_threshold() {
    let pending = pending_in_epoch_1(primary_claim(1, 1100, 1), 1);
    let config = config_allowing(BabeAllowedSlots::PrimarySlots);
    let success = pending.finish((&epoch_info(), config), &almost_one).unwrap();
    assert_eq!(
        success,
        VerifySuccess {
            slot_number: 1100,
            epoch_number: 1,
            epoch_transition_target: NonZeroU64::new(2),
        }
    );
}

#[test]
fn primary_claim_over_the_threshold() {
    let pending = pending_in_epoch_1(primary_claim(1, 1100, 1), 1);
    let config = config_allowing(BabeAllowedSlots::PrimarySlots);
    assert_eq!(
        pending.finish((&epoch_info(), config), &zero),
        Err(VerifyError::OverPrimaryClaimThreshold)
    );
}

#[test]
fn primary_claim_is_judged_by_what_the_vrf_draws() {
    let config = config_allowing(BabeAllowedSlots::PrimarySlots);
    for author in 0..3 {
        let mut transcript = merlin::Transcript::new(b"BABE");
        transcript.append_u64(b"slot number", 1100);
        transcript.append_u64(b"current epoch", 1);
        transcript.append_message(b"chain randomness", &randomness());
        let drawn = u128::from_le_bytes(
            keypair(author)
                .vrf_create_hash(transcript)
                .make_bytes::<[u8; 16]>(b"substrate-babe-vrf"),
        );
        let share = |threshold: u128| {
            move |_: (u64, u64), _: u64, _: u64| ClaimProbability {
                numerator: threshold.to_be_bytes().to_vec(),
                denominator: {
                    let mut bytes = vec![0u8; 17];
                    bytes[0] = 1;
                    bytes
                },
            }
        };
        let pending = pending_in_epoch_1(primary_claim(author, 1100, 1), author);
        assert_eq!(
            pending.finish((&epoch_info(), config), &share(drawn)),
            Err(VerifyError::OverPrimaryClaimThreshold)
        );
        let pending = pending_in_epoch_1(primary_claim(author, 1100, 1), author);
        assert!(pending
            .finish((&epoch_info(), config), &share(drawn + 1))
            .is_ok());
    }
}

#[test]
fn threshold_is_that_of_the_author() {
    let asked = std::cell::RefCell::new(Vec::new());
    let answer = |c: (u64, u64), weight: u64, total: u64| {
        asked.borrow_mut().push((c, weight, total));
        almost_one(c, weight, total)
    };
    let pending = pending_in_epoch_1(primary_claim(1, 1100, 1), 1);
    let config = config_allowing(BabeAllowedSlots::PrimarySlots);
    assert!(pending.finish((&epoch_info(), config), &answer).is_ok());
    assert_eq!(*asked.borrow(), vec![((1, 4), 20, 60)]);
}

#[test]
fn threshold_is_not_asked_for_without_need() {
    let answer = |_: (u64, u64), _: u64, _: u64| -> ClaimProbability { panic!("asked") };
    let owner = owner_of_slot_1100();
    let config = config_allowing(BabeAllowedSlots::PrimaryAndSecondaryPlainSlots);
    let pending = pending_in_epoch_1(plain_claim(owner as u32, 1100), owner);
    assert!(pending.finish((&epoch_info(), config), &answer).is_ok());
    let pending = pending_in_epoch_1(primary_claim(1, 1100, 1), 2);
    assert_eq!(
        pending.finish((&epoch_info(), config), &answer),
        Err(VerifyError::BadSignature)
    );
}

#[test]
fn vrf_proof_for_other_circumstances() {
    let config = config_allowing(BabeAllowedSlots::PrimarySlots);

    // Another epoch.
    let pending = pending_in_epoch_1(primary_claim(1, 1100, 0), 1);
    assert_eq!(
        pending.finish((&epoch_info(), config), &almost_one),
        Err(VerifyError::BadVrfProof)
    );

    // Another slot.
    let (vrf_output, vrf_proof) = vrf_of(1, 1101, 1);
    let claim = BabePreDigest::Primary(BabePrimaryPreDigest {
        authority_index: 1,
        slot_number: 1100,
        vrf_output,
        vrf_proof,
    });
    let pending = pending_in_epoch_1(claim, 1);
    assert_eq!(
        pending.finish((&epoch_info(), config), &almost_one),
        Err(VerifyError::BadVrfProof)
    );

    // Another randomness.
    let pending = pending_in_epoch_1(primary_claim(1, 1100, 1), 1);
    let mut epoch = epoch_info();
    epoch.randomness[0] = 1;
    assert_eq!(
        pending.finish((&epoch, config), &almost_one),
        Err(VerifyError::BadVrfProof)
    );

    // Another author.
    let (vrf_output, vrf_proof) = vrf_of(2, 1100, 1);
    let claim = BabePreDigest::Primary(BabePrimaryPreDigest {
        authority_index: 1,
        slot_number: 1100,
        vrf_output,
        vrf_proof,
    });
    let pending = pending_in_epoch_1(claim, 1);
    assert_eq!(
        pending.finish((&epoch_info(), config), &almost_one),
        Err(VerifyError::BadVrfProof)
    );
}

#[test]
fn vrf_proof_comes_before_the_secondary_author() {
    let config = config_allowing(BabeAllowedSlots::PrimaryAndSecondaryVRFSlots);
    let other = (owner_of_slot_1100() + 1) % 3;
    let pending = pending_in_epoch_1(secondary_vrf_claim(other, 1100, 0), other);
    assert_eq!(
        pending.finish((&epoch_info(), config), &zero),
        Err(VerifyError::BadVrfProof)
    );
    let pending = pending_in_epoch_1(secondary_vrf_claim(other, 1100, 1), other);
    assert_eq!(
        pending.finish((&epoch_info(), config), &zero),
        Err(VerifyError::BadSecondarySlotAuthor)
    );
}

#[test]
fn secondary_claim_has_no_threshold() {
    let owner = owner_of_slot_1100();
    let config = config_allowing(BabeAllowedSlots::PrimaryAndSecondaryVRFSlots);
    let pending = pending_in_epoch_1(secondary_vrf_claim(owner, 1100, 1), owner);
    assert!(pending.finish((&epoch_info(), config), &zero).is_ok());
}

#[test]
fn pending_block_tells_which_epoch_it_needs() {
    let pending = pending_in_epoch_1(plain_claim(0, 1199), 0);
    assert_eq!(pending.epoch_number(), 1);
    assert!(!pending.same_epoch_as_parent());

    let parent = header(2, plain_claim(0, 1199), true, 0);
    let pending = pending_of(start(&header(3, plain_claim(0, 1200), true, 0), &parent));
    assert_eq!(pending.epoch_number(), 2);
    assert!(!pending.same_epoch_as_parent());

    let parent = header(2, plain_claim(0, 1100), true, 0);
    let pending = pending_of(start(&header(3, plain_claim(0, 1199), false, 0), &parent));
    assert_eq!(pending.epoch_number(), 1);
    assert!(pending.same_epoch_as_parent());
}

#[test]
fn conclusions_follow_from_what_is_known() {
    let allowed = BabeAllowedSlots::PrimaryAndSecondaryPlainSlots;
    let pending = pending_in_epoch_1(primary_claim(1, 1100, 1), 1);
    let mut drawn = [0u8; 16];
    drawn[0] = 9;
    let conclude = |authorities, seal_is_valid, drawn, threshold| {
        pending.conclude(authorities, allowed, seal_is_valid, drawn, threshold, &[])
    };
    assert_eq!(
        conclude(1, true, Some(drawn), 10),
        Err(VerifyError::InvalidAuthorityIndex)
    );
    assert_eq!(
        conclude(2, false, Some(drawn), 10),
        Err(VerifyError::BadSignature)
    );
    assert_eq!(conclude(2, true, None, 10), Err(VerifyError::BadVrfProof));
    assert_eq!(
        conclude(2, true, Some(drawn), 9),
        Err(VerifyError::OverPrimaryClaimThreshold)
    );
    assert!(conclude(2, true, Some(drawn), 10).is_ok());
}

#[test]
fn configurations_that_make_no_sense() {
    let genesis = genesis();
    let (parent, block) = (block_1(), header(2, plain_claim(0, 1001), false, 0));
    // No slot number for block #1.
    let config = configure(&block, &parent, &genesis, None);
    assert!(!check_config(&config));
    assert!(checked_start_verify_header(config, &half).is_none());
    // The block precedes block #1.
    let config = configure(&block, &parent, &genesis, Some(1002));
    assert!(!check_config(&config));
    // The parent precedes block #1.
    let config = configure(&block, &parent, &genesis, Some(1001));
    assert!(!check_config(&config));
    // The parent of block #1 is not the genesis block.
    let (block, parent) = (block_1(), header(9, plain_claim(0, 7), false, 0));
    let config = configure(&block, &parent, &genesis, None);
    assert!(!check_config(&config));
}

#[test]
fn configurations_are_only_looked_at_as_far_as_needed() {
    let genesis = genesis();
    let mut block = header(2, plain_claim(0, 1001), false, 0);
    let mut parent = block_1();
    parent.digest.babe_pre_runtime = None;
    assert!(check_config(&configure(
        &block,
        &parent,
        &genesis,
        Some(1001)
    )));
    block.digest.babe_pre_runtime = None;
    assert!(check_config(&configure(
        &block,
        &parent,
        &genesis,
        Some(u64::MAX)
    )));
}

#[test]
fn slot_number_of_block_1_is_always_needed_but_for_block_1() {
    let (genesis, parent) = (genesis(), block_1());
    let mut block = header(2, plain_claim(0, 1001), false, 0);
    block.digest.babe_pre_runtime = None;
    let config = configure(&block, &parent, &genesis, None);
    assert!(!check_config(&config));
    assert!(checked_start_verify_header(config, &half).is_none());
    let config = configure(&block, &parent, &genesis, Some(BLOCK_1_SLOT));
    assert_eq!(
        error_of(checked_start_verify_header(config, &half).unwrap()),
        VerifyError::MissingPreRuntimeDigest
    );

    block.number = 1;
    let parent = genesis_header();
    let config = configure(&block, &parent, &genesis, None);
    assert_eq!(
        error_of(checked_start_verify_header(config, &half).unwrap()),
        VerifyError::MissingPreRuntimeDigest
    );
}

#[test]
fn block_1_fares_the_same_with_and_without_its_slot_number() {
    let (genesis, parent) = (genesis(), genesis_header());
    let mut unsealed = block_1();
    unsealed.digest.babe_seal = None;
    let blocks = [
        block_1(),
        header(1, plain_claim(2, BLOCK_1_SLOT), false, 2),
        header(1, plain_claim(1, BLOCK_1_SLOT), true, 1),
        header(1, primary_claim(1, BLOCK_1_SLOT, 0), true, 1),
        unsealed,
    ];
    for block in &blocks {
        let outcomes = [None, Some(BLOCK_1_SLOT)].map(|block1_slot_number| {
            match start_verify_header(
                configure(block, &parent, &genesis, block1_slot_number),
                &almost_one,
            ) {
                Ok(SuccessOrPending::Success(success)) => Ok(success),
                Ok(SuccessOrPending::Pending(_)) => panic!("left pending"),
                Err(error) => Err(error),
            }
        });
        assert_eq!(outcomes[0], outcomes[1]);
    }
}

#[test]
fn epoch_0_is_finished_with_the_genesis_information() {
    let (genesis, parent) = (genesis(), block_1());
    let blocks = [
        header(2, plain_claim(0, 1001), false, 0),
        header(2, plain_claim(1, 1001), false, 1),
        header(2, plain_claim(0, 1001), false, 1),
        header(2, primary_claim(1, 1001, 0), false, 1),
        header(2, primary_claim(1, 1001, 1), false, 1),
        header(2, secondary_vrf_claim(0, 1001, 0), false, 0),
        header(2, plain_claim(3, 1001), false, 0),
    ];
    let answers: [fn((u64, u64), u64, u64) -> ClaimProbability; 2] = [almost_one, zero];
    for claim_probability in answers {
        for block in &blocks {
            let config = configure(block, &parent, &genesis, Some(BLOCK_1_SLOT));
            let finished = begin_verify_header(&config).unwrap_or_else(|_| panic!()).finish(
                (&genesis.epoch0_information, genesis.epoch0_configuration),
                &claim_probability,
            );
            match start_verify_header(config, &claim_probability) {
                Ok(SuccessOrPending::Success(success)) => assert_eq!(Ok(success), finished),
                Ok(SuccessOrPending::Pending(_)) => panic!("left pending"),
                Err(error) => assert_eq!(Err(error), finished),
            }
        }
    }
}

#[test]
fn time_has_no_part() {
    let genesis = genesis();
    let parent = block_1();
    for now in [0, 6000, u64::MAX] {
        let at = |block: &Header| {
            let mut config = configure(block, &parent, &genesis, Some(BLOCK_1_SLOT));
            config.now_from_unix_epoch = Duration::from_secs(now);
            start_verify_header(config, &half)
        };
        assert_eq!(
            success_of(at(&header(2, plain_claim(0, 1001), false, 0))),
            VerifySuccess {
                slot_number: 1001,
                epoch_number: 0,
                epoch_transition_target: None,
            }
        );
        assert_eq!(
            error_of(at(&header(2, plain_claim(1, 1001), false, 1))),
            VerifyError::BadSecondarySlotAuthor
        );
        let pending = pending_of(at(&header(2, plain_claim(1, 1100), true, 1)));
        assert_eq!(pending.epoch_number(), 1);
        assert!(!pending.same_epoch_as_parent());
    }
}

#[test]
fn epoch_numbers_that_do_not_fit_are_not_described() {
    let mut genesis = genesis();
    genesis.slots_per_epoch = NonZeroU64::new(1).unwrap();
    let parent = genesis_header();
    let block = header(1, plain_claim(0, u64::MAX), true, 0);
    assert!(!check_config(&configure(&block, &parent, &genesis, Some(0))));
    assert!(check_config(&configure(&block, &parent, &genesis, Some(1))));
}

#[test]
fn checked_start_does_what_start_does() {
    let genesis = genesis();
    let (block, parent) = (header(2, plain_claim(0, 1001), false, 0), block_1());
    let outcome = checked_start_verify_header(
        configure(&block, &parent, &genesis, Some(BLOCK_1_SLOT)),
        &half,
    );
    assert_eq!(success_of(outcome.unwrap()).slot_number, 1001);

    let block = header(2, plain_claim(0, 1001), true, 0);
    let outcome = checked_start_verify_header(
        configure(&block, &parent, &genesis, Some(BLOCK_1_SLOT)),
        &half,
    );
    assert_eq!(
        error_of(outcome.unwrap()),
        VerifyError::UnexpectedEpochChangeLog
    );
}

#[test]
fn public_keys_that_are_none() {
    let config = config_allowing(BabeAllowedSlots::PrimaryAndSecondaryPlainSlots);
    let mut epoch = epoch_info();
    epoch.authorities[1].public_key = [255; 32];

    let pending = pending_in_epoch_1(primary_claim(1, 1100, 1), 1);
    assert!(!pending.can_finish((&epoch, config)));
    assert_eq!(pending.checked_finish((&epoch, config), &half), None);

    // The key of another authority does not matter.
    let pending = pending_in_epoch_1(primary_claim(0, 1100, 1), 0);
    assert!(pending.can_finish((&epoch, config)));
    assert!(pending
        .checked_finish((&epoch, config), &almost_one)
        .unwrap()
        .is_ok());

    let mut genesis = genesis();
    genesis.epoch0_information.authorities[0].public_key = [255; 32];
    let (block, parent) = (header(2, plain_claim(0, 1001), false, 0), block_1());
    let outcome = checked_start_verify_header(
        configure(&block, &parent, &genesis, Some(BLOCK_1_SLOT)),
        &half,
    );
    assert!(outcome.is_none());
}

#[test]
fn vrf_proofs_that_cannot_be_read() {
    let config = config_allowing(BabeAllowedSlots::PrimarySlots);
    let (vrf_output, mut vrf_proof) = vrf_of(1, 1100, 1);
    vrf_proof[63] = 255;
    let claim = BabePreDigest::Primary(BabePrimaryPreDigest {
        authority_index: 1,
        slot_number: 1100,
        vrf_output,
        vrf_proof,
    });
    let pending = pending_in_epoch_1(claim, 1);
    assert_eq!(pending.checked_finish((&epoch_info(), config), &half), None);
    // A bad seal is found before.
    let pending = pending_in_epoch_1(claim, 2);
    assert_eq!(
        pending.checked_finish((&epoch_info(), config), &half),
        Some(Err(VerifyError::BadSignature))
    );
}

#[test]
fn authors_without_a_threshold() {
    let pending = || pending_in_epoch_1(primary_claim(1, 1100, 1), 1);
    let config = config_allowing(BabeAllowedSlots::PrimarySlots);

    let mut epoch = epoch_info();
    epoch.authorities[1].weight = 0;
    assert_eq!(pending().checked_finish((&epoch, config), &half), None);

    let mut epoch = epoch_info();
    epoch.authorities[0].weight = u64::MAX;
    assert_eq!(pending().checked_finish((&epoch, config), &half), None);

    for c in [(1, 0), (1, 1), (5, 4)] {
        let mut config = config;
        config.c = c;
        assert_eq!(
            pending().checked_finish((&epoch_info(), config), &half),
            None
        );
    }
    let mut config = config;
    config.c = (0, 1);
    assert_eq!(
        pending().checked_finish((&epoch_info(), config), &zero),
        Some(Err(VerifyError::OverPrimaryClaimThreshold))
    );
}

/// The order of the Ristretto group, least significant byte first.
const GROUP_ORDER: [u8; 32] = [
    0xed, 0xd3, 0xf5, 0x5c, 0x1a, 0x63, 0x12, 0x58, 0xd6, 0x9c, 0xf7, 0xa2, 0xde, 0xf9, 0xde, 0x14,
    0, 0, 0, 0, 0, 0, 0, 0, 0, 0, 0, 0, 0, 0, 0, 0x10,
];

#[test]
fn seals_hold_a_scalar_below_the_group_order() {
    let mut seal = vec![0u8; 64];
    seal[32..].copy_from_slice(&GROUP_ORDER);
    seal[63] |= 128;
    let mut block = header(2, plain_claim(0, 1100), true, 0);
    block.digest.babe_seal = Some(seal.clone());
    assert_eq!(error_of(start(&block, &block_1())), VerifyError::BadSignature);

    seal[32] -= 1;
    block.digest.babe_seal = Some(seal);
    let pending = pending_of(start(&block, &block_1()));
    let config = config_allowing(BabeAllowedSlots::PrimaryAndSecondaryPlainSlots);
    assert_eq!(
        pending.finish((&epoch_info(), config), &half),
        Err(VerifyError::BadSignature)
    );
}

#[test]
fn vrf_proofs_hold_two_scalars_below_the_group_order() {
    let config = config_allowing(BabeAllowedSlots::PrimarySlots);
    let (vrf_output, _) = vrf_of(1, 1100, 1);
    for start_of_scalar in [0, 32] {
        let mut vrf_proof = [0u8; 64];
        vrf_proof[start_of_scalar..start_of_scalar + 32].copy_from_slice(&GROUP_ORDER);
        let claim = |vrf_proof| {
            BabePreDigest::Primary(BabePrimaryPreDigest {
                authority_index: 1,
                slot_number: 1100,
                vrf_output,
                vrf_proof,
            })
        };
        let pending = pending_in_epoch_1(claim(vrf_proof), 1);
        assert_eq!(pending.checked_finish((&epoch_info(), config), &half), None);

        vrf_proof[start_of_scalar] -= 1;
        let pending = pending_in_epoch_1(claim(vrf_proof), 1);
        assert_eq!(
            pending.checked_finish((&epoch_info(), config), &half),
            Some(Err(VerifyError::BadVrfProof))
        );
    }
}
