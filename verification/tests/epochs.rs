use babe::epoch::slot_number_to_epoch;
use babe::header::{
    BabeAllowedSlots, BabeGenesisConfiguration, BabeNextConfig, BabeNextEpoch, NonZeroU64,
};

fn genesis(slots_per_epoch: u64) -> BabeGenesisConfiguration {
    BabeGenesisConfiguration {
        slots_per_epoch: NonZeroU64::new(slots_per_epoch).unwrap(),
        epoch0_configuration: BabeNextConfig {
            c: (1, 4),
            allowed_slots: BabeAllowedSlots::PrimarySlots,
        },
        epoch0_information: BabeNextEpoch {
            authorities: Vec::new(),
            randomness: [0; 32],
        },
    }
}

#[test]
fn slots_before_block_1_have_no_epoch() {
    assert_eq!(slot_number_to_epoch(999, &genesis(2400), 1000), Err(()));
    assert_eq!(slot_number_to_epoch(0, &genesis(1), u64::MAX), Err(()));
}

#[test]
fn epochs_have_the_configured_number_of_slots() {
    assert_eq!(slot_number_to_epoch(1000, &genesis(2400), 1000), Ok(0));
    assert_eq!(slot_number_to_epoch(3399, &genesis(2400), 1000), Ok(0));
    assert_eq!(slot_number_to_epoch(3400, &genesis(2400), 1000), Ok(1));
    assert_eq!(slot_number_to_epoch(5799, &genesis(2400), 1000), Ok(1));
    assert_eq!(slot_number_to_epoch(5800, &genesis(2400), 1000), Ok(2));
    assert_eq!(slot_number_to_epoch(u64::MAX, &genesis(1), 0), Ok(u64::MAX));
}

#[test]
fn zero_is_not_wrapped() {
    assert_eq!(NonZeroU64::new(0), None);
    assert_eq!(NonZeroU64::new(7).unwrap().get(), 7);
}
