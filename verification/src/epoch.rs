//! How slots are grouped into epochs.
use vstd::prelude::*;

use crate::header::BabeGenesisConfiguration;

verus! {

/// The epoch of a slot, counted from the slot of block #1 in steps of `slots_per_epoch`.
pub open spec fn epoch_of(slot_number: u64, slots_per_epoch: u64, block1_slot_number: u64) -> int {
    (slot_number - block1_slot_number) / (slots_per_epoch as int)
}

/// Turns a slot number into an epoch number.
///
/// Returns an error if `slot_number` is inferior to `block1_slot_number`.
pub fn slot_number_to_epoch(
    slot_number: u64,
    genesis_config: &BabeGenesisConfiguration,
    block1_slot_number: u64,
) -> (epoch: Result<u64, ()>)
    ensures
        slot_number < block1_slot_number ==> epoch == Err::<u64, ()>(()),
        slot_number >= block1_slot_number ==> (epoch matches Ok(number) && number == epoch_of(
            slot_number,
            genesis_config.slots_per_epoch@,
            block1_slot_number,
        )),
{
    match slot_number.checked_sub(block1_slot_number) {
        Some(slots_diff) => Ok(slots_diff / genesis_config.slots_per_epoch.get()),
        None => Err(()),
    }
}

/// Epochs do not overlap and leave no slot out: epoch `number` is made of exactly the
/// `slots_per_epoch` slots that start at `block1_slot_number + number * slots_per_epoch`.
pub proof fn law_epochs_partition_slots(
    slot_number: u64,
    slots_per_epoch: u64,
    block1_slot_number: u64,
    number: int,
)
    requires
        slots_per_epoch != 0,
        slot_number >= block1_slot_number,
    ensures
        epoch_of(slot_number, slots_per_epoch, block1_slot_number) == number <==> {
            &&& block1_slot_number + number * slots_per_epoch <= slot_number
            &&& slot_number < block1_slot_number + (number + 1) * slots_per_epoch
        },
{
    let diff = slot_number - block1_slot_number;
    let len = slots_per_epoch as int;
    let quotient = diff / len;
    vstd::arithmetic::div_mod::lemma_fundamental_div_mod(diff, len);
    assert((number + 1) * len == number * len + len) by (nonlinear_arith);
    assert((quotient + 1) * len == quotient * len + len) by (nonlinear_arith);
    assert(len * quotient == quotient * len) by (nonlinear_arith);
    if number < quotient {
        assert((number + 1) * len <= quotient * len) by (nonlinear_arith)
            requires
                number + 1 <= quotient,
                len > 0,
        ;
    } else if number > quotient {
        assert((quotient + 1) * len <= number * len) by (nonlinear_arith)
            requires
                quotient + 1 <= number,
                len > 0,
        ;
    }
}

/// Epoch 0 starts at the slot of block #1.
pub proof fn law_block1_is_in_epoch_0(slots_per_epoch: u64, block1_slot_number: u64)
    requires
        slots_per_epoch != 0,
    ensures
        epoch_of(block1_slot_number, slots_per_epoch, block1_slot_number) == 0,
{
    law_epochs_partition_slots(block1_slot_number, slots_per_epoch, block1_slot_number, 0);
}

/// A later slot is never in an earlier epoch.
pub proof fn law_epochs_follow_slots(
    earlier: u64,
    later: u64,
    slots_per_epoch: u64,
    block1_slot_number: u64,
)
    requires
        slots_per_epoch != 0,
        block1_slot_number <= earlier <= later,
    ensures
        0 <= epoch_of(earlier, slots_per_epoch, block1_slot_number) <= epoch_of(
            later,
            slots_per_epoch,
            block1_slot_number,
        ) <= later - block1_slot_number,
{
    let len = slots_per_epoch as int;
    vstd::arithmetic::div_mod::lemma_div_is_ordered(
        earlier - block1_slot_number,
        later - block1_slot_number,
        len,
    );
    vstd::arithmetic::div_mod::lemma_div_nonincreasing(later - block1_slot_number, len);
    vstd::arithmetic::div_mod::lemma_div_pos_is_pos(earlier - block1_slot_number, len);
}

} // verus!
