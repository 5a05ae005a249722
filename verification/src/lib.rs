//! BABE consensus.
//!
//! BABE, or Blind Assignment for Blockchain Extension, is the consensus algorithm used by
//! Polkadot in order to determine who is authorized to generate a block.
//!
//! Every block (with the exception of the genesis block) must contain, in its header, some data
//! that makes it possible to verify that it has been generated by a legitimate author. This
//! library verifies it, and Verus verifies the library.
//!
//! # Overview of BABE
//!
//! Time is divided into non-overlapping **epochs**, themselves divided into **slots**. Every block
//! belongs to a slot, whose number is in its header. The genesis block belongs to none. Epoch 0
//! starts at the slot of block #1 ([`epoch`]).
//!
//! The header of the first block of an epoch (including block #1) contains the public keys that
//! are allowed to sign the blocks of the *next* epoch, a weight for each of them, and a randomness
//! value. What concerns epoch 0 is in the BABE configuration of the genesis block.
//!
//! In order to produce a block, one must generate, using a verifiable random function, and based
//! on the slot number, the epoch number and the randomness value, a number that is lower than a
//! certain threshold ([`threshold`]). This is a primary slot claim. Each slot is additionally
//! assigned to one of the public keys, whose owner may always claim it: a secondary slot claim.
//!
//! # Usage
//!
//! See [`verify`] for how to verify a block. [`start_laws`] and [`finish_laws`] tell when a block is
//! accepted and what it is refused for, and [`laws`] what holds of verified blocks.
//!
//! # What is trusted
//!
//! The modules [`schnorr`], [`blake2`] and [`bigint`] state, without proof, what the crates
//! `schnorrkel`, `merlin`, `blake2_rfc` and `num_bigint` do. Everything else is proved.
//!
//! How likely an authority is to claim a slot is for the caller to say, through the function
//! `claim_probability`. The contracts fix what it is asked and what is done with its answer. Of the
//! answer itself they only ask that it be a fraction below one.

pub mod bigint;
pub mod blake2;
pub mod bytes;
pub mod epoch;
pub mod finish_laws;
pub mod header;
pub mod laws;
pub mod pending;
pub mod schnorr;
pub mod start_laws;
pub mod threshold;
pub mod verify;
