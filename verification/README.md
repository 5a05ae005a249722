# babe

Verification of the authorship of BABE blocks, written and verified in Verus.

- `src/` is the library. `verify.rs` and `pending.rs` hold the two phases of a verification,
  `epoch.rs` and `threshold.rs` the arithmetic of slots and thresholds, `laws.rs` what holds of
  verified blocks. `schnorr.rs`, `blake2.rs` and `bigint.rs` state what the cryptographic and
  big-number crates do; those statements are trusted.
- `app/` ties the library to a project's own block headers and calculates claim probabilities,
  which is done in floating point and is therefore not verified.
- `tests/` runs the library with real signatures and proofs.
