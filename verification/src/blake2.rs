//! The BLAKE2b hash, computed by `blake2_rfc`.
use vstd::prelude::*;

verus! {

/// The BLAKE2b hash of `data`, of `len` bytes and without a key.
pub uninterp spec fn blake2b_hash(len: nat, data: Seq<u8>) -> Seq<u8>;

/// `blake2_rfc::blake2b::blake2b` without a key. It panics unless the hash is to have between 1
/// and 64 bytes, and returns as many as it was asked for. That the bytes are those of BLAKE2b is
/// not proved.
#[verifier::external_body]
pub(crate) fn blake2b(len: usize, data: &[u8]) -> (hash: Vec<u8>)
    requires
        1 <= len <= 64,
    ensures
        hash@ == blake2b_hash(len as nat, data@),
        hash@.len() == len,
{
    blake2_rfc::blake2b::blake2b(len, &[], data).as_bytes().to_vec()
}

} // verus!
