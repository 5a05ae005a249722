//! Schnorr signatures and verifiable random functions, done by `schnorrkel` on `merlin`
//! transcripts.
//!
//! The contracts here are not proved: each states what the source of the crate it calls shows.
//! Keys, signatures, outputs and proofs go in as the byte strings that block headers hold.
use merlin::Transcript;
use schnorrkel::vrf::{VRFPreOut, VRFProof};
use schnorrkel::{PublicKey, Signature};
use vstd::arithmetic::power2::pow2;
use vstd::prelude::*;

use crate::bytes::{le_bytes, le_nat};

verus! {

/// `merlin::Transcript`, whose value is only handed on.
#[verifier::external_type_specification]
#[verifier::external_body]
pub struct ExTranscript(Transcript);

/// The labelled messages that a transcript has taken in, oldest first.
pub uninterp spec fn transcript_messages(transcript: Transcript) -> Seq<(Seq<u8>, Seq<u8>)>;

/// The label under which `merlin` takes in the name of a new transcript: `dom-sep`.
pub open spec fn domain_separator() -> Seq<u8> {
    seq![100u8, 111, 109, 45, 115, 101, 112]
}

/// `Transcript::new`: the new transcript holds one message, its name.
#[verifier::external_body]
pub(crate) fn transcript_new(name: &'static [u8]) -> (transcript: Transcript)
    requires
        name@.len() <= u32::MAX,
    ensures
        transcript_messages(transcript) == seq![(domain_separator(), name@)],
{
    Transcript::new(name)
}

/// `Transcript::append_message`: adds one message at the end. It panics on a message whose length
/// does not fit 32 bits.
#[verifier::external_body]
pub(crate) fn append_message(transcript: &mut Transcript, label: &'static [u8], message: &[u8])
    requires
        message@.len() <= u32::MAX,
    ensures
        transcript_messages(*final(transcript)) == transcript_messages(*old(transcript)).push(
            (label@, message@),
        ),
{
    transcript.append_message(label, message)
}

/// `Transcript::append_u64`: adds the eight bytes of a number, least significant first.
#[verifier::external_body]
pub(crate) fn append_u64(transcript: &mut Transcript, label: &'static [u8], value: u64)
    ensures
        transcript_messages(*final(transcript)) == transcript_messages(*old(transcript)).push(
            (label@, le_bytes(value as nat, 8)),
        ),
{
    transcript.append_u64(label, value)
}

/// The order of the Ristretto group.
pub open spec fn group_order() -> nat {
    pow2(252) + 27742317777372353535851937790883648493
}

/// The encodings of signatures: 64 bytes, of which the second half is a scalar below the group
/// order whose highest bit, which such a scalar leaves free, is set as a mark.
pub open spec fn signature_decodes(bytes: Seq<u8>) -> bool {
    &&& bytes.len() == 64
    &&& pow2(255) <= le_nat(bytes.skip(32)) < pow2(255) + group_order()
}

/// The encodings of VRF proofs: two scalars below the group order, 32 bytes each.
pub open spec fn vrf_proof_decodes(bytes: Seq<u8>) -> bool {
    &&& bytes.len() == 64
    &&& le_nat(bytes.take(32)) < group_order()
    &&& le_nat(bytes.skip(32)) < group_order()
}

/// Whether `PublicKey::from_bytes` takes `bytes`: whether they are the canonical encoding of a
/// Ristretto point.
pub uninterp spec fn public_key_decodes(bytes: Seq<u8>) -> bool;

/// Whether `PublicKey::verify_simple` accepts `signature` as made under `context` on `message` by
/// the owner of `public_key`.
pub uninterp spec fn signature_verifies(
    public_key: Seq<u8>,
    context: Seq<u8>,
    message: Seq<u8>,
    signature: Seq<u8>,
) -> bool;

/// The sixteen bytes that `VRFInOut::make_bytes` draws under `context` from what
/// `PublicKey::vrf_verify` returns on a transcript of `messages`, or `None` where that refuses
/// `output` and `proof`.
pub uninterp spec fn vrf_bytes(
    public_key: Seq<u8>,
    messages: Seq<(Seq<u8>, Seq<u8>)>,
    output: Seq<u8>,
    proof: Seq<u8>,
    context: Seq<u8>,
) -> Option<Seq<u8>>;

/// `Signature::from_bytes`, of which only success or failure is kept.
#[verifier::external_body]
pub(crate) fn decode_signature(bytes: &[u8]) -> (decodes: bool)
    ensures
        decodes == signature_decodes(bytes@),
{
    Signature::from_bytes(bytes).is_ok()
}

/// `VRFProof::from_bytes`, of which only success or failure is kept.
#[verifier::external_body]
pub(crate) fn decode_vrf_proof(bytes: &[u8]) -> (decodes: bool)
    ensures
        decodes == vrf_proof_decodes(bytes@),
{
    VRFProof::from_bytes(bytes).is_ok()
}

/// `PublicKey::from_bytes`, of which only success or failure is kept.
#[verifier::external_body]
pub(crate) fn decode_public_key(bytes: &[u8]) -> (decodes: bool)
    ensures
        decodes == public_key_decodes(bytes@),
{
    PublicKey::from_bytes(bytes).is_ok()
}

/// `PublicKey::verify_simple` on decoded arguments.
#[verifier::external_body]
pub(crate) fn verify_simple(
    public_key: &[u8],
    context: &[u8],
    message: &[u8],
    signature: &[u8],
) -> (accepted: bool)
    requires
        public_key_decodes(public_key@),
        signature_decodes(signature@),
        context@.len() <= u32::MAX,
        message@.len() <= u32::MAX,
    ensures
        accepted == signature_verifies(public_key@, context@, message@, signature@),
{
    let public_key = PublicKey::from_bytes(public_key).unwrap();
    let signature = Signature::from_bytes(signature).unwrap();
    public_key.verify_simple(context, message, &signature).is_ok()
}

/// `PublicKey::vrf_verify` on decoded arguments, followed by `VRFInOut::make_bytes` where it
/// succeeds.
#[verifier::external_body]
pub(crate) fn vrf_verify(
    public_key: &[u8],
    transcript: Transcript,
    output: &[u8; 32],
    proof: &[u8; 64],
    context: &[u8],
) -> (bytes: Option<[u8; 16]>)
    requires
        public_key_decodes(public_key@),
        vrf_proof_decodes(proof@),
        context@.len() <= u32::MAX,
    ensures
        bytes matches Some(drawn) ==> vrf_bytes(
            public_key@,
            transcript_messages(transcript),
            output@,
            proof@,
            context@,
        ) == Some(drawn@),
        bytes is None ==> vrf_bytes(
            public_key@,
            transcript_messages(transcript),
            output@,
            proof@,
            context@,
        ) is None,
{
    let public_key = PublicKey::from_bytes(public_key).unwrap();
    let output = VRFPreOut::from_bytes(output).unwrap();
    let proof = VRFProof::from_bytes(proof).unwrap();
    match public_key.vrf_verify(transcript, &output, &proof) {
        Ok((in_out, _)) => Some(in_out.make_bytes::<[u8; 16]>(context)),
        Err(_) => None,
    }
}

/// The first half of a signature may be any bytes. The second half is told to be one by its number
/// alone.
pub proof fn law_signatures_are_marked_scalars(first: Seq<u8>, second: Seq<u8>)
    requires
        first.len() == 32,
        second.len() == 32,
    ensures
        signature_decodes(first + second) <==> pow2(255) <= le_nat(second) < pow2(255) + pow2(252)
            + 27742317777372353535851937790883648493,
{
    assert((first + second).skip(32) =~= second);
}

/// Two halves make a VRF proof if and only if each is the number of a scalar.
pub proof fn law_vrf_proofs_are_scalars(first: Seq<u8>, second: Seq<u8>)
    requires
        first.len() == 32,
        second.len() == 32,
    ensures
        vrf_proof_decodes(first + second) <==> {
            &&& le_nat(first) < pow2(252) + 27742317777372353535851937790883648493
            &&& le_nat(second) < pow2(252) + 27742317777372353535851937790883648493
        },
{
    assert((first + second).take(32) =~= first);
    assert((first + second).skip(32) =~= second);
}

/// Nothing that is not 64 bytes long is a signature or a VRF proof.
pub proof fn law_other_lengths_do_not_decode(bytes: Seq<u8>)
    requires
        bytes.len() != 64,
    ensures
        !signature_decodes(bytes),
        !vrf_proof_decodes(bytes),
{
}

} // verus!
