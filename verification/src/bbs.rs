//! Trusted entry points into `zkryptium` (BBS+ over BLS12-381 with SHA-256,
//! blind-signature flavour), with the names that the rest of the library
//! reasons about. Keys, signatures, commitments, blind factors and proofs are
//! handled as their byte encodings.

use vstd::prelude::*;

use crate::bytes::vecs_view;
use zkryptium::bbsplus::commitment::BlindFactor;
use zkryptium::errors::Error as BbsError;
use zkryptium::bbsplus::keys::{BBSplusPublicKey, BBSplusSecretKey};
use zkryptium::keys::pair::KeyPair;
use zkryptium::schemes::algorithms::BbsBls12381Sha256;
use zkryptium::schemes::generics::{BlindSignature, Commitment, PoKSignature};

verus! {

/// The error type of `zkryptium`.
#[verifier::external_type_specification]
#[verifier::external_body]
pub struct ExBbsError(BbsError);

/// The key pair (secret key bytes, compressed public key bytes) that BBS+ key
/// generation derives from the key material `ikm`.
pub uninterp spec fn bbs_keygen_spec(ikm: Seq<u8>) -> (Seq<u8>, Seq<u8>);

/// The blind signature (80 bytes) that BBS+ blind signing produces for these
/// inputs, or `None` when signing fails.
pub uninterp spec fn bbs_blind_sign_spec(
    sk: Seq<u8>,
    pk: Seq<u8>,
    commitment: Seq<u8>,
    header: Seq<u8>,
    messages: Seq<Seq<u8>>,
) -> Option<Seq<u8>>;

/// The bytes decode to a blind signature and a blind factor, the public key
/// decodes, and the blind signature verifies over the signer's messages and
/// the committed messages.
pub uninterp spec fn bbs_blind_signature_valid_spec(
    pk: Seq<u8>,
    sig: Seq<u8>,
    header: Seq<u8>,
    messages: Seq<Seq<u8>>,
    committed: Seq<Seq<u8>>,
    blind_factor: Seq<u8>,
) -> bool;

/// The first 96 bytes decode to a BBS+ public key.
pub uninterp spec fn bbs_public_key_decodes_spec(pk: Seq<u8>) -> bool;

/// The proof bytes decode to a BBS+ presentation proof that verifies for the
/// disclosed messages at the given indexes.
pub uninterp spec fn bbs_proof_valid_spec(
    pk: Seq<u8>,
    proof: Seq<u8>,
    header: Seq<u8>,
    presentation_header: Seq<u8>,
    message_count: nat,
    disclosed: Seq<Seq<u8>>,
    disclosed_committed: Seq<Seq<u8>>,
    disclosed_indexes: Seq<usize>,
    disclosed_commitment_indexes: Seq<usize>,
) -> bool;

/// The messages at the given indexes, in the order of the indexes.
pub open spec fn select(msgs: Seq<Seq<u8>>, idx: Seq<usize>) -> Seq<Seq<u8>> {
    Seq::new(idx.len(), |i: int| msgs[idx[i] as int])
}

/// Each index is greater than the one before it.
pub open spec fn strictly_increasing(idx: Seq<usize>) -> bool {
    forall|i: int, j: int| 0 <= i < j < idx.len() ==> idx[i] < idx[j]
}

/// `commitment` (a serialized commitment with its proof) commits to the
/// messages `committed` under the secret prover blind `blind_factor`.
pub uninterp spec fn bbs_commitment_spec(commitment: Seq<u8>, blind_factor: Seq<u8>, committed: Seq<Seq<u8>>) -> bool;

/// The crate's proof decoder reads 240 bytes of fixed fields before the
/// 32-byte scalars; verification computes
/// `disclosed + disclosed_committed + undisclosed - 1 - message_count` in
/// `usize`, where `undisclosed` is one less than the number of whole 32-byte
/// chunks after the fixed fields. This holds when neither slicing nor that
/// subtraction can fail.
pub open spec fn bbs_proof_parse_safe(proof_len: nat, disclosed: nat, disclosed_committed: nat, message_count: nat) -> bool {
    &&& proof_len >= 240
    &&& (proof_len - 240) / 32 == 0
        || disclosed + disclosed_committed + ((proof_len - 240) / 32 - 1) >= 1 + message_count
}

/// Calls `KeyPair::<BbsBls12381Sha256>::generate(ikm, None, None)`. Trusted:
/// key generation is deterministic in the key material and, in the crate's
/// source, fails only for key material shorter than 32 bytes (excluded here).
/// The public key is the compressed encoding of a G2 point, which the public
/// key decoder accepts.
#[verifier::external_body]
pub(crate) fn bbs_keygen(ikm: &[u8]) -> (res: Result<([u8; 32], [u8; 96]), BbsError>)
    requires
        ikm@.len() >= 32,
    ensures
        res is Ok,
        res matches Ok(keys) ==> (keys.0@, keys.1@) == bbs_keygen_spec(ikm@) && bbs_public_key_decodes_spec(keys.1@),
{
    let kp = KeyPair::<BbsBls12381Sha256>::generate(ikm, None, None)?;
    Ok((kp.private_key().to_bytes(), kp.public_key().to_bytes()))
}

/// Calls `Commitment::<BbsBls12381Sha256>::commit` on the committed messages
/// and returns the serialized commitment with proof and the secret prover
/// blind. Both are random; what is stated is that the call succeeds (in the
/// crate's source `core_commit` fails only on a generator count that `commit`
/// itself computes correctly) and that the commitment commits to the given
/// messages under the returned blind.
#[verifier::external_body]
pub(crate) fn bbs_commit(committed: &Vec<Vec<u8>>) -> (res: Result<(Vec<u8>, [u8; 32]), BbsError>)
    ensures
        res is Ok,
        res matches Ok((c, bf)) ==> bbs_commitment_spec(c@, bf@, vecs_view(committed@)),
{
    match Commitment::<BbsBls12381Sha256>::commit(Some(committed.as_slice())) {
        Ok((c, bf)) => Ok((c.to_bytes(), bf.to_bytes())),
        Err(e) => Err(e),
    }
}

/// Decodes the key pair and calls `BlindSignature::<BbsBls12381Sha256>::blind_sign`.
/// Trusted: blind signing is deterministic in its inputs (the signature
/// scalar is derived by hashing); the result is the named one. Correctness
/// of blind signatures: a signature made with a key pair from key generation
/// over a commitment to `committed` under the blind `bf` verifies over the
/// same header and messages with `committed` and `bf`. Success itself is not
/// promised: the source fails on inputs where `B` is the identity or
/// `sk + e` is zero (`blind.rs` `calculate_b`, `finalize_blind_sign`).
#[verifier::external_body]
pub(crate) fn bbs_blind_sign(
    sk: &[u8; 32],
    pk: &[u8; 96],
    commitment: &[u8],
    header: &[u8],
    messages: &Vec<Vec<u8>>,
) -> (res: Result<[u8; 80], BbsError>)
    ensures
        match res {
            Ok(sig) => bbs_blind_sign_spec(sk@, pk@, commitment@, header@, vecs_view(messages@)) == Some(sig@),
            Err(_) => bbs_blind_sign_spec(sk@, pk@, commitment@, header@, vecs_view(messages@)) is None,
        },
        res matches Ok(sig) ==> ((exists|ikm: Seq<u8>| bbs_keygen_spec(ikm) == (sk@, pk@)) ==> forall|bf: Seq<u8>, committed: Seq<Seq<u8>>|
            #[trigger] bbs_commitment_spec(commitment@, bf, committed) ==> bbs_blind_signature_valid_spec(
                pk@,
                sig@,
                header@,
                vecs_view(messages@),
                committed,
                bf,
            )),
{
    let sk = BBSplusSecretKey::from_bytes(sk)?;
    let pk = BBSplusPublicKey::from_bytes(pk)?;
    let sig = BlindSignature::<BbsBls12381Sha256>::blind_sign(&sk, &pk, Some(commitment), Some(header), Some(messages.as_slice()))?;
    Ok(sig.to_bytes())
}

/// Decodes the blind signature, the blind factor and the public key, then
/// calls `verify_blind_sign`. Trusted: the outcome is a function of the
/// inputs, and success implies that the public key decoded (the decoding is
/// done first, with `?`). The public key decoder slices 96 bytes, so shorter
/// keys are excluded.
#[verifier::external_body]
pub(crate) fn bbs_verify_blind_signature(
    pk: &[u8],
    sig: &[u8; 80],
    header: &[u8],
    messages: &Vec<Vec<u8>>,
    committed: &Vec<Vec<u8>>,
    blind_factor: &[u8; 32],
) -> (res: Result<(), BbsError>)
    requires
        pk@.len() >= 96,
    ensures
        res is Ok == bbs_blind_signature_valid_spec(pk@, sig@, header@, vecs_view(messages@), vecs_view(committed@), blind_factor@),
        res is Ok ==> bbs_public_key_decodes_spec(pk@),
{
    let sig = BlindSignature::<BbsBls12381Sha256>::from_bytes(sig)?;
    let bf = BlindFactor::from_bytes(blind_factor)?;
    let pk = BBSplusPublicKey::from_bytes(pk)?;
    sig.verify_blind_sign(&pk, Some(header), Some(messages.as_slice()), Some(committed.as_slice()), Some(&bf))
}

/// Decodes the public key and the blind factor, then calls
/// `PoKSignature::<BbsBls12381Sha256>::blind_proof_gen`. Proof generation is
/// randomized, so the proof bytes are not named; what is stated is BBS+
/// completeness, as the crate's blind-signature example exercises it: when
/// the blind signature is valid over these messages and the indexes are
/// ascending, the proof verifies for the presentation header, the message
/// count and the messages at the disclosed indexes. With ascending indexes
/// the proof's length follows from `to_bytes`: three compressed G1 points and
/// three scalars (240 bytes), one scalar per undisclosed message (the signer's
/// messages, the prover blind and the committed messages, less the disclosed
/// ones) and the challenge. Success is not promised: the source fails when the
/// random scalar `r2` is zero (`proof_finalize`).
#[verifier::external_body]
pub(crate) fn bbs_blind_proof_gen(
    pk: &[u8],
    sig: &[u8],
    header: &[u8],
    presentation_header: &[u8],
    messages: &Vec<Vec<u8>>,
    committed: &Vec<Vec<u8>>,
    disclosed_indexes: &[usize],
    disclosed_commitment_indexes: &[usize],
    blind_factor: &[u8; 32],
) -> (res: Result<Vec<u8>, BbsError>)
    requires
        pk@.len() >= 96,
    ensures
        res matches Ok(proof) ==> (strictly_increasing(disclosed_indexes@) && strictly_increasing(disclosed_commitment_indexes@)
            ==> proof@.len() == 240 + 32 * (messages@.len() + committed@.len() + 2 - disclosed_indexes@.len()
            - disclosed_commitment_indexes@.len())),
        res matches Ok(proof) ==> (bbs_blind_signature_valid_spec(
            pk@,
            sig@,
            header@,
            vecs_view(messages@),
            vecs_view(committed@),
            blind_factor@,
        ) && strictly_increasing(disclosed_indexes@) && strictly_increasing(disclosed_commitment_indexes@)
            ==> bbs_proof_valid_spec(
            pk@,
            proof@,
            header@,
            presentation_header@,
            messages@.len(),
            select(vecs_view(messages@), disclosed_indexes@),
            select(vecs_view(committed@), disclosed_commitment_indexes@),
            disclosed_indexes@,
            disclosed_commitment_indexes@,
        )),
{
    let pk = BBSplusPublicKey::from_bytes(pk)?;
    let bf = BlindFactor::from_bytes(blind_factor)?;
    let proof = PoKSignature::<BbsBls12381Sha256>::blind_proof_gen(
        &pk,
        sig,
        Some(header),
        Some(presentation_header),
        Some(messages.as_slice()),
        Some(committed.as_slice()),
        Some(disclosed_indexes),
        Some(disclosed_commitment_indexes),
        Some(&bf),
    )?;
    Ok(proof.to_bytes())
}

/// Calls `BBSplusPublicKey::from_bytes`. Trusted: whether the key decodes is
/// a function of its bytes, and a key that does not decode verifies no blind
/// signature (verification decodes it first); the decoder slices 96 bytes, so
/// shorter keys are excluded.
#[verifier::external_body]
pub(crate) fn bbs_public_key_check(pk: &[u8]) -> (res: Result<(), BbsError>)
    requires
        pk@.len() >= 96,
    ensures
        res is Ok == bbs_public_key_decodes_spec(pk@),
        res is Err ==> forall|sig: Seq<u8>, header: Seq<u8>, messages: Seq<Seq<u8>>, committed: Seq<Seq<u8>>, bf: Seq<u8>|
            #![trigger bbs_blind_signature_valid_spec(pk@, sig, header, messages, committed, bf)]
            !bbs_blind_signature_valid_spec(pk@, sig, header, messages, committed, bf),
{
    match BBSplusPublicKey::from_bytes(pk) {
        Ok(_) => Ok(()),
        Err(e) => Err(e),
    }
}

/// Calls `BlindSignature::<BbsBls12381Sha256>::from_bytes`. Trusted: a
/// signature whose bytes do not decode verifies for no key, header, messages
/// or blind factor (verification decodes it first).
#[verifier::external_body]
pub(crate) fn bbs_blind_signature_check(sig: &[u8; 80]) -> (res: Result<(), BbsError>)
    ensures
        res is Err ==> forall|pk: Seq<u8>, header: Seq<u8>, messages: Seq<Seq<u8>>, committed: Seq<Seq<u8>>, bf: Seq<u8>|
            #![trigger bbs_blind_signature_valid_spec(pk, sig@, header, messages, committed, bf)]
            !bbs_blind_signature_valid_spec(pk, sig@, header, messages, committed, bf),
{
    match BlindSignature::<BbsBls12381Sha256>::from_bytes(sig) {
        Ok(_) => Ok(()),
        Err(e) => Err(e),
    }
}

/// Calls `BlindFactor::from_bytes`. Trusted: a blind factor whose bytes do not
/// decode makes no blind signature verify (verification decodes it first).
#[verifier::external_body]
pub(crate) fn bbs_blind_factor_check(bf: &[u8; 32]) -> (res: Result<(), BbsError>)
    ensures
        res is Err ==> forall|pk: Seq<u8>, sig: Seq<u8>, header: Seq<u8>, messages: Seq<Seq<u8>>, committed: Seq<Seq<u8>>|
            #![trigger bbs_blind_signature_valid_spec(pk, sig, header, messages, committed, bf@)]
            !bbs_blind_signature_valid_spec(pk, sig, header, messages, committed, bf@),
{
    match BlindFactor::from_bytes(bf) {
        Ok(_) => Ok(()),
        Err(e) => Err(e),
    }
}

/// Decodes the public key and the proof, then calls `blind_proof_verify`.
/// Trusted: the outcome is a function of the inputs. Inputs on which the
/// crate's decoder or its index arithmetic would panic are excluded: the
/// crate sorts and deduplicates the indexes before counting them, and reads
/// one disclosed message per index, so the indexes must be ascending without
/// repeats and match the disclosed messages in number.
#[verifier::external_body]
pub(crate) fn bbs_blind_proof_verify(
    pk: &[u8],
    proof: &[u8],
    header: &[u8],
    presentation_header: &[u8],
    message_count: usize,
    disclosed: &Vec<Vec<u8>>,
    disclosed_committed: &Vec<Vec<u8>>,
    disclosed_indexes: &[usize],
    disclosed_commitment_indexes: &[usize],
) -> (ok: bool)
    requires
        pk@.len() >= 96,
        bbs_proof_parse_safe(proof@.len(), disclosed_indexes@.len(), disclosed_commitment_indexes@.len(), message_count as nat),
        disclosed@.len() == disclosed_indexes@.len(),
        disclosed_committed@.len() == disclosed_commitment_indexes@.len(),
        strictly_increasing(disclosed_indexes@),
        strictly_increasing(disclosed_commitment_indexes@),
    ensures
        ok == bbs_proof_valid_spec(
            pk@,
            proof@,
            header@,
            presentation_header@,
            message_count as nat,
            vecs_view(disclosed@),
            vecs_view(disclosed_committed@),
            disclosed_indexes@,
            disclosed_commitment_indexes@,
        ),
{
    let (Ok(pk), Ok(p)) = (BBSplusPublicKey::from_bytes(pk), PoKSignature::<BbsBls12381Sha256>::from_bytes(proof)) else {
        return false;
    };
    let (d, dc) = (Some(disclosed.as_slice()), Some(disclosed_committed.as_slice()));
    let (h, ph) = (Some(header), Some(presentation_header));
    p.blind_proof_verify(&pk, h, ph, Some(message_count), d, dc, Some(disclosed_indexes), Some(disclosed_commitment_indexes)).is_ok()
}

/// Debug text of a `zkryptium` error (`format!("{e:?}")`).
#[verifier::external_body]
pub(crate) fn bbs_error_text(e: &BbsError) -> (text: String) {
    format!("{e:?}")
}

} // verus!
