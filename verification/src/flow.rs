//! End-to-end flows: `mint_start`, `mint_finish`, `publish`,
//! `verify_proof_only`, `verify`.

use vstd::prelude::*;

use crate::attrs::{category_bytes, tier_bytes, DisclosureMask, MintContext, ProductCategory, PurchaseTier};
use crate::bbs::{
    bbs_blind_proof_gen, bbs_blind_proof_verify, bbs_blind_signature_valid_spec, bbs_commit,
    bbs_commitment_spec, bbs_error_text, bbs_proof_parse_safe, bbs_proof_valid_spec, bbs_public_key_check, bbs_blind_signature_check, bbs_blind_factor_check,
    bbs_public_key_decodes_spec, bbs_verify_blind_signature, select, strictly_increasing,
};
use crate::bytes::{bytes_to_vec, vecs_view};
use crate::canonical::{canonical_message, canonical_message_spec, utf8};
use crate::credential::{Credential, MintRequest, MintResponse, MintState};
use crate::ed25519::{
    ed25519_key_decodes_spec, ed25519_public_key, ed25519_public_spec, ed25519_sign,
    ed25519_sign_spec, ed25519_verify, ed25519_verify_spec,
};
use crate::error::{Error, VerifyError};
use crate::jcs::lit;
use crate::keyset::PublicKeyset;
use crate::messages::{
    build_committed_messages, build_disclosed_indexes, build_disclosed_messages,
    build_signer_messages, disclosed_indexes, disclosed_messages, header_bytes, signer_messages,
    BBS_SIGNATURE_BYTES, HEADER, SIGNER_MESSAGE_COUNT,
};
use crate::payload::{CredentialProof, ReviewBody, ReviewPayload};
use crate::primitives::{random_bytes32, sha256, sha256_spec};
use crate::registry::Registry;
use crate::PROTOCOL_VERSION;

verus! {

/// Attribute value disclosed by a mask.
pub open spec fn disclosed<T>(disclose: bool, value: T) -> Option<T> {
    if disclose {
        Some(value)
    } else {
        None
    }
}

/// The disclosed messages of a presentation are the signer's messages at the
/// disclosed indexes, one per index, and the indexes ascend.
proof fn lemma_disclosure_shape(
    merchant_id: Seq<char>,
    issued_at: Seq<char>,
    tier: PurchaseTier,
    category: ProductCategory,
    disclose_tier: bool,
    disclose_category: bool,
)
    ensures
        select(
            signer_messages(merchant_id, issued_at, tier, category),
            disclosed_indexes(disclose_tier, disclose_category),
        ) == disclosed_messages(
            merchant_id,
            issued_at,
            disclosed(disclose_tier, tier),
            disclosed(disclose_category, category),
        ),
        strictly_increasing(disclosed_indexes(disclose_tier, disclose_category)),
{
    let idx = disclosed_indexes(disclose_tier, disclose_category);
    let sel = select(signer_messages(merchant_id, issued_at, tier, category), idx);
    let d = disclosed_messages(merchant_id, issued_at, disclosed(disclose_tier, tier), disclosed(disclose_category, category));
    if disclose_tier {
        if disclose_category {
            assert(idx =~= seq![0usize, 1usize, 2usize, 3usize]);
        } else {
            assert(idx =~= seq![0usize, 1usize, 2usize]);
        }
    } else {
        if disclose_category {
            assert(idx =~= seq![0usize, 1usize, 3usize]);
        } else {
            assert(idx =~= seq![0usize, 1usize]);
        }
    }
    assert(sel =~= d);
}

/// The disclosed messages of a payload are as many as its disclosed indexes.
proof fn lemma_disclosed_len(
    merchant_id: Seq<char>,
    issued_at: Seq<char>,
    tier: Option<PurchaseTier>,
    category: Option<ProductCategory>,
)
    ensures
        disclosed_messages(merchant_id, issued_at, tier, category).len()
            == disclosed_indexes(tier is Some, category is Some).len(),
        strictly_increasing(disclosed_indexes(tier is Some, category is Some)),
{
    let t = match tier { Some(t) => t, None => PurchaseTier::Low };
    let c = match category { Some(c) => c, None => ProductCategory::Drinks };
    lemma_disclosure_shape(merchant_id, issued_at, t, c, tier is Some, category is Some);
    assert(disclosed(tier is Some, t) == tier);
    assert(disclosed(category is Some, c) == category);
}

/// The canonical message that a payload's holder signature covers, as the
/// verifier recomputes it against `keyset`.
pub open spec fn payload_message(payload: ReviewPayload, keyset: PublicKeyset) -> Seq<u8> {
    canonical_message_spec(
        payload.review_body,
        payload.credential_proof.hpk@,
        keyset.keyset_id.0@,
        payload.credential_proof.purchase_tier,
        payload.credential_proof.product_category,
    )
}

/// The outcome of checking a payload against a keyset, stage by stage.
pub enum ReviewCheck {
    Accepted,
    KeysetMismatch,
    HolderSignatureInvalid,
    KeysetKeyInvalid,
    ProofInvalid,
}

/// What verifying `payload` against `keyset` finds: the keyset identifiers
/// must match, the holder signature must verify over the recomputed canonical
/// message, the keyset's BBS+ key must decode, and the BBS+ presentation proof
/// must verify over the disclosed messages with the SHA-256 of the message as
/// presentation header.
pub open spec fn review_check(payload: ReviewPayload, keyset: PublicKeyset) -> ReviewCheck {
    let cp = payload.credential_proof;
    let m = payload_message(payload, keyset);
    if cp.keyset_id.0@ != keyset.keyset_id.0@ {
        ReviewCheck::KeysetMismatch
    } else if !ed25519_key_decodes_spec(cp.hpk@) || !ed25519_verify_spec(cp.hpk@, m, payload.sig@) {
        ReviewCheck::HolderSignatureInvalid
    } else if !bbs_public_key_decodes_spec(keyset.public_key_bytes@) {
        ReviewCheck::KeysetKeyInvalid
    } else if !bbs_proof_valid_spec(
        keyset.public_key_bytes@,
        cp.bbs_proof@,
        header_bytes(),
        sha256_spec(m),
        SIGNER_MESSAGE_COUNT as nat,
        disclosed_messages(
            payload.review_body.merchant_id@,
            payload.review_body.issued_at@,
            cp.purchase_tier,
            cp.product_category,
        ),
        seq![cp.hpk@],
        disclosed_indexes(cp.purchase_tier is Some, cp.product_category is Some),
        seq![0usize],
    ) {
        ReviewCheck::ProofInvalid
    } else {
        ReviewCheck::Accepted
    }
}

/// A review is accepted only when every stage holds, whatever it discloses:
/// the payload names the keyset, the holder signature verifies over the
/// canonical message, and the BBS+ presentation proof verifies under the
/// keyset's key for the SHA-256 of that message as presentation header, over
/// the merchant and issuance time of the review body, the disclosed
/// attributes at their indexes and the committed holder key.
pub proof fn law_accepted_review_is_fully_checked(p: ReviewPayload, ks: PublicKeyset)
    requires
        review_check(p, ks) is Accepted,
    ensures
        ({
            let cp = p.credential_proof;
            let m = canonical_message_spec(p.review_body, cp.hpk@, ks.keyset_id.0@, cp.purchase_tier, cp.product_category);
            &&& cp.keyset_id.0@ == ks.keyset_id.0@
            &&& ed25519_key_decodes_spec(cp.hpk@)
            &&& ed25519_verify_spec(cp.hpk@, m, p.sig@)
            &&& bbs_public_key_decodes_spec(ks.public_key_bytes@)
            &&& bbs_proof_valid_spec(
                ks.public_key_bytes@,
                cp.bbs_proof@,
                header_bytes(),
                sha256_spec(m),
                4,
                disclosed_messages(p.review_body.merchant_id@, p.review_body.issued_at@, cp.purchase_tier, cp.product_category),
                seq![cp.hpk@],
                disclosed_indexes(cp.purchase_tier is Some, cp.product_category is Some),
                seq![0usize],
            )
        }),
{
}

/// The verification result that a check outcome calls for.
pub open spec fn check_result(res: Result<(), VerifyError>, check: ReviewCheck) -> bool {
    match check {
        ReviewCheck::Accepted => res is Ok,
        ReviewCheck::KeysetMismatch => res matches Err(VerifyError::KeysetMismatch),
        ReviewCheck::HolderSignatureInvalid => res matches Err(VerifyError::HolderSignatureInvalid),
        ReviewCheck::KeysetKeyInvalid => res matches Err(VerifyError::Malformed(t)) && t@ == "invalid keyset public key"@,
        ReviewCheck::ProofInvalid => res matches Err(VerifyError::ProofInvalid),
    }
}

/// Inputs on which the BBS+ decoders that verification reaches cannot panic:
/// a keyset key of at least 96 bytes and a proof of a decodable shape, once
/// the keyset and holder-signature checks have passed.
pub open spec fn verify_inputs_safe(payload: ReviewPayload, keyset: PublicKeyset) -> bool {
    let cp = payload.credential_proof;
    (cp.keyset_id.0@ == keyset.keyset_id.0@ && ed25519_key_decodes_spec(cp.hpk@)
        && ed25519_verify_spec(cp.hpk@, payload_message(payload, keyset), payload.sig@)) ==> {
        &&& keyset.public_key_bytes@.len() >= 96
        &&& (bbs_public_key_decodes_spec(keyset.public_key_bytes@) ==> bbs_proof_parse_safe(
            cp.bbs_proof@.len(),
            disclosed_indexes(cp.purchase_tier is Some, cp.product_category is Some).len(),
            1,
            SIGNER_MESSAGE_COUNT as nat,
        ))
    }
}

/// What `publish` promises of a payload made from `credential`, `body` and
/// `mask`: the fields it carries, and a holder signature over the canonical
/// message that verifies under the public key of the credential's secret key.
pub open spec fn published_from(p: ReviewPayload, credential: Credential, body: ReviewBody, mask: DisclosureMask) -> bool {
    let tier = disclosed(mask.disclose_tier, credential.purchase_tier);
    let category = disclosed(mask.disclose_category, credential.product_category);
    let m = canonical_message_spec(body, credential.hpk@, credential.keyset.keyset_id.0@, tier, category);
    &&& p.version@ == PROTOCOL_VERSION@
    &&& p.review_body == body
    &&& p.credential_proof.hpk == credential.hpk
    &&& p.credential_proof.keyset_id == credential.keyset.keyset_id
    &&& p.credential_proof.purchase_tier == tier
    &&& p.credential_proof.product_category == category
    &&& p.sig@ == ed25519_sign_spec(credential.hsk@, m)
    &&& ed25519_verify_spec(ed25519_public_spec(credential.hsk@), m, p.sig@)
}

/// The credential's blind signature verifies under its keyset's key over the
/// signer's messages and the committed holder key, with its blind factor.
pub open spec fn credential_signed(c: Credential) -> bool {
    bbs_blind_signature_valid_spec(
        c.keyset.public_key_bytes@,
        c.blind_signature@,
        header_bytes(),
        signer_messages(c.merchant_id@, c.issued_at@, c.purchase_tier, c.product_category),
        seq![c.hpk@],
        c.blind_factor@,
    )
}

/// What `publish` promises of the BBS+ proof in `p`: when the credential's
/// blind signature is valid, the proof verifies under the keyset's key for the
/// SHA-256 of the signed canonical message as presentation header, over the
/// disclosed signer messages at the disclosed indexes and the committed
/// holder key.
pub open spec fn published_proof_sound(p: ReviewPayload, credential: Credential, body: ReviewBody, mask: DisclosureMask) -> bool {
    let tier = disclosed(mask.disclose_tier, credential.purchase_tier);
    let category = disclosed(mask.disclose_category, credential.product_category);
    let m = canonical_message_spec(body, credential.hpk@, credential.keyset.keyset_id.0@, tier, category);
    credential_signed(credential) ==> bbs_proof_valid_spec(
        credential.keyset.public_key_bytes@,
        p.credential_proof.bbs_proof@,
        header_bytes(),
        sha256_spec(m),
        SIGNER_MESSAGE_COUNT as nat,
        disclosed_messages(credential.merchant_id@, credential.issued_at@, tier, category),
        seq![credential.hpk@],
        disclosed_indexes(mask.disclose_tier, mask.disclose_category),
        seq![0usize],
    )
}

/// The shape of a published BBS+ proof: its length is what the proof decoder
/// and the verifier's index arithmetic accept for the disclosed indexes that
/// `mask` selects, one disclosed committed message and the signer's messages.
pub open spec fn published_proof_shaped(p: ReviewPayload, mask: DisclosureMask) -> bool {
    bbs_proof_parse_safe(
        p.credential_proof.bbs_proof@.len(),
        disclosed_indexes(mask.disclose_tier, mask.disclose_category).len(),
        1,
        SIGNER_MESSAGE_COUNT as nat,
    )
}

/// A published payload discloses exactly what the mask selects, each
/// attribute on its own: the tier when the mask asks for the tier, the
/// category when it asks for the category. The holder signature covers those
/// disclosures, and (for a validly signed credential) the BBS+ proof discloses
/// signer messages 0 and 1, then 2 for the tier and 3 for the category, over
/// the credential's own attribute values.
pub proof fn law_publish_discloses_what_the_mask_selects(
    p: ReviewPayload,
    credential: Credential,
    body: ReviewBody,
    mask: DisclosureMask,
)
    requires
        published_from(p, credential, body, mask),
        published_proof_sound(p, credential, body, mask),
    ensures
        p.credential_proof.purchase_tier == (if mask.disclose_tier {
            Some(credential.purchase_tier)
        } else {
            None
        }),
        p.credential_proof.product_category == (if mask.disclose_category {
            Some(credential.product_category)
        } else {
            None
        }),
        credential_signed(credential) ==> bbs_proof_valid_spec(
            credential.keyset.public_key_bytes@,
            p.credential_proof.bbs_proof@,
            header_bytes(),
            sha256_spec(canonical_message_spec(
                body,
                credential.hpk@,
                credential.keyset.keyset_id.0@,
                p.credential_proof.purchase_tier,
                p.credential_proof.product_category,
            )),
            4,
            seq![utf8(credential.merchant_id@), utf8(credential.issued_at@)] + (if mask.disclose_tier {
                seq![tier_bytes(credential.purchase_tier)]
            } else {
                Seq::empty()
            }) + (if mask.disclose_category {
                seq![category_bytes(credential.product_category)]
            } else {
                Seq::empty()
            }),
            seq![credential.hpk@],
            seq![0usize, 1usize] + (if mask.disclose_tier {
                seq![2usize]
            } else {
                Seq::empty()
            }) + (if mask.disclose_category {
                seq![3usize]
            } else {
                Seq::empty()
            }),
            seq![0usize],
        ),
{
}

/// The holder key pair of a credential is consistent: `hpk` is the public key
/// of `hsk` and decodes.
pub open spec fn holder_keys_consistent(hpk: Seq<u8>, hsk: Seq<u8>) -> bool {
    &&& hpk == ed25519_public_spec(hsk)
    &&& ed25519_key_decodes_spec(hpk)
}

/// A payload published from a credential whose holder keys are consistent
/// passes verification's keyset and holder-signature stages against the
/// credential's keyset: the verifier recomputes exactly the canonical message
/// that the holder signed. (Whether the BBS+ proof then verifies is up to the
/// BBS+ implementation.)
pub proof fn law_published_payload_passes_holder_checks(
    p: ReviewPayload,
    credential: Credential,
    body: ReviewBody,
    mask: DisclosureMask,
    keyset: PublicKeyset,
)
    requires
        published_from(p, credential, body, mask),
        holder_keys_consistent(credential.hpk@, credential.hsk@),
        keyset.keyset_id == credential.keyset.keyset_id,
    ensures
        review_check(p, keyset) !is KeysetMismatch,
        review_check(p, keyset) !is HolderSignatureInvalid,
{
}

/// An honestly minted and published review verifies: a payload that
/// `publish` made from a credential whose holder keys are consistent, whose
/// blind signature is valid under a keyset key that decodes (what
/// `mint_start` and `mint_finish` establish), for a body naming the
/// credential's merchant and issuance time, passes every stage of
/// verification against the credential's keyset; and with the proof shape
/// that `publish` states and a keyset key of 96 bytes, verification cannot
/// reach an input that the BBS+ decoders refuse.
pub proof fn law_honest_review_accepted(
    p: ReviewPayload,
    credential: Credential,
    body: ReviewBody,
    mask: DisclosureMask,
)
    requires
        published_from(p, credential, body, mask),
        published_proof_sound(p, credential, body, mask),
        credential_signed(credential),
        bbs_public_key_decodes_spec(credential.keyset.public_key_bytes@),
        holder_keys_consistent(credential.hpk@, credential.hsk@),
        body.merchant_id@ == credential.merchant_id@,
        body.issued_at@ == credential.issued_at@,
    ensures
        review_check(p, credential.keyset) is Accepted,
        published_proof_shaped(p, mask) && credential.keyset.public_key_bytes@.len() >= 96
            ==> verify_inputs_safe(p, credential.keyset),
{
}

/// Begin a mint flow: generate a fresh Ed25519 holder keypair, commit the
/// holder public key `hpk` to BBS+, and produce a [`MintRequest`] for the
/// issuer together with the wallet-side [`MintState`].
pub fn mint_start(keyset: &PublicKeyset, ctx: &MintContext) -> (res: Result<(MintState, MintRequest), Error>)
    ensures
        res is Ok,
        res matches Ok((state, request)) ==> {
                &&& holder_keys_consistent(state.hpk_bytes@, state.hsk_bytes@)
                &&& state.keyset.issuer_id == keyset.issuer_id
                &&& state.keyset.merchant_id == keyset.merchant_id
                &&& state.keyset.keyset_id == keyset.keyset_id
                &&& state.keyset.public_key_bytes@ == keyset.public_key_bytes@
                &&& state.merchant_id@ == ctx.merchant_id@
                &&& state.issued_at@ == ctx.issued_at@
                &&& state.purchase_tier == ctx.purchase_tier
                &&& state.product_category == ctx.product_category
                &&& request.issuer_id@ == keyset.issuer_id@
                &&& request.merchant_id@ == ctx.merchant_id@
                &&& request.issued_at@ == ctx.issued_at@
                &&& request.purchase_tier == ctx.purchase_tier
                &&& request.product_category == ctx.product_category
                &&& request.keyset_id == keyset.keyset_id
                &&& bbs_commitment_spec(request.commitment_bytes@, state.blind_factor_bytes@, seq![state.hpk_bytes@])
            },
{
    let hsk = random_bytes32();
    let hpk = ed25519_public_key(&hsk);
    let committed = build_committed_messages(&hpk);
    let (commitment_bytes, blind_factor_bytes) = match bbs_commit(&committed) {
        Ok(c) => c,
        Err(e) => {
            return Err(Error::Bbs(bbs_error_text(&e)));
        },
    };
    let request = MintRequest {
        issuer_id: keyset.issuer_id.clone(),
        merchant_id: ctx.merchant_id.clone(),
        issued_at: ctx.issued_at.clone(),
        purchase_tier: ctx.purchase_tier,
        product_category: ctx.product_category,
        keyset_id: keyset.keyset_id,
        commitment_bytes,
    };
    let state = MintState {
        hsk_bytes: hsk,
        hpk_bytes: hpk,
        blind_factor_bytes,
        keyset: keyset.clone(),
        merchant_id: ctx.merchant_id.clone(),
        issued_at: ctx.issued_at.clone(),
        purchase_tier: ctx.purchase_tier,
        product_category: ctx.product_category,
    };
    Ok((state, request))
}

/// Copies an 80-byte slice into an array.
fn signature_array(bytes: &[u8]) -> (sig: [u8; 80])
    requires
        bytes@.len() == 80,
    ensures
        sig@ == bytes@,
{
    let mut sig = [0u8; 80];
    let mut i: usize = 0;
    while i < 80
        invariant
            bytes@.len() == 80,
            i <= 80,
            sig@.len() == 80,
            forall|j: int| 0 <= j < i ==> sig@[j] == bytes@[j],
        decreases 80 - i,
    {
        sig.set(i, bytes[i]);
        i = i + 1;
    }
    assert(sig@ =~= bytes@);
    sig
}

/// Finish a mint flow with the issuer's [`MintResponse`]: check the blind
/// signature locally and package everything into a [`Credential`].
pub fn mint_finish(state: MintState, response: MintResponse) -> (res: Result<Credential, Error>)
    requires
        response.blind_signature_bytes@.len() == BBS_SIGNATURE_BYTES ==> state.keyset.public_key_bytes@.len() >= 96,
    ensures
        response.blind_signature_bytes@.len() != BBS_SIGNATURE_BYTES ==> (res matches Err(Error::InvalidInput(m))
            && m@ == "blind_signature_bytes: expected 80 bytes"@),
        response.blind_signature_bytes@.len() == BBS_SIGNATURE_BYTES ==> {
            if bbs_blind_signature_valid_spec(
                state.keyset.public_key_bytes@,
                response.blind_signature_bytes@,
                header_bytes(),
                signer_messages(state.merchant_id@, state.issued_at@, state.purchase_tier, state.product_category),
                seq![state.hpk_bytes@],
                state.blind_factor_bytes@,
            ) {
                res matches Ok(c) && {
                    &&& c.version@ == PROTOCOL_VERSION@
                    &&& c.hpk == state.hpk_bytes
                    &&& c.hsk == state.hsk_bytes
                    &&& c.blind_factor == state.blind_factor_bytes
                    &&& c.blind_signature@ == response.blind_signature_bytes@
                    &&& c.keyset == state.keyset
                    &&& c.merchant_id == state.merchant_id
                    &&& c.issued_at == state.issued_at
                    &&& c.purchase_tier == state.purchase_tier
                    &&& c.product_category == state.product_category
                    &&& credential_signed(c)
                    &&& bbs_public_key_decodes_spec(c.keyset.public_key_bytes@)
                }
            } else {
                res matches Err(Error::Bbs(_))
            }
        },
{
    if response.blind_signature_bytes.len() != BBS_SIGNATURE_BYTES {
        return Err(Error::InvalidInput("blind_signature_bytes: expected 80 bytes".to_owned()));
    }
    let sig = signature_array(response.blind_signature_bytes.as_slice());
    match bbs_blind_signature_check(&sig) {
        Err(e) => {
            return Err(Error::Bbs(bbs_error_text(&e)));
        },
        Ok(()) => {},
    }
    match bbs_blind_factor_check(&state.blind_factor_bytes) {
        Err(e) => {
            return Err(Error::Bbs(bbs_error_text(&e)));
        },
        Ok(()) => {},
    }
    match bbs_public_key_check(state.keyset.public_key_bytes.as_slice()) {
        Err(e) => {
            let mut m = "PublicKey::from_bytes: ".to_owned();
            m.append(bbs_error_text(&e).as_str());
            return Err(Error::Bbs(m));
        },
        Ok(()) => {},
    }
    let revealed = build_signer_messages(
        state.merchant_id.as_str(),
        state.issued_at.as_str(),
        state.purchase_tier,
        state.product_category,
    );
    let committed = build_committed_messages(&state.hpk_bytes);
    match bbs_verify_blind_signature(
        state.keyset.public_key_bytes.as_slice(),
        &sig,
        HEADER.as_bytes(),
        &revealed,
        &committed,
        &state.blind_factor_bytes,
    ) {
        Err(e) => Err(Error::Bbs(bbs_error_text(&e))),
        Ok(()) => Ok(Credential {
            version: PROTOCOL_VERSION.to_owned(),
            hpk: state.hpk_bytes,
            hsk: state.hsk_bytes,
            blind_factor: state.blind_factor_bytes,
            blind_signature: bytes_to_vec(sig.as_slice()),
            keyset: state.keyset,
            merchant_id: state.merchant_id,
            issued_at: state.issued_at,
            purchase_tier: state.purchase_tier,
            product_category: state.product_category,
        }),
    }
}

/// Publish a review using a credential. Generates the Ed25519 holder
/// signature and the BBS+ presentation proof, both bound to the canonical
/// review message; the mask chooses which optional attributes are disclosed.
pub fn publish(credential: &Credential, body: ReviewBody, mask: DisclosureMask) -> (res: Result<ReviewPayload, Error>)
    requires
        credential.keyset.public_key_bytes@.len() >= 96,
    ensures
        match res {
            Ok(p) => {
                &&& published_from(p, *credential, body, mask)
                &&& published_proof_sound(p, *credential, body, mask)
                &&& published_proof_shaped(p, mask)
            },
            Err(e) => e is Bbs,
        },
        res matches Ok(p) ==> p.credential_proof.purchase_tier == (if mask.disclose_tier {
            Some(credential.purchase_tier)
        } else {
            None
        }),
        res matches Ok(p) ==> p.credential_proof.product_category == (if mask.disclose_category {
            Some(credential.product_category)
        } else {
            None
        }),
        !bbs_public_key_decodes_spec(credential.keyset.public_key_bytes@) ==> (res matches Err(Error::Bbs(m))
            && "PublicKey::from_bytes: "@.is_prefix_of(m@)),
{
    let tier = if mask.disclose_tier {
        Some(credential.purchase_tier)
    } else {
        None
    };
    let category = if mask.disclose_category {
        Some(credential.product_category)
    } else {
        None
    };
    let m = canonical_message(&body, &credential.hpk, &credential.keyset.keyset_id, tier, category);
    let sig = ed25519_sign(&credential.hsk, m.as_slice());
    let presentation_header = sha256(m.as_slice());
    let messages = build_signer_messages(
        credential.merchant_id.as_str(),
        credential.issued_at.as_str(),
        credential.purchase_tier,
        credential.product_category,
    );
    let committed = build_committed_messages(&credential.hpk);
    let disclosed_idx = build_disclosed_indexes(mask.disclose_tier, mask.disclose_category);
    let mut disclosed_commitment_idx: Vec<usize> = Vec::new();
    disclosed_commitment_idx.push(0);
    assert(disclosed_commitment_idx@ =~= seq![0usize]);
    proof {
        lemma_disclosure_shape(
            credential.merchant_id@,
            credential.issued_at@,
            credential.purchase_tier,
            credential.product_category,
            mask.disclose_tier,
            mask.disclose_category,
        );
        assert(vecs_view(messages@).len() == messages@.len());
        assert(strictly_increasing(disclosed_commitment_idx@));
        assert(select(vecs_view(committed@), disclosed_commitment_idx@) =~= seq![credential.hpk@]);
    }
    match bbs_public_key_check(credential.keyset.public_key_bytes.as_slice()) {
        Err(e) => {
            let mut m = "PublicKey::from_bytes: ".to_owned();
            m.append(bbs_error_text(&e).as_str());
            return Err(Error::Bbs(m));
        },
        Ok(()) => {},
    }
    match bbs_blind_factor_check(&credential.blind_factor) {
        Err(e) => {
            return Err(Error::Bbs(bbs_error_text(&e)));
        },
        Ok(()) => {},
    }
    let proof = match bbs_blind_proof_gen(
        credential.keyset.public_key_bytes.as_slice(),
        credential.blind_signature.as_slice(),
        HEADER.as_bytes(),
        presentation_header.as_slice(),
        &messages,
        &committed,
        disclosed_idx.as_slice(),
        disclosed_commitment_idx.as_slice(),
        &credential.blind_factor,
    ) {
        Ok(p) => p,
        Err(e) => {
            return Err(Error::Bbs(bbs_error_text(&e)));
        },
    };
    proof {
        let d = disclosed_indexes(mask.disclose_tier, mask.disclose_category).len();
        let k = (6 - d) as int;
        assert(2 <= d <= 4);
        assert(proof@.len() == 240 + 32 * k);
        assert((proof@.len() - 240) / 32 == k) by (nonlinear_arith)
            requires proof@.len() == 240 + 32 * k, k >= 0;
    }
    Ok(ReviewPayload {
        version: PROTOCOL_VERSION.to_owned(),
        review_body: body,
        credential_proof: CredentialProof {
            hpk: credential.hpk,
            keyset_id: credential.keyset.keyset_id,
            bbs_proof: proof,
            purchase_tier: tier,
            product_category: category,
        },
        sig,
    })
}

/// The first stages of verification: the payload must name `keyset`, and
/// its holder signature must verify over the canonical message recomputed
/// against `keyset`, which is returned.
pub fn verify_holder_signature(payload: &ReviewPayload, keyset: &PublicKeyset) -> (res: Result<Vec<u8>, VerifyError>)
    ensures
        match res {
            Ok(m) => {
                &&& m@ == payload_message(*payload, *keyset)
                &&& payload.credential_proof.keyset_id.0@ == keyset.keyset_id.0@
                &&& ed25519_key_decodes_spec(payload.credential_proof.hpk@)
                &&& ed25519_verify_spec(payload.credential_proof.hpk@, m@, payload.sig@)
            },
            Err(e) => {
                let check = review_check(*payload, *keyset);
                &&& check is KeysetMismatch || check is HolderSignatureInvalid
                &&& check_result(Err(e), check)
            },
        },
{
    let cp = &payload.credential_proof;
    if !cp.keyset_id.same_as(&keyset.keyset_id) {
        return Err(VerifyError::KeysetMismatch);
    }
    let m = canonical_message(
        &payload.review_body,
        &cp.hpk,
        &keyset.keyset_id,
        cp.purchase_tier,
        cp.product_category,
    );
    match ed25519_verify(&cp.hpk, m.as_slice(), &payload.sig) {
        Some(true) => Ok(m),
        _ => Err(VerifyError::HolderSignatureInvalid),
    }
}

/// Whether the payload's BBS+ proof has a shape that the proof decoder and
/// the verifier's index arithmetic accept without panicking.
pub fn proof_shape_safe(payload: &ReviewPayload) -> (ok: bool)
    ensures
        ok == bbs_proof_parse_safe(
            payload.credential_proof.bbs_proof@.len(),
            disclosed_indexes(
                payload.credential_proof.purchase_tier is Some,
                payload.credential_proof.product_category is Some,
            ).len(),
            1,
            SIGNER_MESSAGE_COUNT as nat,
        ),
{
    let len = payload.credential_proof.bbs_proof.len();
    let mut disclosed: usize = 2;
    if payload.credential_proof.purchase_tier.is_some() {
        disclosed = disclosed + 1;
    }
    if payload.credential_proof.product_category.is_some() {
        disclosed = disclosed + 1;
    }
    assert(disclosed == disclosed_indexes(
        payload.credential_proof.purchase_tier is Some,
        payload.credential_proof.product_category is Some,
    ).len());
    if len < 240 {
        return false;
    }
    let chunks = (len - 240) / 32;
    chunks == 0 || disclosed + (chunks - 1) >= SIGNER_MESSAGE_COUNT
}

/// Whether verifying `payload` against `keyset` stays clear of the inputs on
/// which the BBS+ decoders panic; callers test this before `verify_proof_only`,
/// `verify` or `ReviewStore::check_and_insert`.
pub fn verify_inputs_checked(payload: &ReviewPayload, keyset: &PublicKeyset) -> (ok: bool)
    ensures
        ok == verify_inputs_safe(*payload, *keyset),
{
    match verify_holder_signature(payload, keyset) {
        Err(_) => true,
        Ok(_) => {
            if keyset.public_key_bytes.len() < 96 {
                return false;
            }
            if bbs_public_key_check(keyset.public_key_bytes.as_slice()).is_err() {
                return true;
            }
            proof_shape_safe(payload)
        },
    }
}

/// Verify the cryptographic parts of a [`ReviewPayload`] (keyset match,
/// Ed25519 holder signature, BBS+ presentation proof, canonical-message
/// binding). Does not consult any nullifier registry — use [`verify`] for
/// that. Suitable for a reader that has the payload and the issuer's public
/// keyset but no shared registry state.
pub fn verify_proof_only(payload: &ReviewPayload, keyset: &PublicKeyset) -> (res: Result<(), VerifyError>)
    requires
        verify_inputs_safe(*payload, *keyset),
    ensures
        check_result(res, review_check(*payload, *keyset)),
        res is Ok ==> {
            let cp = payload.credential_proof;
            let m = canonical_message_spec(payload.review_body, cp.hpk@, keyset.keyset_id.0@, cp.purchase_tier, cp.product_category);
            &&& cp.keyset_id.0@ == keyset.keyset_id.0@
            &&& ed25519_verify_spec(cp.hpk@, m, payload.sig@)
            &&& bbs_proof_valid_spec(
                keyset.public_key_bytes@,
                cp.bbs_proof@,
                header_bytes(),
                sha256_spec(m),
                4,
                disclosed_messages(payload.review_body.merchant_id@, payload.review_body.issued_at@, cp.purchase_tier, cp.product_category),
                seq![cp.hpk@],
                disclosed_indexes(cp.purchase_tier is Some, cp.product_category is Some),
                seq![0usize],
            )
        },
{
    let cp = &payload.credential_proof;
    let m = match verify_holder_signature(payload, keyset) {
        Ok(m) => m,
        Err(e) => {
            return Err(e);
        },
    };
    if bbs_public_key_check(keyset.public_key_bytes.as_slice()).is_err() {
        return Err(VerifyError::Malformed("invalid keyset public key".to_owned()));
    }
    let presentation_header = sha256(m.as_slice());
    let disclosed_msgs = build_disclosed_messages(
        payload.review_body.merchant_id.as_str(),
        payload.review_body.issued_at.as_str(),
        cp.purchase_tier,
        cp.product_category,
    );
    let disclosed_committed = build_committed_messages(&cp.hpk);
    let disclosed_idx = build_disclosed_indexes(cp.purchase_tier.is_some(), cp.product_category.is_some());
    let mut disclosed_commitment_idx: Vec<usize> = Vec::new();
    disclosed_commitment_idx.push(0);
    assert(disclosed_commitment_idx@ =~= seq![0usize]);
    proof {
        lemma_disclosed_len(
            payload.review_body.merchant_id@,
            payload.review_body.issued_at@,
            cp.purchase_tier,
            cp.product_category,
        );
        assert(vecs_view(disclosed_committed@).len() == disclosed_committed@.len());
        assert(vecs_view(disclosed_msgs@).len() == disclosed_msgs@.len());
    }
    if !bbs_blind_proof_verify(
        keyset.public_key_bytes.as_slice(),
        cp.bbs_proof.as_slice(),
        HEADER.as_bytes(),
        presentation_header.as_slice(),
        SIGNER_MESSAGE_COUNT,
        &disclosed_msgs,
        &disclosed_committed,
        disclosed_idx.as_slice(),
        disclosed_commitment_idx.as_slice(),
    ) {
        return Err(VerifyError::ProofInvalid);
    }
    Ok(())
}

/// What `verify` does with a payload, a keyset and the registry's spent set
/// `before`: a payload that fails a stage is refused with that stage's error
/// and nothing is recorded; a payload that passes is refused as already used
/// when its nullifier is spent, and otherwise accepted with its nullifier
/// added to give `after`.
pub open spec fn verify_outcome(
    payload: ReviewPayload,
    keyset: PublicKeyset,
    before: Set<[u8; 32]>,
    res: Result<(), VerifyError>,
    after: Set<[u8; 32]>,
) -> bool {
    let check = review_check(payload, keyset);
    let hpk = payload.credential_proof.hpk;
    if check !is Accepted {
        &&& check_result(res, check)
        &&& after == before
    } else if before.contains(hpk) {
        &&& res matches Err(VerifyError::AlreadyUsed)
        &&& after == before
    } else {
        &&& res is Ok
        &&& after == before.insert(hpk)
    }
}

/// Two verification results are the same: the same variant, and the same
/// text for `Malformed`.
pub open spec fn same_verify_result(a: Result<(), VerifyError>, b: Result<(), VerifyError>) -> bool {
    match (a, b) {
        (Ok(()), Ok(())) => true,
        (Err(VerifyError::ProofInvalid), Err(VerifyError::ProofInvalid)) => true,
        (Err(VerifyError::HolderSignatureInvalid), Err(VerifyError::HolderSignatureInvalid)) => true,
        (Err(VerifyError::KeysetMismatch), Err(VerifyError::KeysetMismatch)) => true,
        (Err(VerifyError::AlreadyUsed), Err(VerifyError::AlreadyUsed)) => true,
        (Err(VerifyError::Malformed(x)), Err(VerifyError::Malformed(y))) => x@ == y@,
        _ => false,
    }
}

/// The registry-free verification result depends on the payload and the
/// keyset alone: any two results that `verify_proof_only` may give for them
/// are the same, whatever happened in between.
pub proof fn law_verify_proof_only_determined(
    payload: ReviewPayload,
    keyset: PublicKeyset,
    r1: Result<(), VerifyError>,
    r2: Result<(), VerifyError>,
)
    requires
        check_result(r1, review_check(payload, keyset)),
        check_result(r2, review_check(payload, keyset)),
    ensures
        same_verify_result(r1, r2),
{
}

/// `verify` only ever adds to the registry: what was spent stays spent.
pub proof fn law_verify_only_adds(
    payload: ReviewPayload,
    keyset: PublicKeyset,
    before: Set<[u8; 32]>,
    res: Result<(), VerifyError>,
    after: Set<[u8; 32]>,
)
    requires
        verify_outcome(payload, keyset, before, res, after),
    ensures
        before.subset_of(after),
        res is Ok ==> after.contains(payload.credential_proof.hpk),
{
}

/// One credential, at most one accepted review: once `verify` has accepted a
/// payload, a later `verify` against a registry that still holds what was
/// recorded refuses every payload with the same nullifier, as already used
/// whenever that payload passes the other stages.
pub proof fn law_one_review_per_credential(
    first: ReviewPayload,
    first_keyset: PublicKeyset,
    s0: Set<[u8; 32]>,
    s1: Set<[u8; 32]>,
    second: ReviewPayload,
    second_keyset: PublicKeyset,
    s2: Set<[u8; 32]>,
    res: Result<(), VerifyError>,
    s3: Set<[u8; 32]>,
)
    requires
        verify_outcome(first, first_keyset, s0, Ok(()), s1),
        s1.subset_of(s2),
        second.credential_proof.hpk == first.credential_proof.hpk,
        verify_outcome(second, second_keyset, s2, res, s3),
    ensures
        res is Err,
        review_check(second, second_keyset) is Accepted ==> res matches Err(VerifyError::AlreadyUsed),
{
    assert(s1.contains(first.credential_proof.hpk));
    assert(s2.contains(second.credential_proof.hpk));
}

/// Verify a published [`ReviewPayload`] against the issuer's public keyset
/// and record its nullifier (`hpk`) in the registry on success. A payload
/// whose nullifier is already recorded is refused as already used.
pub fn verify<R: Registry>(payload: &ReviewPayload, keyset: &PublicKeyset, registry: &mut R) -> (res: Result<(), VerifyError>)
    requires
        verify_inputs_safe(*payload, *keyset),
    ensures
        verify_outcome(*payload, *keyset, old(registry).spent(), res, final(registry).spent()),
{
    match verify_proof_only(payload, keyset) {
        Err(e) => {
            return Err(e);
        },
        Ok(()) => {},
    }
    if registry.contains(&payload.credential_proof.hpk) {
        return Err(VerifyError::AlreadyUsed);
    }
    registry.insert(payload.credential_proof.hpk);
    Ok(())
}

/// [`verify`] for any input: where the keyset key or the proof has a shape
/// that the BBS+ decoders cannot take, the payload is refused as malformed
/// and the registry is left alone; otherwise it is [`verify`].
pub fn verify_checked<R: Registry>(payload: &ReviewPayload, keyset: &PublicKeyset, registry: &mut R) -> (res: Result<(), VerifyError>)
    ensures
        !verify_inputs_safe(*payload, *keyset) ==> {
            &&& res matches Err(VerifyError::Malformed(t)) && t@ == "undecodable keyset key or proof"@
            &&& final(registry).spent() == old(registry).spent()
        },
        verify_inputs_safe(*payload, *keyset) ==> verify_outcome(
            *payload,
            *keyset,
            old(registry).spent(),
            res,
            final(registry).spent(),
        ),
{
    if !verify_inputs_checked(payload, keyset) {
        return Err(VerifyError::Malformed("undecodable keyset key or proof".to_owned()));
    }
    verify(payload, keyset, registry)
}

} // verus!
