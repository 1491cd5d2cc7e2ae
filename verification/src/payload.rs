//! Review payload types — the data published to the registry / reader.

use vstd::prelude::*;

use crate::attrs::{ProductCategory, PurchaseTier};
use crate::bytes::bytes_to_vec;
use crate::keyset::KeysetId;

verus! {

/// The user-visible review content.
#[derive(Debug)]
pub struct ReviewBody {
    pub text: String,
    pub rating: u8,
    pub merchant_id: String,
    pub issuer_id: String,
    pub issued_at: String,
    pub timestamp: String,
}

/// The cryptographic proof portion of a [`ReviewPayload`].
///
/// `purchase_tier` / `product_category` follow the BBS+ disclosure semantics:
/// `None` means the attribute was kept hidden in the proof; `Some(v)` means the
/// proof discloses that attribute at value `v`, and verification fails unless
/// the BBS+ proof was generated with the same disclosure.
#[derive(Debug)]
pub struct CredentialProof {
    pub hpk: [u8; 32],
    pub keyset_id: KeysetId,
    pub bbs_proof: Vec<u8>,
    pub purchase_tier: Option<PurchaseTier>,
    pub product_category: Option<ProductCategory>,
}

/// The full payload broadcast to a registry / read by a reader.
#[derive(Debug)]
pub struct ReviewPayload {
    pub version: String,
    pub review_body: ReviewBody,
    pub credential_proof: CredentialProof,
    pub sig: [u8; 64],
}

/// Two payloads hold the same content.
pub open spec fn same_payload(a: ReviewPayload, b: ReviewPayload) -> bool {
    &&& a.version == b.version
    &&& a.review_body == b.review_body
    &&& a.credential_proof.hpk == b.credential_proof.hpk
    &&& a.credential_proof.keyset_id == b.credential_proof.keyset_id
    &&& a.credential_proof.bbs_proof@ == b.credential_proof.bbs_proof@
    &&& a.credential_proof.purchase_tier == b.credential_proof.purchase_tier
    &&& a.credential_proof.product_category == b.credential_proof.product_category
    &&& a.sig == b.sig
}

impl Clone for ReviewBody {
    fn clone(&self) -> (r: Self)
        ensures
            r == *self,
    {
        ReviewBody {
            text: self.text.clone(),
            rating: self.rating,
            merchant_id: self.merchant_id.clone(),
            issuer_id: self.issuer_id.clone(),
            issued_at: self.issued_at.clone(),
            timestamp: self.timestamp.clone(),
        }
    }
}

impl Clone for CredentialProof {
    fn clone(&self) -> (r: Self)
        ensures
            r.hpk == self.hpk,
            r.keyset_id == self.keyset_id,
            r.bbs_proof@ == self.bbs_proof@,
            r.purchase_tier == self.purchase_tier,
            r.product_category == self.product_category,
    {
        CredentialProof {
            hpk: self.hpk,
            keyset_id: self.keyset_id,
            bbs_proof: bytes_to_vec(self.bbs_proof.as_slice()),
            purchase_tier: self.purchase_tier,
            product_category: self.product_category,
        }
    }
}

impl Clone for ReviewPayload {
    fn clone(&self) -> (r: Self)
        ensures
            same_payload(r, *self),
    {
        ReviewPayload {
            version: self.version.clone(),
            review_body: self.review_body.clone(),
            credential_proof: self.credential_proof.clone(),
            sig: self.sig,
        }
    }
}

} // verus!
