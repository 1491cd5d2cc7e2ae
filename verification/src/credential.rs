//! Credential and mint-flow data types.

use vstd::prelude::*;

use crate::attrs::{ProductCategory, PurchaseTier};
use crate::keyset::{KeysetId, PublicKeyset};

verus! {

/// Wallet-side state held between `mint_start` and `mint_finish`: the holder's
/// secret material and the BBS+ blinding factor needed to finalize the
/// credential once the issuer's blind signature comes back. It never leaves
/// the holder's wallet over the network.
#[derive(Debug, Clone)]
pub struct MintState {
    pub hsk_bytes: [u8; 32],
    pub hpk_bytes: [u8; 32],
    pub blind_factor_bytes: [u8; 32],
    pub keyset: PublicKeyset,
    pub merchant_id: String,
    pub issued_at: String,
    pub purchase_tier: PurchaseTier,
    pub product_category: ProductCategory,
}

/// Wire-format mint request sent from the holder's wallet to the issuer.
#[derive(Debug, Clone)]
pub struct MintRequest {
    pub issuer_id: String,
    pub merchant_id: String,
    pub issued_at: String,
    pub purchase_tier: PurchaseTier,
    pub product_category: ProductCategory,
    pub keyset_id: KeysetId,
    pub commitment_bytes: Vec<u8>,
}

/// Wire-format mint response returned from the issuer to the wallet.
#[derive(Debug, Clone)]
pub struct MintResponse {
    pub blind_signature_bytes: Vec<u8>,
}

/// A finished credential ready to be used for publishing a single review.
/// Contains secret material (`hsk`, `blind_factor`) and must only be stored in
/// trusted wallet storage.
#[derive(Debug, Clone)]
pub struct Credential {
    pub version: String,
    pub hpk: [u8; 32],
    /// Secret: never publish.
    pub hsk: [u8; 32],
    /// Secret: needed to generate the BBS+ proof at publish time.
    pub blind_factor: [u8; 32],
    /// 80-byte BBS+ blind signature.
    pub blind_signature: Vec<u8>,
    pub keyset: PublicKeyset,
    pub merchant_id: String,
    pub issued_at: String,
    pub purchase_tier: PurchaseTier,
    pub product_category: ProductCategory,
}

} // verus!
