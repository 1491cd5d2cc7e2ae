//! The BBS+ message vectors of a credential and of its presentations.

use vstd::prelude::*;

use crate::attrs::{category_bytes, tier_bytes, ProductCategory, PurchaseTier};
use crate::bytes::{bytes_to_vec, vecs_view};
use crate::canonical::utf8;
use crate::jcs::lit;

verus! {

/// BBS+ `header` signed together with every credential and re-supplied at
/// verification time: binds credentials to the protocol.
pub const HEADER: &'static str = "chaumstar/0.1";

/// Number of issuer-known (signer) messages in a credential.
pub const SIGNER_MESSAGE_COUNT: usize = 4;

/// Length in bytes of a BBS+ blind signature for the chosen suite.
pub const BBS_SIGNATURE_BYTES: usize = 80;

/// The bytes of [`HEADER`].
pub open spec fn header_bytes() -> Seq<u8> {
    lit(HEADER)
}

/// The signer's messages: `merchant_id`, `issued_at`, `purchase_tier`,
/// `product_category` (UTF-8 bytes, wire names for the attributes).
pub open spec fn signer_messages(
    merchant_id: Seq<char>,
    issued_at: Seq<char>,
    tier: PurchaseTier,
    category: ProductCategory,
) -> Seq<Seq<u8>> {
    seq![utf8(merchant_id), utf8(issued_at), tier_bytes(tier), category_bytes(category)]
}

/// The messages disclosed in a presentation: `merchant_id` and `issued_at`
/// always, then the tier and the category when present.
pub open spec fn disclosed_messages(
    merchant_id: Seq<char>,
    issued_at: Seq<char>,
    tier: Option<PurchaseTier>,
    category: Option<ProductCategory>,
) -> Seq<Seq<u8>> {
    seq![utf8(merchant_id), utf8(issued_at)]
        + (match tier {
        Some(t) => seq![tier_bytes(t)],
        None => Seq::empty(),
    }) + (match category {
        Some(c) => seq![category_bytes(c)],
        None => Seq::empty(),
    })
}

/// Indexes of the disclosed signer messages: 0 and 1 always, 2 for the tier
/// and 3 for the category when disclosed.
pub open spec fn disclosed_indexes(tier: bool, category: bool) -> Seq<usize> {
    seq![0usize, 1usize] + (if tier {
        seq![2usize]
    } else {
        Seq::empty()
    }) + (if category {
        seq![3usize]
    } else {
        Seq::empty()
    })
}

/// The builder of the signer messages.
pub fn build_signer_messages(
    merchant_id: &str,
    issued_at: &str,
    tier: PurchaseTier,
    category: ProductCategory,
) -> (msgs: Vec<Vec<u8>>)
    ensures
        vecs_view(msgs@) == signer_messages(merchant_id@, issued_at@, tier, category),
{
    let mut msgs: Vec<Vec<u8>> = Vec::new();
    msgs.push(bytes_to_vec(merchant_id.as_bytes()));
    msgs.push(bytes_to_vec(issued_at.as_bytes()));
    msgs.push(bytes_to_vec(tier.as_bytes()));
    msgs.push(bytes_to_vec(category.as_bytes()));
    assert(vecs_view(msgs@) =~= signer_messages(merchant_id@, issued_at@, tier, category));
    msgs
}

/// The committed messages: the holder public key alone.
pub fn build_committed_messages(hpk: &[u8; 32]) -> (msgs: Vec<Vec<u8>>)
    ensures
        vecs_view(msgs@) == seq![hpk@],
{
    let mut msgs: Vec<Vec<u8>> = Vec::new();
    msgs.push(bytes_to_vec(hpk.as_slice()));
    assert(vecs_view(msgs@) =~= seq![hpk@]);
    msgs
}

/// The builder of the disclosed messages.
pub fn build_disclosed_messages(
    merchant_id: &str,
    issued_at: &str,
    tier: Option<PurchaseTier>,
    category: Option<ProductCategory>,
) -> (msgs: Vec<Vec<u8>>)
    ensures
        vecs_view(msgs@) == disclosed_messages(merchant_id@, issued_at@, tier, category),
{
    let mut msgs: Vec<Vec<u8>> = Vec::new();
    msgs.push(bytes_to_vec(merchant_id.as_bytes()));
    msgs.push(bytes_to_vec(issued_at.as_bytes()));
    match tier {
        Some(t) => msgs.push(bytes_to_vec(t.as_bytes())),
        None => {},
    }
    match category {
        Some(c) => msgs.push(bytes_to_vec(c.as_bytes())),
        None => {},
    }
    assert(vecs_view(msgs@) =~= disclosed_messages(merchant_id@, issued_at@, tier, category));
    msgs
}

/// The builder of the disclosed indexes.
pub fn build_disclosed_indexes(tier: bool, category: bool) -> (idx: Vec<usize>)
    ensures
        idx@ == disclosed_indexes(tier, category),
{
    let mut idx: Vec<usize> = Vec::new();
    idx.push(0);
    idx.push(1);
    if tier {
        idx.push(2);
    }
    if category {
        idx.push(3);
    }
    assert(idx@ =~= disclosed_indexes(tier, category));
    idx
}

} // verus!
