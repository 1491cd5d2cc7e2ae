//! Disclosable credential attributes.

use vstd::prelude::*;
use vstd::string::StringSliceAdditionalSpecFns;

verus! {

/// Purchase amount bucket attested by the issuer.
#[derive(Debug, Clone, Copy, PartialEq, Eq, Structural)]
pub enum PurchaseTier {
    Low,
    Mid,
    High,
}

/// Product category attested by the issuer.
#[derive(Debug, Clone, Copy, PartialEq, Eq, Structural)]
pub enum ProductCategory {
    Drinks,
    Food,
    Merch,
}

/// The canonical tier of a yen amount: below 1 000 is low, below 5 000 mid,
/// anything else high.
pub open spec fn tier_of_yen(amount: u32) -> PurchaseTier {
    if amount <= 999 {
        PurchaseTier::Low
    } else if amount <= 4999 {
        PurchaseTier::Mid
    } else {
        PurchaseTier::High
    }
}

/// The wire name of a tier.
pub open spec fn tier_name(t: PurchaseTier) -> Seq<char> {
    match t {
        PurchaseTier::Low => "low"@,
        PurchaseTier::Mid => "mid"@,
        PurchaseTier::High => "high"@,
    }
}

/// The wire name of a category.
pub open spec fn category_name(c: ProductCategory) -> Seq<char> {
    match c {
        ProductCategory::Drinks => "drinks"@,
        ProductCategory::Food => "food"@,
        ProductCategory::Merch => "merch"@,
    }
}

/// The UTF-8 bytes of a tier's wire name.
pub open spec fn tier_bytes(t: PurchaseTier) -> Seq<u8> {
    vstd::utf8::encode_utf8(tier_name(t))
}

/// The UTF-8 bytes of a category's wire name.
pub open spec fn category_bytes(c: ProductCategory) -> Seq<u8> {
    vstd::utf8::encode_utf8(category_name(c))
}

/// The tier thresholds: amounts below ¥1,000 are low, from ¥1,000 up to
/// ¥4,999 mid, and ¥5,000 and above high; the tier never falls as the amount
/// grows.
pub proof fn law_tier_thresholds(amount: u32, larger: u32)
    ensures
        amount < 1000 ==> tier_of_yen(amount) == PurchaseTier::Low,
        1000 <= amount < 5000 ==> tier_of_yen(amount) == PurchaseTier::Mid,
        amount >= 5000 ==> tier_of_yen(amount) == PurchaseTier::High,
        amount <= larger ==> tier_rank(tier_of_yen(amount)) <= tier_rank(tier_of_yen(larger)),
{
}

/// The position of a tier in the order low < mid < high.
pub open spec fn tier_rank(t: PurchaseTier) -> int {
    match t {
        PurchaseTier::Low => 0,
        PurchaseTier::Mid => 1,
        PurchaseTier::High => 2,
    }
}

/// Wire names are unambiguous: distinct tiers have distinct wire bytes, and
/// so do distinct categories.
pub proof fn law_wire_bytes_distinct(t1: PurchaseTier, t2: PurchaseTier, c1: ProductCategory, c2: ProductCategory)
    ensures
        t1 != t2 ==> tier_bytes(t1) != tier_bytes(t2),
        c1 != c2 ==> category_bytes(c1) != category_bytes(c2),
{
    reveal_strlit("low");
    reveal_strlit("mid");
    reveal_strlit("high");
    reveal_strlit("drinks");
    reveal_strlit("food");
    reveal_strlit("merch");
    vstd::utf8::encode_utf8_decode_utf8(tier_name(t1));
    vstd::utf8::encode_utf8_decode_utf8(tier_name(t2));
    vstd::utf8::encode_utf8_decode_utf8(category_name(c1));
    vstd::utf8::encode_utf8_decode_utf8(category_name(c2));
    if t1 != t2 {
        assert(tier_name(t1)[0] != tier_name(t2)[0]);
    }
    if c1 != c2 {
        assert(category_name(c1)[0] != category_name(c2)[0]);
    }
}

impl PurchaseTier {
    /// Bucket a yen amount into a tier using the canonical thresholds.
    pub fn from_yen(amount: u32) -> (t: Self)
        ensures
            t == tier_of_yen(amount),
            amount < 1000 ==> t == PurchaseTier::Low,
            1000 <= amount < 5000 ==> t == PurchaseTier::Mid,
            amount >= 5000 ==> t == PurchaseTier::High,
    {
        if amount <= 999 {
            PurchaseTier::Low
        } else if amount <= 4999 {
            PurchaseTier::Mid
        } else {
            PurchaseTier::High
        }
    }

    /// The wire name: `low`, `mid` or `high`.
    pub fn as_str(&self) -> (s: &'static str)
        ensures
            s@ == tier_name(*self),
    {
        match self {
            PurchaseTier::Low => "low",
            PurchaseTier::Mid => "mid",
            PurchaseTier::High => "high",
        }
    }

    /// The UTF-8 bytes of the wire name.
    pub fn as_bytes(&self) -> (b: &'static [u8])
        ensures
            b@ == tier_bytes(*self),
    {
        self.as_str().as_bytes()
    }
}

impl ProductCategory {
    /// The wire name: `drinks`, `food` or `merch`.
    pub fn as_str(&self) -> (s: &'static str)
        ensures
            s@ == category_name(*self),
    {
        match self {
            ProductCategory::Drinks => "drinks",
            ProductCategory::Food => "food",
            ProductCategory::Merch => "merch",
        }
    }

    /// The UTF-8 bytes of the wire name.
    pub fn as_bytes(&self) -> (b: &'static [u8])
        ensures
            b@ == category_bytes(*self),
    {
        self.as_str().as_bytes()
    }
}

/// Context supplied at mint time. `merchant_id` / `issued_at` are always
/// revealed; `purchase_tier` / `product_category` are attested by the issuer
/// and the holder decides at publish time whether to disclose them.
#[derive(Debug, Clone)]
pub struct MintContext {
    pub merchant_id: String,
    pub issued_at: String,
    pub purchase_tier: PurchaseTier,
    pub product_category: ProductCategory,
}

/// The holder's per-publish choice of which optional attributes to reveal.
/// The required attributes (hpk, merchant_id, issued_at) are always disclosed.
#[derive(Debug, Clone, Copy, Default)]
pub struct DisclosureMask {
    pub disclose_tier: bool,
    pub disclose_category: bool,
}

} // verus!
