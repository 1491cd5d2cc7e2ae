//! The canonical byte strings that get signed or hashed: the review message
//! `M` (signed by the holder, hashed into the BBS+ presentation header), the
//! signed tree head message, and the canonical form of a published payload
//! (hashed into the transparency log). Each is the RFC 8785 text of a fixed
//! JSON shape, with object keys in sorted order.
//!
//! These byte layouts are the protocol's own wire format: the protocol fixes
//! which keys each document has and that it is serialized per RFC 8785, so
//! the exact bytes are written out here, field by field, and stated as spec
//! functions that signatures and hashes are reasoned about with. The tests
//! hold every layout against `serde_jcs` on the same values.

use vstd::prelude::*;

use crate::attrs::{category_name, tier_name, ProductCategory, PurchaseTier};
use crate::jcs::{
    json_escape, json_hex, json_member, json_members, json_object, key_less, keys_ascending, json_string, lemma_json_quoted_token, lit, push_json_hex,
    push_json_string, push_json_u64, push_lit, push_member_key,
};
use crate::keyset::KeysetId;
use crate::payload::{ReviewBody, ReviewPayload};
use crate::primitives::{decimal_digits, hex_decoded, hex_digit_char, hex_digit_value, hex_text, hex_well_formed, jcs_u64_spec};
use crate::PROTOCOL_VERSION;

verus! {

/// UTF-8 bytes of a character sequence.
pub open spec fn utf8(s: Seq<char>) -> Seq<u8> {
    vstd::utf8::encode_utf8(s)
}

/// JSON text of an optional string: the string literal, or `null`.
pub open spec fn json_opt_string(o: Option<Seq<char>>) -> Seq<u8> {
    match o {
        Some(b) => json_string(b),
        None => lit("null"),
    }
}

/// Wire name of an optional tier.
pub open spec fn opt_tier_name(t: Option<PurchaseTier>) -> Option<Seq<char>> {
    match t {
        Some(t) => Some(tier_name(t)),
        None => None,
    }
}

/// Wire name of an optional category.
pub open spec fn opt_category_name(c: Option<ProductCategory>) -> Option<Seq<char>> {
    match c {
        Some(c) => Some(category_name(c)),
        None => None,
    }
}

/// JSON object text of a review body, keys sorted.
#[verifier::opaque]
pub open spec fn review_body_json(body: ReviewBody) -> Seq<u8> {
    lit("{\"issued_at\":") + json_string(body.issued_at@)
        + lit(",\"issuer_id\":") + json_string(body.issuer_id@)
        + lit(",\"merchant_id\":") + json_string(body.merchant_id@)
        + lit(",\"rating\":") + decimal_digits(body.rating as nat)
        + lit(",\"text\":") + json_string(body.text@)
        + lit(",\"timestamp\":") + json_string(body.timestamp@)
        + lit("}")
}

/// The canonical review message `M`:
/// `{"credential":{"hpk":..,"keyset_id":..},"disclosure":{"product_category":..,
/// "purchase_tier":..},"review_body":{..},"type":"review","v":<protocol version>}`.
#[verifier::opaque]
pub open spec fn canonical_message_spec(
    body: ReviewBody,
    hpk: Seq<u8>,
    keyset_id: Seq<u8>,
    tier: Option<PurchaseTier>,
    category: Option<ProductCategory>,
) -> Seq<u8> {
    lit("{\"credential\":{\"hpk\":") + json_hex(hpk)
        + lit(",\"keyset_id\":") + json_hex(keyset_id)
        + lit("},\"disclosure\":{\"product_category\":") + json_opt_string(opt_category_name(category))
        + lit(",\"purchase_tier\":") + json_opt_string(opt_tier_name(tier))
        + lit("},\"review_body\":") + review_body_json(body)
        + lit(",\"type\":\"review\",\"v\":") + json_string(PROTOCOL_VERSION@)
        + lit("}")
}

/// The members of the signed-tree-head message, keys in RFC 8785 order.
pub open spec fn sth_members(tree_size: u64, root_hash: Seq<u8>, timestamp: Seq<char>) -> Seq<(Seq<char>, Seq<u8>)> {
    seq![
        ("root_hash"@, json_hex(root_hash)),
        ("timestamp"@, json_string(timestamp)),
        ("tree_size"@, jcs_u64_spec(tree_size)),
        ("type"@, json_string("sth"@)),
        ("v"@, json_string(PROTOCOL_VERSION@)),
    ]
}

/// The canonical signed-tree-head message:
/// `{"root_hash":..,"timestamp":..,"tree_size":..,"type":"sth","v":<protocol version>}`.
#[verifier::opaque]
pub open spec fn sth_message_spec(tree_size: u64, root_hash: Seq<u8>, timestamp: Seq<char>) -> Seq<u8> {
    json_object(sth_members(tree_size, root_hash, timestamp))
}

/// The members of a payload's `credential_proof` object, keys in RFC 8785
/// order.
pub open spec fn credential_proof_members(p: ReviewPayload) -> Seq<(Seq<char>, Seq<u8>)> {
    seq![
        ("bbs_proof"@, json_hex(p.credential_proof.bbs_proof@)),
        ("hpk"@, json_hex(p.credential_proof.hpk@)),
        ("keyset_id"@, json_hex(p.credential_proof.keyset_id.0@)),
        ("product_category"@, json_opt_string(opt_category_name(p.credential_proof.product_category))),
        ("purchase_tier"@, json_opt_string(opt_tier_name(p.credential_proof.purchase_tier))),
    ]
}

/// The members of a published payload's JSON object, keys in RFC 8785 order.
pub open spec fn payload_members(p: ReviewPayload) -> Seq<(Seq<char>, Seq<u8>)> {
    seq![
        ("credential_proof"@, json_object(credential_proof_members(p))),
        ("review_body"@, review_body_json(p.review_body)),
        ("sig"@, json_hex(p.sig@)),
        ("version"@, json_string(p.version@)),
    ]
}

/// The canonical JSON text of a published payload (the log leaf content):
/// `{"credential_proof":{"bbs_proof":..,"hpk":..,"keyset_id":..,
/// "product_category":..,"purchase_tier":..},"review_body":{..},"sig":..,
/// "version":..}`.
#[verifier::opaque]
pub open spec fn payload_json_spec(p: ReviewPayload) -> Seq<u8> {
    json_object(payload_members(p))
}

/// Appending one member to a non-empty member list appends a comma and the
/// member's text.
proof fn lemma_members_push(ms: Seq<(Seq<char>, Seq<u8>)>, key: Seq<char>, value: Seq<u8>)
    ensures
        ms.len() == 0 ==> json_members(ms.push((key, value))) == json_member(key, value),
        ms.len() > 0 ==> json_members(ms.push((key, value))) == json_members(ms) + lit(",") + json_member(key, value),
{
    assert(ms.push((key, value)).drop_last() =~= ms);
}

fn push_opt_tier(out: &mut Vec<u8>, t: Option<PurchaseTier>)
    ensures
        final(out)@ == old(out)@ + json_opt_string(opt_tier_name(t)),
{
    match t {
        Some(t) => push_json_string(out, t.as_str()),
        None => push_lit(out, "null"),
    }
}

fn push_opt_category(out: &mut Vec<u8>, c: Option<ProductCategory>)
    ensures
        final(out)@ == old(out)@ + json_opt_string(opt_category_name(c)),
{
    match c {
        Some(c) => push_json_string(out, c.as_str()),
        None => push_lit(out, "null"),
    }
}

fn push_review_body(out: &mut Vec<u8>, body: &ReviewBody)
    ensures
        final(out)@ == old(out)@ + review_body_json(*body),
{
    let ghost start = out@;
    reveal(review_body_json);
    push_lit(out, "{\"issued_at\":");
    push_json_string(out, body.issued_at.as_str());
    push_lit(out, ",\"issuer_id\":");
    push_json_string(out, body.issuer_id.as_str());
    push_lit(out, ",\"merchant_id\":");
    push_json_string(out, body.merchant_id.as_str());
    push_lit(out, ",\"rating\":");
    push_json_u64(out, body.rating as u64);
    push_lit(out, ",\"text\":");
    push_json_string(out, body.text.as_str());
    push_lit(out, ",\"timestamp\":");
    push_json_string(out, body.timestamp.as_str());
    push_lit(out, "}");
    assert(out@ =~= start + review_body_json(*body));
}

/// Build the canonical message `M` that is signed with Ed25519 by the holder
/// and SHA-256 hashed to form the BBS+ presentation header. `disclosed_tier` /
/// `disclosed_category` are the values that appear in the payload's proof
/// part; `None` means the attribute is hidden in this presentation.
pub fn canonical_message(
    body: &ReviewBody,
    hpk: &[u8; 32],
    keyset_id: &KeysetId,
    disclosed_tier: Option<PurchaseTier>,
    disclosed_category: Option<ProductCategory>,
) -> (m: Vec<u8>)
    ensures
        m@ == canonical_message_spec(*body, hpk@, keyset_id.0@, disclosed_tier, disclosed_category),
{
    let mut out: Vec<u8> = Vec::new();
    push_lit(&mut out, "{\"credential\":{\"hpk\":");
    push_json_hex(&mut out, hpk.as_slice());
    push_lit(&mut out, ",\"keyset_id\":");
    push_json_hex(&mut out, keyset_id.0.as_slice());
    push_lit(&mut out, "},\"disclosure\":{\"product_category\":");
    push_opt_category(&mut out, disclosed_category);
    push_lit(&mut out, ",\"purchase_tier\":");
    push_opt_tier(&mut out, disclosed_tier);
    push_lit(&mut out, "},\"review_body\":");
    push_review_body(&mut out, body);
    push_lit(&mut out, ",\"type\":\"review\",\"v\":");
    push_json_string(&mut out, PROTOCOL_VERSION);
    push_lit(&mut out, "}");
    reveal(canonical_message_spec);
    assert(out@ =~= canonical_message_spec(*body, hpk@, keyset_id.0@, disclosed_tier, disclosed_category));
    out
}

/// The canonical signed-tree-head message.
#[verifier::rlimit(60)]
#[verifier::spinoff_prover]
pub fn sth_canonical_bytes(tree_size: u64, root_hash: &[u8; 32], timestamp: &str) -> (m: Vec<u8>)
    ensures
        m@ == sth_message_spec(tree_size, root_hash@, timestamp@),
{
    let ghost ms = sth_members(tree_size, root_hash@, timestamp@);
    let ghost p0 = Seq::<(Seq<char>, Seq<u8>)>::empty();
    let ghost p1 = p0.push(ms[0]);
    let ghost p2 = p1.push(ms[1]);
    let ghost p3 = p2.push(ms[2]);
    let ghost p4 = p3.push(ms[3]);
    let ghost p5 = p4.push(ms[4]);
    proof {
        lemma_members_push(p0, ms[0].0, ms[0].1);
        lemma_members_push(p1, ms[1].0, ms[1].1);
        lemma_members_push(p2, ms[2].0, ms[2].1);
        lemma_members_push(p3, ms[3].0, ms[3].1);
        lemma_members_push(p4, ms[4].0, ms[4].1);
        assert(p5 =~= ms);
    }
    let mut out: Vec<u8> = Vec::new();
    push_lit(&mut out, "{");
    let ghost o = out@;
    push_member_key(&mut out, true, "root_hash");
    push_json_hex(&mut out, root_hash.as_slice());
    assert(out@ =~= o + json_members(p1));
    push_member_key(&mut out, false, "timestamp");
    push_json_string(&mut out, timestamp);
    assert(out@ =~= o + json_members(p2));
    push_member_key(&mut out, false, "tree_size");
    push_json_u64(&mut out, tree_size);
    assert(out@ =~= o + json_members(p3));
    push_member_key(&mut out, false, "type");
    push_json_string(&mut out, "sth");
    assert(out@ =~= o + json_members(p4));
    push_member_key(&mut out, false, "v");
    push_json_string(&mut out, PROTOCOL_VERSION);
    assert(out@ =~= o + json_members(p5));
    push_lit(&mut out, "}");
    proof {
        reveal(sth_message_spec);
        assert(out@ =~= sth_message_spec(tree_size, root_hash@, timestamp@));
    }
    out
}

/// Appends the `credential_proof` object of a payload.
#[verifier::rlimit(80)]
#[verifier::spinoff_prover]
fn push_credential_proof(out: &mut Vec<u8>, p: &ReviewPayload)
    ensures
        final(out)@ == old(out)@ + json_object(credential_proof_members(*p)),
{
    let ghost ms = credential_proof_members(*p);
    let ghost p0 = Seq::<(Seq<char>, Seq<u8>)>::empty();
    let ghost p1 = p0.push(ms[0]);
    let ghost p2 = p1.push(ms[1]);
    let ghost p3 = p2.push(ms[2]);
    let ghost p4 = p3.push(ms[3]);
    let ghost p5 = p4.push(ms[4]);
    proof {
        lemma_members_push(p0, ms[0].0, ms[0].1);
        lemma_members_push(p1, ms[1].0, ms[1].1);
        lemma_members_push(p2, ms[2].0, ms[2].1);
        lemma_members_push(p3, ms[3].0, ms[3].1);
        lemma_members_push(p4, ms[4].0, ms[4].1);
        assert(p5 =~= ms);
    }
    let ghost start = out@;
    push_lit(out, "{");
    let ghost o = out@;
    push_member_key(out, true, "bbs_proof");
    push_json_hex(out, p.credential_proof.bbs_proof.as_slice());
    assert(out@ =~= o + json_members(p1));
    push_member_key(out, false, "hpk");
    push_json_hex(out, p.credential_proof.hpk.as_slice());
    assert(out@ =~= o + json_members(p2));
    push_member_key(out, false, "keyset_id");
    push_json_hex(out, p.credential_proof.keyset_id.0.as_slice());
    assert(out@ =~= o + json_members(p3));
    push_member_key(out, false, "product_category");
    push_opt_category(out, p.credential_proof.product_category);
    assert(out@ =~= o + json_members(p4));
    push_member_key(out, false, "purchase_tier");
    push_opt_tier(out, p.credential_proof.purchase_tier);
    assert(out@ =~= o + json_members(p5));
    push_lit(out, "}");
    assert(out@ =~= start + json_object(ms));
}

/// The canonical JSON text of a published payload.
pub fn payload_canonical_bytes(p: &ReviewPayload) -> (m: Vec<u8>)
    ensures
        m@ == payload_json_spec(*p),
{
    let ghost ms = payload_members(*p);
    let ghost p0 = Seq::<(Seq<char>, Seq<u8>)>::empty();
    let ghost p1 = p0.push(ms[0]);
    let ghost p2 = p1.push(ms[1]);
    let ghost p3 = p2.push(ms[2]);
    let ghost p4 = p3.push(ms[3]);
    proof {
        lemma_members_push(p0, ms[0].0, ms[0].1);
        lemma_members_push(p1, ms[1].0, ms[1].1);
        lemma_members_push(p2, ms[2].0, ms[2].1);
        lemma_members_push(p3, ms[3].0, ms[3].1);
        assert(p4 =~= ms);
    }
    let mut out: Vec<u8> = Vec::new();
    push_lit(&mut out, "{");
    let ghost o = out@;
    push_member_key(&mut out, true, "credential_proof");
    push_credential_proof(&mut out, p);
    assert(out@ =~= o + json_members(p1));
    push_member_key(&mut out, false, "review_body");
    push_review_body(&mut out, &p.review_body);
    assert(out@ =~= o + json_members(p2));
    push_member_key(&mut out, false, "sig");
    push_json_hex(&mut out, p.sig.as_slice());
    assert(out@ =~= o + json_members(p3));
    push_member_key(&mut out, false, "version");
    push_json_string(&mut out, p.version.as_str());
    assert(out@ =~= o + json_members(p4));
    push_lit(&mut out, "}");
    proof {
        reveal(payload_json_spec);
        assert(out@ =~= payload_json_spec(*p));
    }
    out
}

} // verus!

verus! {

proof fn lemma_strip_prefix(l: Seq<u8>, x: Seq<u8>, y: Seq<u8>)
    requires
        l + x == l + y,
    ensures
        x == y,
{
    assert(x =~= (l + x).skip(l.len() as int));
    assert(y =~= (l + y).skip(l.len() as int));
}

proof fn lemma_string_token(s1: Seq<char>, s2: Seq<char>, r1: Seq<u8>, r2: Seq<u8>)
    requires
        json_string(s1) + r1 == json_string(s2) + r2,
    ensures
        s1 == s2,
        r1 == r2,
{
    lemma_json_quoted_token(utf8(s1), utf8(s2), r1, r2);
    vstd::utf8::encode_utf8_decode_utf8(s1);
    vstd::utf8::encode_utf8_decode_utf8(s2);
}

proof fn lemma_null_bytes()
    ensures
        lit("null").len() == 4,
        lit("null")[0] == 0x6e,
{
    reveal_strlit("null");
    assert(vstd::string::is_ascii("null"));
    vstd::string::is_ascii_spec_bytes("null");
    assert(lit("null") =~= seq![0x6eu8, 0x75u8, 0x6cu8, 0x6cu8]);
}

proof fn lemma_hex_text_len(a: Seq<u8>)
    ensures
        hex_text(a).len() == 2 * a.len(),
    decreases a.len(),
{
    if a.len() > 0 {
        lemma_hex_text_len(a.drop_last());
    }
}

proof fn lemma_hex_digit_char_injective(d1: nat, d2: nat)
    requires
        d1 < 16,
        d2 < 16,
        hex_digit_char(d1) == hex_digit_char(d2),
    ensures
        d1 == d2,
{
    let c1 = hex_digit_char(d1);
    let c2 = hex_digit_char(d2);
    assert((c1 as u32) == (c2 as u32));
    if d1 < 10 {
        assert((c1 as u32) == 48 + d1);
    } else {
        assert((c1 as u32) == 87 + d1);
    }
    if d2 < 10 {
        assert((c2 as u32) == 48 + d2);
    } else {
        assert((c2 as u32) == 87 + d2);
    }
}

/// Hex text determines the bytes it spells.
proof fn lemma_hex_text_injective(a: Seq<u8>, b: Seq<u8>)
    requires
        hex_text(a) == hex_text(b),
    ensures
        a == b,
    decreases a.len(),
{
    lemma_hex_text_len(a);
    lemma_hex_text_len(b);
    if a.len() > 0 {
        let ta = hex_text(a);
        let tb = hex_text(b);
        let n = ta.len();
        assert(ta.drop_last().drop_last() =~= hex_text(a.drop_last()));
        assert(tb.drop_last().drop_last() =~= hex_text(b.drop_last()));
        lemma_hex_text_injective(a.drop_last(), b.drop_last());
        let x = a.last();
        let y = b.last();
        assert(ta[n - 2] == hex_digit_char((x / 16) as nat));
        assert(tb[n - 2] == hex_digit_char((y / 16) as nat));
        assert(ta[n - 1] == hex_digit_char((x % 16) as nat));
        assert(tb[n - 1] == hex_digit_char((y % 16) as nat));
        lemma_hex_digit_char_injective((x / 16) as nat, (y / 16) as nat);
        lemma_hex_digit_char_injective((x % 16) as nat, (y % 16) as nat);
        assert(x == y);
        assert(a =~= a.drop_last().push(x));
        assert(b =~= b.drop_last().push(y));
    }
}

proof fn lemma_hex_token(a: Seq<u8>, b: Seq<u8>, r1: Seq<u8>, r2: Seq<u8>)
    requires
        json_hex(a) + r1 == json_hex(b) + r2,
    ensures
        a == b,
        r1 == r2,
{
    lemma_string_token(hex_text(a), hex_text(b), r1, r2);
    lemma_hex_text_injective(a, b);
}

proof fn lemma_opt_token(o1: Option<Seq<char>>, o2: Option<Seq<char>>, r1: Seq<u8>, r2: Seq<u8>)
    requires
        json_opt_string(o1) + r1 == json_opt_string(o2) + r2,
    ensures
        o1 == o2,
        r1 == r2,
{
    lemma_null_bytes();
    let l = json_opt_string(o1) + r1;
    match (o1, o2) {
        (Some(x), Some(y)) => {
            lemma_string_token(x, y, r1, r2);
        },
        (None, None) => {
            lemma_strip_prefix(lit("null"), r1, r2);
        },
        (Some(x), None) => {
            assert(l[0] == json_string(x)[0]);
            assert(l[0] == lit("null")[0]);
        },
        (None, Some(y)) => {
            assert(l[0] == lit("null")[0]);
            assert((json_opt_string(o2) + r2)[0] == json_string(y)[0]);
        },
    }
}

proof fn lemma_tier_name_injective(t1: Option<PurchaseTier>, t2: Option<PurchaseTier>)
    requires
        opt_tier_name(t1) == opt_tier_name(t2),
    ensures
        t1 == t2,
{
    reveal_strlit("low");
    reveal_strlit("mid");
    reveal_strlit("high");
    match (t1, t2) {
        (Some(a), Some(b)) => {
            assert(tier_name(a)[0] == tier_name(b)[0]);
        },
        _ => {},
    }
}

proof fn lemma_category_name_injective(c1: Option<ProductCategory>, c2: Option<ProductCategory>)
    requires
        opt_category_name(c1) == opt_category_name(c2),
    ensures
        c1 == c2,
{
    reveal_strlit("drinks");
    reveal_strlit("food");
    reveal_strlit("merch");
    match (c1, c2) {
        (Some(a), Some(b)) => {
            assert(category_name(a)[0] == category_name(b)[0]);
        },
        _ => {},
    }
}

spec fn is_digit_byte(b: u8) -> bool {
    0x30 <= b <= 0x39
}

proof fn lemma_decimal_digits_shape(n: nat)
    ensures
        decimal_digits(n).len() >= 1,
        n >= 10 ==> decimal_digits(n).len() >= 2,
        forall|i: int| 0 <= i < decimal_digits(n).len() ==> is_digit_byte(#[trigger] decimal_digits(n)[i]),
    decreases n,
{
    if n >= 10 {
        lemma_decimal_digits_shape(n / 10);
        let d = decimal_digits(n / 10);
        assert forall|i: int| 0 <= i < decimal_digits(n).len() implies is_digit_byte(#[trigger] decimal_digits(n)[i]) by {
            if i < d.len() {
                assert(decimal_digits(n)[i] == d[i]);
            }
        }
    }
}

/// Decimal digits determine the number they spell.
proof fn lemma_decimal_digits_injective(a: nat, b: nat)
    requires
        decimal_digits(a) == decimal_digits(b),
    ensures
        a == b,
    decreases a,
{
    lemma_decimal_digits_shape(a);
    lemma_decimal_digits_shape(b);
    if a >= 10 && b >= 10 {
        assert(decimal_digits(a).drop_last() =~= decimal_digits(a / 10));
        assert(decimal_digits(b).drop_last() =~= decimal_digits(b / 10));
        lemma_decimal_digits_injective(a / 10, b / 10);
        assert(decimal_digits(a).last() == decimal_digits(b).last());
        assert(decimal_digits(a).last() == (48 + a % 10) as u8);
        assert(decimal_digits(b).last() == (48 + b % 10) as u8);
        assert(a % 10 == b % 10);
        assert(a == 10 * (a / 10) + a % 10) by (nonlinear_arith);
        assert(b == 10 * (b / 10) + b % 10) by (nonlinear_arith);
        assert(a == b);
    } else if a < 10 && b < 10 {
        assert(decimal_digits(a)[0] == decimal_digits(b)[0]);
        assert(decimal_digits(a)[0] == (48 + a) as u8);
        assert(a == b);
    } else if a < 10 {
        assert(decimal_digits(a).len() == 1);
    } else {
        assert(decimal_digits(b).len() == 1);
    }
}

/// A run of digits followed by a non-digit ends where the digits end.
proof fn lemma_digit_token(d1: Seq<u8>, d2: Seq<u8>, r1: Seq<u8>, r2: Seq<u8>)
    requires
        d1 + r1 == d2 + r2,
        forall|i: int| 0 <= i < d1.len() ==> is_digit_byte(#[trigger] d1[i]),
        forall|i: int| 0 <= i < d2.len() ==> is_digit_byte(#[trigger] d2[i]),
        r1.len() > 0 && !is_digit_byte(r1[0]),
        r2.len() > 0 && !is_digit_byte(r2[0]),
    ensures
        d1 == d2,
        r1 == r2,
{
    let s = d1 + r1;
    if d1.len() < d2.len() {
        assert(s[d1.len() as int] == r1[0]);
        assert(s[d1.len() as int] == d2[d1.len() as int]);
    } else if d2.len() < d1.len() {
        assert((d2 + r2)[d2.len() as int] == r2[0]);
        assert(s[d2.len() as int] == d1[d2.len() as int]);
    }
    assert(d1 =~= s.take(d1.len() as int));
    assert(d2 =~= (d2 + r2).take(d2.len() as int));
    lemma_strip_prefix(d1, r1, r2);
}

spec fn tail_after_timestamp() -> Seq<u8> {
    lit("}") + (lit(",\"type\":\"review\",\"v\":") + (json_string(PROTOCOL_VERSION@) + lit("}")))
}

spec fn tail_after_text(body: ReviewBody) -> Seq<u8> {
    lit(",\"timestamp\":") + (json_string(body.timestamp@) + tail_after_timestamp())
}

spec fn tail_after_rating(body: ReviewBody) -> Seq<u8> {
    lit(",\"text\":") + (json_string(body.text@) + tail_after_text(body))
}

spec fn tail_after_merchant(body: ReviewBody) -> Seq<u8> {
    lit(",\"rating\":") + (decimal_digits(body.rating as nat) + tail_after_rating(body))
}

spec fn tail_after_issuer(body: ReviewBody) -> Seq<u8> {
    lit(",\"merchant_id\":") + (json_string(body.merchant_id@) + tail_after_merchant(body))
}

spec fn tail_after_issued(body: ReviewBody) -> Seq<u8> {
    lit(",\"issuer_id\":") + (json_string(body.issuer_id@) + tail_after_issuer(body))
}

spec fn tail_after_tier(body: ReviewBody) -> Seq<u8> {
    lit("},\"review_body\":") + (lit("{\"issued_at\":") + (json_string(body.issued_at@) + tail_after_issued(body)))
}

spec fn tail_after_category(body: ReviewBody, tier: Option<PurchaseTier>) -> Seq<u8> {
    lit(",\"purchase_tier\":") + (json_opt_string(opt_tier_name(tier)) + tail_after_tier(body))
}

spec fn tail_after_keyset(body: ReviewBody, tier: Option<PurchaseTier>, category: Option<ProductCategory>) -> Seq<u8> {
    lit("},\"disclosure\":{\"product_category\":") + (json_opt_string(opt_category_name(category))
        + tail_after_category(body, tier))
}

spec fn tail_after_hpk(
    body: ReviewBody,
    keyset_id: Seq<u8>,
    tier: Option<PurchaseTier>,
    category: Option<ProductCategory>,
) -> Seq<u8> {
    lit(",\"keyset_id\":") + (json_hex(keyset_id) + tail_after_keyset(body, tier, category))
}

proof fn lemma_assoc(a: Seq<u8>, b: Seq<u8>, c: Seq<u8>)
    ensures
        (a + b) + c == a + (b + c),
{
    assert((a + b) + c =~= a + (b + c));
}

proof fn lemma_body_parts(body: ReviewBody, rest: Seq<u8>)
    ensures
        review_body_json(body) + rest == lit("{\"issued_at\":") + (json_string(body.issued_at@) + (lit(",\"issuer_id\":")
            + (json_string(body.issuer_id@) + (lit(",\"merchant_id\":") + (json_string(body.merchant_id@) + (lit(
            ",\"rating\":",
        ) + (decimal_digits(body.rating as nat) + (lit(",\"text\":") + (json_string(body.text@) + (lit(
            ",\"timestamp\":",
        ) + (json_string(body.timestamp@) + (lit("}") + rest)))))))))))),
{
    reveal(review_body_json);
    let m0 = lit("{\"issued_at\":");
    let ja = json_string(body.issued_at@);
    let m1 = lit(",\"issuer_id\":");
    let ji = json_string(body.issuer_id@);
    let m2 = lit(",\"merchant_id\":");
    let jm = json_string(body.merchant_id@);
    let m3 = lit(",\"rating\":");
    let d = decimal_digits(body.rating as nat);
    let m4 = lit(",\"text\":");
    let jt = json_string(body.text@);
    let m5 = lit(",\"timestamp\":");
    let js = json_string(body.timestamp@);
    let m6 = lit("}");
    let y1 = m0 + ja;
    let y2 = y1 + m1;
    let y3 = y2 + ji;
    let y4 = y3 + m2;
    let y5 = y4 + jm;
    let y6 = y5 + m3;
    let y7 = y6 + d;
    let y8 = y7 + m4;
    let y9 = y8 + jt;
    let y10 = y9 + m5;
    let y11 = y10 + js;
    let s12 = m6 + rest;
    let s11 = js + s12;
    let s10 = m5 + s11;
    let s9 = jt + s10;
    let s8 = m4 + s9;
    let s7 = d + s8;
    let s6 = m3 + s7;
    let s5 = jm + s6;
    let s4 = m2 + s5;
    let s3 = ji + s4;
    let s2 = m1 + s3;
    let s1 = ja + s2;
    assert(review_body_json(body) == y11 + m6);
    lemma_assoc(y11, m6, rest);
    lemma_assoc(y10, js, s12);
    lemma_assoc(y9, m5, s11);
    lemma_assoc(y8, jt, s10);
    lemma_assoc(y7, m4, s9);
    lemma_assoc(y6, d, s8);
    lemma_assoc(y5, m3, s7);
    lemma_assoc(y4, jm, s6);
    lemma_assoc(y3, m2, s5);
    lemma_assoc(y2, ji, s4);
    lemma_assoc(y1, m1, s3);
    lemma_assoc(m0, ja, s2);
}

proof fn lemma_canonical_message_parts(
    body: ReviewBody,
    hpk: Seq<u8>,
    keyset_id: Seq<u8>,
    tier: Option<PurchaseTier>,
    category: Option<ProductCategory>,
)
    ensures
        canonical_message_spec(body, hpk, keyset_id, tier, category) == lit("{\"credential\":{\"hpk\":") + (
        json_hex(hpk) + tail_after_hpk(body, keyset_id, tier, category)),
{
    reveal(canonical_message_spec);
    let l0 = lit("{\"credential\":{\"hpk\":");
    let jh = json_hex(hpk);
    let l1 = lit(",\"keyset_id\":");
    let jk = json_hex(keyset_id);
    let l2 = lit("},\"disclosure\":{\"product_category\":");
    let oc = json_opt_string(opt_category_name(category));
    let l3 = lit(",\"purchase_tier\":");
    let ot = json_opt_string(opt_tier_name(tier));
    let l4 = lit("},\"review_body\":");
    let bj = review_body_json(body);
    let l5 = lit(",\"type\":\"review\",\"v\":");
    let jv = json_string(PROTOCOL_VERSION@);
    let l6 = lit("}");
    let x1 = l0 + jh;
    let x2 = x1 + l1;
    let x3 = x2 + jk;
    let x4 = x3 + l2;
    let x5 = x4 + oc;
    let x6 = x5 + l3;
    let x7 = x6 + ot;
    let x8 = x7 + l4;
    let x9 = x8 + bj;
    let x10 = x9 + l5;
    let x11 = x10 + jv;
    let r11 = jv + l6;
    let r10 = l5 + r11;
    let r9 = bj + r10;
    let r8 = l4 + r9;
    let r7 = ot + r8;
    let r6 = l3 + r7;
    let r5 = oc + r6;
    let r4 = l2 + r5;
    let r3 = jk + r4;
    let r2 = l1 + r3;
    let r1 = jh + r2;
    assert(canonical_message_spec(body, hpk, keyset_id, tier, category) == x11 + l6);
    lemma_assoc(x10, jv, l6);
    lemma_assoc(x9, l5, r11);
    lemma_assoc(x8, bj, r10);
    lemma_assoc(x7, l4, r9);
    lemma_assoc(x6, ot, r8);
    lemma_assoc(x5, l3, r7);
    lemma_assoc(x4, oc, r6);
    lemma_assoc(x3, l2, r5);
    lemma_assoc(x2, jk, r4);
    lemma_assoc(x1, l1, r3);
    lemma_assoc(l0, jh, r2);
    lemma_body_parts(body, r10);
}

proof fn lemma_comma_first()
    ensures
        lit(",\"text\":").len() > 0,
        lit(",\"text\":")[0] == 0x2c,
{
    reveal_strlit(",\"text\":");
    assert(vstd::string::is_ascii(",\"text\":"));
    vstd::string::is_ascii_spec_bytes(",\"text\":");
}

/// Distinct inputs give distinct canonical messages: the canonical message
/// determines the review body's fields, the holder key, the keyset
/// identifier and the disclosed attributes it was made from.
pub proof fn law_canonical_message_injective(
    b1: ReviewBody,
    h1: Seq<u8>,
    k1: Seq<u8>,
    t1: Option<PurchaseTier>,
    c1: Option<ProductCategory>,
    b2: ReviewBody,
    h2: Seq<u8>,
    k2: Seq<u8>,
    t2: Option<PurchaseTier>,
    c2: Option<ProductCategory>,
)
    requires
        canonical_message_spec(b1, h1, k1, t1, c1) == canonical_message_spec(b2, h2, k2, t2, c2),
    ensures
        b1.text@ == b2.text@,
        b1.rating == b2.rating,
        b1.merchant_id@ == b2.merchant_id@,
        b1.issuer_id@ == b2.issuer_id@,
        b1.issued_at@ == b2.issued_at@,
        b1.timestamp@ == b2.timestamp@,
        h1 == h2,
        k1 == k2,
        t1 == t2,
        c1 == c2,
{
    lemma_canonical_message_parts(b1, h1, k1, t1, c1);
    lemma_canonical_message_parts(b2, h2, k2, t2, c2);
    lemma_strip_prefix(
        lit("{\"credential\":{\"hpk\":"),
        json_hex(h1) + tail_after_hpk(b1, k1, t1, c1),
        json_hex(h2) + tail_after_hpk(b2, k2, t2, c2),
    );
    lemma_hex_token(h1, h2, tail_after_hpk(b1, k1, t1, c1), tail_after_hpk(b2, k2, t2, c2));
    lemma_strip_prefix(
        lit(",\"keyset_id\":"),
        json_hex(k1) + tail_after_keyset(b1, t1, c1),
        json_hex(k2) + tail_after_keyset(b2, t2, c2),
    );
    lemma_hex_token(k1, k2, tail_after_keyset(b1, t1, c1), tail_after_keyset(b2, t2, c2));
    lemma_strip_prefix(
        lit("},\"disclosure\":{\"product_category\":"),
        json_opt_string(opt_category_name(c1)) + tail_after_category(b1, t1),
        json_opt_string(opt_category_name(c2)) + tail_after_category(b2, t2),
    );
    lemma_opt_token(opt_category_name(c1), opt_category_name(c2), tail_after_category(b1, t1), tail_after_category(b2, t2));
    lemma_category_name_injective(c1, c2);
    lemma_strip_prefix(
        lit(",\"purchase_tier\":"),
        json_opt_string(opt_tier_name(t1)) + tail_after_tier(b1),
        json_opt_string(opt_tier_name(t2)) + tail_after_tier(b2),
    );
    lemma_opt_token(opt_tier_name(t1), opt_tier_name(t2), tail_after_tier(b1), tail_after_tier(b2));
    lemma_tier_name_injective(t1, t2);
    lemma_strip_prefix(
        lit("},\"review_body\":"),
        lit("{\"issued_at\":") + (json_string(b1.issued_at@) + tail_after_issued(b1)),
        lit("{\"issued_at\":") + (json_string(b2.issued_at@) + tail_after_issued(b2)),
    );
    lemma_strip_prefix(
        lit("{\"issued_at\":"),
        json_string(b1.issued_at@) + tail_after_issued(b1),
        json_string(b2.issued_at@) + tail_after_issued(b2),
    );
    lemma_string_token(b1.issued_at@, b2.issued_at@, tail_after_issued(b1), tail_after_issued(b2));
    lemma_strip_prefix(
        lit(",\"issuer_id\":"),
        json_string(b1.issuer_id@) + tail_after_issuer(b1),
        json_string(b2.issuer_id@) + tail_after_issuer(b2),
    );
    lemma_string_token(b1.issuer_id@, b2.issuer_id@, tail_after_issuer(b1), tail_after_issuer(b2));
    lemma_strip_prefix(
        lit(",\"merchant_id\":"),
        json_string(b1.merchant_id@) + tail_after_merchant(b1),
        json_string(b2.merchant_id@) + tail_after_merchant(b2),
    );
    lemma_string_token(b1.merchant_id@, b2.merchant_id@, tail_after_merchant(b1), tail_after_merchant(b2));
    lemma_strip_prefix(
        lit(",\"rating\":"),
        decimal_digits(b1.rating as nat) + tail_after_rating(b1),
        decimal_digits(b2.rating as nat) + tail_after_rating(b2),
    );
    lemma_decimal_digits_shape(b1.rating as nat);
    lemma_decimal_digits_shape(b2.rating as nat);
    lemma_comma_first();
    assert(tail_after_rating(b1)[0] == 0x2c);
    assert(tail_after_rating(b2)[0] == 0x2c);
    lemma_digit_token(
        decimal_digits(b1.rating as nat),
        decimal_digits(b2.rating as nat),
        tail_after_rating(b1),
        tail_after_rating(b2),
    );
    lemma_decimal_digits_injective(b1.rating as nat, b2.rating as nat);
    lemma_strip_prefix(
        lit(",\"text\":"),
        json_string(b1.text@) + tail_after_text(b1),
        json_string(b2.text@) + tail_after_text(b2),
    );
    lemma_string_token(b1.text@, b2.text@, tail_after_text(b1), tail_after_text(b2));
    lemma_strip_prefix(
        lit(",\"timestamp\":"),
        json_string(b1.timestamp@) + tail_after_timestamp(),
        json_string(b2.timestamp@) + tail_after_timestamp(),
    );
    lemma_string_token(b1.timestamp@, b2.timestamp@, tail_after_timestamp(), tail_after_timestamp());
}

/// Bytes that JSON string escaping copies unchanged.
spec fn escape_free(b: Seq<u8>) -> bool {
    forall|i: int| 0 <= i < b.len() ==> 0x20 <= #[trigger] b[i] && b[i] != 0x22 && b[i] != 0x5c
}

proof fn lemma_escape_free(b: Seq<u8>)
    requires
        escape_free(b),
    ensures
        json_escape(b) == b,
    decreases b.len(),
{
    if b.len() > 0 {
        assert(escape_free(b.drop_first()));
        lemma_escape_free(b.drop_first());
        assert(seq![b[0]] + b.drop_first() =~= b);
    }
}

/// The lowercase hex digits of `r`, as bytes, most significant nibble first.
pub open spec fn hex_ascii(r: Seq<u8>) -> Seq<u8> {
    Seq::new(2 * r.len(), |j: int| if j % 2 == 0 {
        crate::jcs::hex_digit_byte((r[j / 2] / 16) as nat)
    } else {
        crate::jcs::hex_digit_byte((r[j / 2] % 16) as nat)
    })
}

proof fn lemma_hex_text_chars(r: Seq<u8>)
    ensures
        hex_text(r).len() == 2 * r.len(),
        forall|j: int| 0 <= j < 2 * r.len() ==> #[trigger] hex_text(r)[j] == (if j % 2 == 0 {
            hex_digit_char((r[j / 2] / 16) as nat)
        } else {
            hex_digit_char((r[j / 2] % 16) as nat)
        }),
    decreases r.len(),
{
    if r.len() > 0 {
        let q = r.drop_last();
        lemma_hex_text_chars(q);
        assert forall|j: int| 0 <= j < 2 * r.len() implies #[trigger] hex_text(r)[j] == (if j % 2 == 0 {
            hex_digit_char((r[j / 2] / 16) as nat)
        } else {
            hex_digit_char((r[j / 2] % 16) as nat)
        }) by {
            if j < 2 * q.len() {
                assert(hex_text(r)[j] == hex_text(q)[j]);
                assert(r[j / 2] == q[j / 2]);
            }
        }
    }
}

proof fn lemma_hex_bytes(r: Seq<u8>)
    ensures
        utf8(hex_text(r)) == hex_ascii(r),
{
    lemma_hex_text_chars(r);
    let t = hex_text(r);
    assert forall|i: int| 0 <= i < t.len() implies '\0' <= #[trigger] t[i] <= '\u{7f}' by {
        assert((t[i] as u32) < 128);
    }
    assert(vstd::utf8::is_ascii_chars(t));
    vstd::utf8::is_ascii_chars_encode_utf8(t);
    assert forall|j: int| 0 <= j < 2 * r.len() implies #[trigger] utf8(t)[j] == hex_ascii(r)[j] by {
        assert(t[j] as u8 == utf8(t)[j]);
    }
    assert(utf8(t) =~= hex_ascii(r));
}

/// A JSON hex string is a quoted run of lowercase hex digits that decodes,
/// pair by pair, to exactly the given bytes in their order.
pub proof fn law_json_hex_round_trip(r: Seq<u8>)
    ensures
        json_hex(r) == seq![0x22u8] + hex_ascii(r) + seq![0x22u8],
        hex_well_formed(hex_ascii(r)),
        hex_decoded(hex_ascii(r)) == r,
{
    lemma_hex_bytes(r);
    let h = hex_ascii(r);
    assert forall|i: int| 0 <= i < h.len() implies 0x20 <= #[trigger] h[i] && h[i] != 0x22 && h[i] != 0x5c by {}
    lemma_escape_free(h);
    assert forall|i: int| 0 <= i < h.len() implies (#[trigger] hex_digit_value(h[i])) is Some by {}
    assert forall|j: int| 0 <= j < r.len() implies #[trigger] hex_decoded(h)[j] == r[j] by {
        assert(h[2 * j] == crate::jcs::hex_digit_byte((r[j] / 16) as nat));
        assert(h[2 * j + 1] == crate::jcs::hex_digit_byte((r[j] % 16) as nat));
        assert((r[j] / 16) * 16 + r[j] % 16 == r[j]);
    }
    assert(hex_decoded(h) =~= r);
}

proof fn lemma_keys_ascending_5(ms: Seq<(Seq<char>, Seq<u8>)>)
    requires
        ms.len() == 5,
        key_less(ms[0].0, ms[1].0),
        key_less(ms[0].0, ms[2].0),
        key_less(ms[0].0, ms[3].0),
        key_less(ms[0].0, ms[4].0),
        key_less(ms[1].0, ms[2].0),
        key_less(ms[1].0, ms[3].0),
        key_less(ms[1].0, ms[4].0),
        key_less(ms[2].0, ms[3].0),
        key_less(ms[2].0, ms[4].0),
        key_less(ms[3].0, ms[4].0),
    ensures
        keys_ascending(ms),
{
    assert forall|i: int, j: int| 0 <= i < j < ms.len() implies key_less(#[trigger] ms[i].0, #[trigger] ms[j].0) by {
        if i == 0 {
            if j == 1 {} else if j == 2 {} else if j == 3 {} else {}
        } else if i == 1 {
            if j == 2 {} else if j == 3 {} else {}
        } else if i == 2 {
            if j == 3 {} else {}
        }
    }
}

proof fn lemma_keys_ascending_4(ms: Seq<(Seq<char>, Seq<u8>)>)
    requires
        ms.len() == 4,
        key_less(ms[0].0, ms[1].0),
        key_less(ms[0].0, ms[2].0),
        key_less(ms[0].0, ms[3].0),
        key_less(ms[1].0, ms[2].0),
        key_less(ms[1].0, ms[3].0),
        key_less(ms[2].0, ms[3].0),
    ensures
        keys_ascending(ms),
{
    assert forall|i: int, j: int| 0 <= i < j < ms.len() implies key_less(#[trigger] ms[i].0, #[trigger] ms[j].0) by {
        if i == 0 {
            if j == 1 {} else if j == 2 {} else {}
        } else if i == 1 {
            if j == 2 {} else {}
        }
    }
}

/// The signed-tree-head message is the RFC 8785 text of an object whose keys
/// ascend: `root_hash` (the lowercase hex of the root bytes, in order; see
/// `law_json_hex_round_trip`), `timestamp`, `tree_size` (the number's
/// canonical text), `type` = "sth" and `v` = the protocol version.
pub proof fn law_sth_message_is_sorted_object(tree_size: u64, root_hash: Seq<u8>, timestamp: Seq<char>)
    ensures
        sth_message_spec(tree_size, root_hash, timestamp) == json_object(
            seq![
                ("root_hash"@, json_hex(root_hash)),
                ("timestamp"@, json_string(timestamp)),
                ("tree_size"@, jcs_u64_spec(tree_size)),
                ("type"@, json_string("sth"@)),
                ("v"@, json_string(PROTOCOL_VERSION@)),
            ],
        ),
        keys_ascending(
            seq![
                ("root_hash"@, json_hex(root_hash)),
                ("timestamp"@, json_string(timestamp)),
                ("tree_size"@, jcs_u64_spec(tree_size)),
                ("type"@, json_string("sth"@)),
                ("v"@, json_string(PROTOCOL_VERSION@)),
            ],
        ),
{
    reveal(sth_message_spec);
    reveal_strlit("root_hash");
    reveal_strlit("timestamp");
    reveal_strlit("tree_size");
    reveal_strlit("type");
    reveal_strlit("v");
    reveal_with_fuel(key_less, 3);
    lemma_keys_ascending_5(
        seq![
            ("root_hash"@, json_hex(root_hash)),
            ("timestamp"@, json_string(timestamp)),
            ("tree_size"@, jcs_u64_spec(tree_size)),
            ("type"@, json_string("sth"@)),
            ("v"@, json_string(PROTOCOL_VERSION@)),
        ],
    );
}

/// A log leaf's content is the RFC 8785 text of the payload: an object whose
/// keys ascend, `credential_proof` (itself an object with ascending keys
/// `bbs_proof`, `hpk`, `keyset_id`, `product_category`, `purchase_tier`),
/// `review_body`, `sig` and `version`, each holding the payload's own field.
pub proof fn law_payload_json_is_sorted_object(p: ReviewPayload)
    ensures
        payload_json_spec(p) == json_object(
            seq![
                ("credential_proof"@, json_object(
                    seq![
                        ("bbs_proof"@, json_hex(p.credential_proof.bbs_proof@)),
                        ("hpk"@, json_hex(p.credential_proof.hpk@)),
                        ("keyset_id"@, json_hex(p.credential_proof.keyset_id.0@)),
                        ("product_category"@, json_opt_string(opt_category_name(p.credential_proof.product_category))),
                        ("purchase_tier"@, json_opt_string(opt_tier_name(p.credential_proof.purchase_tier))),
                    ],
                )),
                ("review_body"@, review_body_json(p.review_body)),
                ("sig"@, json_hex(p.sig@)),
                ("version"@, json_string(p.version@)),
            ],
        ),
        keys_ascending(
            seq![
                ("credential_proof"@, Seq::<u8>::empty()),
                ("review_body"@, Seq::<u8>::empty()),
                ("sig"@, Seq::<u8>::empty()),
                ("version"@, Seq::<u8>::empty()),
            ],
        ),
        keys_ascending(
            seq![
                ("bbs_proof"@, Seq::<u8>::empty()),
                ("hpk"@, Seq::<u8>::empty()),
                ("keyset_id"@, Seq::<u8>::empty()),
                ("product_category"@, Seq::<u8>::empty()),
                ("purchase_tier"@, Seq::<u8>::empty()),
            ],
        ),
{
    reveal(payload_json_spec);
    reveal_strlit("credential_proof");
    reveal_strlit("review_body");
    reveal_strlit("sig");
    reveal_strlit("version");
    reveal_strlit("bbs_proof");
    reveal_strlit("hpk");
    reveal_strlit("keyset_id");
    reveal_strlit("product_category");
    reveal_strlit("purchase_tier");
    reveal_with_fuel(key_less, 3);
    lemma_keys_ascending_4(
        seq![
            ("credential_proof"@, Seq::<u8>::empty()),
            ("review_body"@, Seq::<u8>::empty()),
            ("sig"@, Seq::<u8>::empty()),
            ("version"@, Seq::<u8>::empty()),
        ],
    );
    lemma_keys_ascending_5(
        seq![
            ("bbs_proof"@, Seq::<u8>::empty()),
            ("hpk"@, Seq::<u8>::empty()),
            ("keyset_id"@, Seq::<u8>::empty()),
            ("product_category"@, Seq::<u8>::empty()),
            ("purchase_tier"@, Seq::<u8>::empty()),
        ],
    );
}

} // verus!
