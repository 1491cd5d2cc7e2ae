use chaumstar_core::{
    canonical_message, sth_canonical_bytes, KeysetId, ProductCategory, PurchaseTier, ReviewBody,
    PROTOCOL_VERSION,
};
use serde_json::Value;
use sha2::Digest;

fn body(text: &str) -> ReviewBody {
    ReviewBody {
        text: text.into(),
        rating: 5,
        merchant_id: "main-store".into(),
        issuer_id: "bean-and-beam-coffee".into(),
        issued_at: "2026-05-17T10:00:00Z".into(),
        timestamp: "2026-05-17T13:00:00Z".into(),
    }
}

fn obj(entries: Vec<(&str, Value)>) -> Value {
    let mut m = serde_json::Map::new();
    for (k, v) in entries {
        m.insert(k.to_string(), v);
    }
    Value::Object(m)
}

fn expected_message(
    b: &ReviewBody,
    hpk: &[u8; 32],
    kid: &[u8; 8],
    tier: Option<&str>,
    category: Option<&str>,
) -> Vec<u8> {
    let opt = |o: Option<&str>| o.map(|s| Value::String(s.into())).unwrap_or(Value::Null);
    let value = obj(vec![
        ("v", Value::String(PROTOCOL_VERSION.into())),
        ("type", Value::String("review".into())),
        (
            "review_body",
            obj(vec![
                ("text", Value::String(b.text.clone())),
                ("rating", Value::from(b.rating)),
                ("merchant_id", Value::String(b.merchant_id.clone())),
                ("issuer_id", Value::String(b.issuer_id.clone())),
                ("issued_at", Value::String(b.issued_at.clone())),
                ("timestamp", Value::String(b.timestamp.clone())),
            ]),
        ),
        (
            "credential",
            obj(vec![
                ("hpk", Value::String(hex::encode(hpk))),
                ("keyset_id", Value::String(hex::encode(kid))),
            ]),
        ),
        (
            "disclosure",
            obj(vec![("purchase_tier", opt(tier)), ("product_category", opt(category))]),
        ),
    ]);
    serde_jcs::to_vec(&value).unwrap()
}

#[test]
fn canonical_message_matches_serde_jcs_without_disclosure() {
    let b = body("美味しかった");
    let hpk = [7u8; 32];
    let kid = KeysetId([1, 2, 3, 4, 5, 6, 7, 8]);
    let got = canonical_message(&b, &hpk, &kid, None, None);
    assert_eq!(got, expected_message(&b, &hpk, &kid.0, None, None));
}

#[test]
fn canonical_message_matches_serde_jcs_with_disclosure_and_escapes() {
    let b = body("quote \" backslash \\ newline \n tab \t bell \u{7} del \u{7f} é 🎉");
    let hpk = [0xabu8; 32];
    let kid = KeysetId([0xde, 0xad, 0xbe, 0xef, 0x01, 0x02, 0x03, 0x04]);
    let got = canonical_message(&b, &hpk, &kid, Some(PurchaseTier::High), Some(ProductCategory::Food));
    assert_eq!(got, expected_message(&b, &hpk, &kid.0, Some("high"), Some("food")));
}

#[test]
fn canonical_message_exact_text() {
    let b = ReviewBody {
        text: "ok".into(),
        rating: 4,
        merchant_id: "m".into(),
        issuer_id: "i".into(),
        issued_at: "a".into(),
        timestamp: "t".into(),
    };
    let got = canonical_message(&b, &[0u8; 32], &KeysetId([0xff; 8]), Some(PurchaseTier::Low), None);
    let expected = format!(
        "{{\"credential\":{{\"hpk\":\"{}\",\"keyset_id\":\"ffffffffffffffff\"}},\"disclosure\":{{\"product_category\":null,\"purchase_tier\":\"low\"}},\"review_body\":{{\"issued_at\":\"a\",\"issuer_id\":\"i\",\"merchant_id\":\"m\",\"rating\":4,\"text\":\"ok\",\"timestamp\":\"t\"}},\"type\":\"review\",\"v\":\"chaumstar/0.4\"}}",
        "0".repeat(64)
    );
    assert_eq!(String::from_utf8(got).unwrap(), expected);
}

#[test]
fn sth_canonical_bytes_match_serde_jcs() {
    let root = [0x42u8; 32];
    for size in [0u64, 7, (1u64 << 53) - 1, 1u64 << 60, u64::MAX] {
        let got = sth_canonical_bytes(size, &root, "2026-05-17T10:00:00Z");
        let value = obj(vec![
            ("v", Value::String(PROTOCOL_VERSION.into())),
            ("type", Value::String("sth".into())),
            ("tree_size", Value::from(size)),
            ("root_hash", Value::String(hex::encode(root))),
            ("timestamp", Value::String("2026-05-17T10:00:00Z".into())),
        ]);
        assert_eq!(got, serde_jcs::to_vec(&value).unwrap(), "tree_size {size}");
    }
}

#[test]
fn keyset_id_hex_and_derivation() {
    let id = KeysetId([0xde, 0xad, 0xbe, 0xef, 0x01, 0x02, 0x03, 0x04]);
    assert_eq!(id.to_hex(), "deadbeef01020304");
    assert_eq!(id.as_bytes(), &[0xde, 0xad, 0xbe, 0xef, 0x01, 0x02, 0x03, 0x04]);
    let pk = [9u8; 96];
    let digest = sha2::Sha256::digest(pk);
    assert_eq!(KeysetId::from_pubkey_bytes(&pk).0, digest[..8]);
    assert!(id.same_as(&KeysetId([0xde, 0xad, 0xbe, 0xef, 1, 2, 3, 4])));
    assert!(!id.same_as(&KeysetId([0; 8])));
}
