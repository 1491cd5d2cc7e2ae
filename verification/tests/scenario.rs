use chaumstar_core::{
    mint_finish, mint_start, publish, verify, verify_proof_only, DisclosureMask, Error, Issuer,
    MemoryRegistry, MintContext, MintResponse, ProductCategory, PurchaseTier, Registry,
    ReviewBody, VerifyError, PROTOCOL_VERSION, verify_inputs_checked,
};

const ISSUER_ID: &str = "bean-and-beam-coffee";
const MERCHANT_ID: &str = "main-store";
const ISSUED_AT: &str = "2026-05-17T10:00:00Z";
const REVIEW_TIMESTAMP: &str = "2026-05-17T13:00:00Z";

fn make_review_body(text: &str, rating: u8) -> ReviewBody {
    ReviewBody {
        text: text.to_string(),
        rating,
        merchant_id: MERCHANT_ID.to_string(),
        issuer_id: ISSUER_ID.to_string(),
        issued_at: ISSUED_AT.to_string(),
        timestamp: REVIEW_TIMESTAMP.to_string(),
    }
}

fn mint_ctx(tier: PurchaseTier, category: ProductCategory) -> MintContext {
    MintContext {
        merchant_id: MERCHANT_ID.into(),
        issued_at: ISSUED_AT.into(),
        purchase_tier: tier,
        product_category: category,
    }
}

#[test]
fn happy_path_mint_publish_verify_with_no_disclosure() {
    let issuer = Issuer::generate(ISSUER_ID, MERCHANT_ID);
    let keyset = issuer.public_keyset();

    let (state, req) = mint_start(&keyset, &mint_ctx(PurchaseTier::Mid, ProductCategory::Drinks))
        .expect("mint_start");
    let resp = issuer.blind_sign(&req).expect("blind_sign");
    let credential = mint_finish(state, resp).expect("mint_finish");

    let payload = publish(&credential, make_review_body("美味しかった", 5), DisclosureMask::default())
        .expect("publish");

    assert!(payload.credential_proof.purchase_tier.is_none());
    assert!(payload.credential_proof.product_category.is_none());

    verify(&payload, &keyset, &mut MemoryRegistry::default()).expect("verify");
}

#[test]
fn publish_disclosing_only_tier() {
    let issuer = Issuer::generate(ISSUER_ID, MERCHANT_ID);
    let keyset = issuer.public_keyset();

    let (state, req) =
        mint_start(&keyset, &mint_ctx(PurchaseTier::High, ProductCategory::Food)).expect("mint_start");
    let resp = issuer.blind_sign(&req).unwrap();
    let credential = mint_finish(state, resp).unwrap();

    let payload = publish(
        &credential,
        make_review_body("最高", 5),
        DisclosureMask { disclose_tier: true, disclose_category: false },
    )
    .expect("publish");

    assert_eq!(payload.credential_proof.purchase_tier, Some(PurchaseTier::High));
    assert!(payload.credential_proof.product_category.is_none());

    verify(&payload, &keyset, &mut MemoryRegistry::default()).expect("verify");
}

#[test]
fn publish_disclosing_both_attributes() {
    let issuer = Issuer::generate(ISSUER_ID, MERCHANT_ID);
    let keyset = issuer.public_keyset();

    let (state, req) =
        mint_start(&keyset, &mint_ctx(PurchaseTier::Low, ProductCategory::Merch)).expect("mint_start");
    let resp = issuer.blind_sign(&req).unwrap();
    let credential = mint_finish(state, resp).unwrap();

    let payload = publish(
        &credential,
        make_review_body("ok", 3),
        DisclosureMask { disclose_tier: true, disclose_category: true },
    )
    .unwrap();

    assert_eq!(payload.credential_proof.purchase_tier, Some(PurchaseTier::Low));
    assert_eq!(payload.credential_proof.product_category, Some(ProductCategory::Merch));

    verify(&payload, &keyset, &mut MemoryRegistry::default()).expect("verify");
}

#[test]
fn double_review_is_rejected() {
    let issuer = Issuer::generate(ISSUER_ID, MERCHANT_ID);
    let keyset = issuer.public_keyset();
    let mut registry = MemoryRegistry::default();

    let (state, req) = mint_start(&keyset, &mint_ctx(PurchaseTier::Mid, ProductCategory::Drinks)).unwrap();
    let resp = issuer.blind_sign(&req).unwrap();
    let credential = mint_finish(state, resp).unwrap();

    let p1 = publish(&credential, make_review_body("ok", 4), DisclosureMask::default()).unwrap();
    verify(&p1, &keyset, &mut registry).expect("first verify");

    let p2 = publish(&credential, make_review_body("again", 3), DisclosureMask::default()).unwrap();
    let err = verify(&p2, &keyset, &mut registry).unwrap_err();
    assert!(matches!(err, VerifyError::AlreadyUsed), "expected AlreadyUsed, got {err:?}");
}

#[test]
fn tampered_review_body_is_rejected() {
    let issuer = Issuer::generate(ISSUER_ID, MERCHANT_ID);
    let keyset = issuer.public_keyset();

    let (state, req) = mint_start(&keyset, &mint_ctx(PurchaseTier::Mid, ProductCategory::Drinks)).unwrap();
    let resp = issuer.blind_sign(&req).unwrap();
    let credential = mint_finish(state, resp).unwrap();

    let mut payload = publish(&credential, make_review_body("great", 5), DisclosureMask::default()).unwrap();
    payload.review_body.text = "terrible".into();

    let err = verify(&payload, &keyset, &mut MemoryRegistry::default()).unwrap_err();
    assert!(
        matches!(err, VerifyError::HolderSignatureInvalid | VerifyError::ProofInvalid),
        "expected HolderSignatureInvalid or ProofInvalid, got {err:?}"
    );
}

#[test]
fn forged_credential_is_rejected() {
    let real = Issuer::generate(ISSUER_ID, MERCHANT_ID);
    let real_ks = real.public_keyset();

    let eve = Issuer::generate("eve-fake-coffee", MERCHANT_ID);
    let eve_ks = eve.public_keyset();

    let (state, req) = mint_start(&eve_ks, &mint_ctx(PurchaseTier::Mid, ProductCategory::Drinks)).unwrap();
    let resp = eve.blind_sign(&req).unwrap();
    let cred = mint_finish(state, resp).unwrap();
    let payload = publish(&cred, make_review_body("fake", 1), DisclosureMask::default()).unwrap();

    let err = verify(&payload, &real_ks, &mut MemoryRegistry::default()).unwrap_err();
    assert!(
        matches!(err, VerifyError::ProofInvalid | VerifyError::KeysetMismatch),
        "expected ProofInvalid or KeysetMismatch, got {err:?}"
    );
}

#[test]
fn lying_about_disclosed_tier_is_rejected() {
    let issuer = Issuer::generate(ISSUER_ID, MERCHANT_ID);
    let keyset = issuer.public_keyset();

    let (state, req) = mint_start(&keyset, &mint_ctx(PurchaseTier::Mid, ProductCategory::Drinks)).unwrap();
    let resp = issuer.blind_sign(&req).unwrap();
    let credential = mint_finish(state, resp).unwrap();

    let mut payload = publish(
        &credential,
        make_review_body("ok", 4),
        DisclosureMask { disclose_tier: true, disclose_category: false },
    )
    .unwrap();
    assert_eq!(payload.credential_proof.purchase_tier, Some(PurchaseTier::Mid));

    payload.credential_proof.purchase_tier = Some(PurchaseTier::High);

    let err = verify(&payload, &keyset, &mut MemoryRegistry::default()).unwrap_err();
    assert!(
        matches!(err, VerifyError::ProofInvalid | VerifyError::HolderSignatureInvalid),
        "expected ProofInvalid or HolderSignatureInvalid, got {err:?}"
    );
}

#[test]
fn pretending_undisclosed_attribute_was_disclosed_is_rejected() {
    let issuer = Issuer::generate(ISSUER_ID, MERCHANT_ID);
    let keyset = issuer.public_keyset();

    let (state, req) = mint_start(&keyset, &mint_ctx(PurchaseTier::Mid, ProductCategory::Drinks)).unwrap();
    let resp = issuer.blind_sign(&req).unwrap();
    let credential = mint_finish(state, resp).unwrap();

    let mut payload = publish(&credential, make_review_body("ok", 4), DisclosureMask::default()).unwrap();
    assert!(payload.credential_proof.purchase_tier.is_none());

    payload.credential_proof.purchase_tier = Some(PurchaseTier::High);

    let err = verify(&payload, &keyset, &mut MemoryRegistry::default()).unwrap_err();
    assert!(
        matches!(err, VerifyError::ProofInvalid | VerifyError::HolderSignatureInvalid),
        "expected ProofInvalid or HolderSignatureInvalid, got {err:?}"
    );
}

#[test]
fn purchase_tier_from_yen_buckets_correctly() {
    assert_eq!(PurchaseTier::from_yen(0), PurchaseTier::Low);
    assert_eq!(PurchaseTier::from_yen(999), PurchaseTier::Low);
    assert_eq!(PurchaseTier::from_yen(1_000), PurchaseTier::Mid);
    assert_eq!(PurchaseTier::from_yen(4_999), PurchaseTier::Mid);
    assert_eq!(PurchaseTier::from_yen(5_000), PurchaseTier::High);
    assert_eq!(PurchaseTier::from_yen(99_999), PurchaseTier::High);
}

// --- additional checks -------------------------------------------------------

#[test]
fn attribute_wire_names() {
    assert_eq!(PurchaseTier::Low.as_str(), "low");
    assert_eq!(PurchaseTier::Mid.as_bytes(), b"mid");
    assert_eq!(PurchaseTier::High.as_str(), "high");
    assert_eq!(ProductCategory::Drinks.as_str(), "drinks");
    assert_eq!(ProductCategory::Food.as_bytes(), b"food");
    assert_eq!(ProductCategory::Merch.as_str(), "merch");
}

#[test]
fn mint_start_copies_context_and_keyset() {
    let issuer = Issuer::generate(ISSUER_ID, MERCHANT_ID);
    let keyset = issuer.public_keyset();
    assert_eq!(issuer.issuer_id(), ISSUER_ID);
    assert_eq!(issuer.merchant_id(), MERCHANT_ID);
    assert_eq!(keyset.public_key_bytes.len(), 96);
    assert_eq!(keyset.keyset_id, chaumstar_core::KeysetId::from_pubkey_bytes(&keyset.public_key_bytes));
    let (state, req) = mint_start(&keyset, &mint_ctx(PurchaseTier::High, ProductCategory::Merch)).unwrap();
    assert_eq!(req.issuer_id, ISSUER_ID);
    assert_eq!(req.merchant_id, MERCHANT_ID);
    assert_eq!(req.issued_at, ISSUED_AT);
    assert_eq!(req.purchase_tier, PurchaseTier::High);
    assert_eq!(req.product_category, ProductCategory::Merch);
    assert_eq!(req.keyset_id, keyset.keyset_id);
    assert_eq!(state.keyset.keyset_id, keyset.keyset_id);
    let derived = ed25519_dalek::SigningKey::from_bytes(&state.hsk_bytes).verifying_key().to_bytes();
    assert_eq!(state.hpk_bytes, derived);
}

#[test]
fn blind_sign_rejects_mismatched_requests() {
    let issuer = Issuer::generate(ISSUER_ID, MERCHANT_ID);
    let keyset = issuer.public_keyset();
    let (_state, req) = mint_start(&keyset, &mint_ctx(PurchaseTier::Mid, ProductCategory::Drinks)).unwrap();

    let mut wrong_issuer = req.clone();
    wrong_issuer.issuer_id = "someone-else".into();
    assert!(matches!(issuer.blind_sign(&wrong_issuer), Err(Error::InvalidInput(_))));

    let mut wrong_merchant = req.clone();
    wrong_merchant.merchant_id = "other-store".into();
    assert!(matches!(issuer.blind_sign(&wrong_merchant), Err(Error::InvalidInput(_))));

    let mut wrong_keyset = req.clone();
    wrong_keyset.keyset_id = chaumstar_core::KeysetId([1, 2, 3, 4, 5, 6, 7, 8]);
    assert!(matches!(issuer.blind_sign(&wrong_keyset), Err(Error::InvalidInput(_))));

    let mut bad_commitment = req.clone();
    bad_commitment.commitment_bytes = vec![0u8; 10];
    assert!(matches!(issuer.blind_sign(&bad_commitment), Err(Error::Bbs(_))));
}

#[test]
fn mint_finish_rejects_wrong_signature_length_and_bad_signature() {
    let issuer = Issuer::generate(ISSUER_ID, MERCHANT_ID);
    let keyset = issuer.public_keyset();
    let (state, req) = mint_start(&keyset, &mint_ctx(PurchaseTier::Mid, ProductCategory::Drinks)).unwrap();
    let resp = issuer.blind_sign(&req).unwrap();

    let short = MintResponse { blind_signature_bytes: vec![0u8; 79] };
    assert!(matches!(mint_finish(state.clone(), short), Err(Error::InvalidInput(_))));

    // A signature for another commitment does not finish this mint.
    let (other_state, _other_req) =
        mint_start(&keyset, &mint_ctx(PurchaseTier::Mid, ProductCategory::Drinks)).unwrap();
    assert!(matches!(mint_finish(other_state, resp.clone()), Err(Error::Bbs(_))));

    let credential = mint_finish(state, resp).unwrap();
    assert_eq!(credential.version, PROTOCOL_VERSION);
    assert_eq!(credential.blind_signature.len(), 80);
    assert_eq!(credential.purchase_tier, PurchaseTier::Mid);
}

#[test]
fn verify_proof_only_reports_keyset_mismatch_and_leaves_registry_alone() {
    let issuer = Issuer::generate(ISSUER_ID, MERCHANT_ID);
    let keyset = issuer.public_keyset();
    let (state, req) = mint_start(&keyset, &mint_ctx(PurchaseTier::Mid, ProductCategory::Drinks)).unwrap();
    let credential = mint_finish(state, issuer.blind_sign(&req).unwrap()).unwrap();
    let payload = publish(&credential, make_review_body("ok", 4), DisclosureMask::default()).unwrap();

    verify_proof_only(&payload, &keyset).expect("proof verifies");
    let mut other = keyset.clone();
    other.keyset_id = chaumstar_core::KeysetId([0; 8]);
    assert!(matches!(verify_proof_only(&payload, &other), Err(VerifyError::KeysetMismatch)));

    let mut registry = MemoryRegistry::default();
    assert!(verify(&payload, &other, &mut registry).is_err());
    assert!(registry.is_empty());
    verify(&payload, &keyset, &mut registry).unwrap();
    assert_eq!(registry.len(), 1);
    assert!(registry.contains(&payload.credential_proof.hpk));
}

#[test]
fn memory_registry_insert_is_idempotent() {
    let mut registry = MemoryRegistry::default();
    assert!(registry.is_empty());
    registry.insert([1u8; 32]);
    registry.insert([1u8; 32]);
    registry.insert([2u8; 32]);
    assert_eq!(registry.len(), 2);
    assert!(registry.contains(&[2u8; 32]));
    assert!(!registry.contains(&[3u8; 32]));
    let copy = registry.clone();
    assert_eq!(copy.len(), 2);
}

#[test]
fn error_messages() {
    assert_eq!(VerifyError::AlreadyUsed.message(), "credential has already been used (double-review)");
    assert_eq!(Error::InvalidInput("x".into()).message(), "invalid input: x");
}

#[test]
fn verify_inputs_checked_flags_inputs_the_decoders_cannot_take() {
    let issuer = Issuer::generate(ISSUER_ID, MERCHANT_ID);
    let keyset = issuer.public_keyset();
    let (state, req) = mint_start(&keyset, &mint_ctx(PurchaseTier::Low, ProductCategory::Merch)).unwrap();
    let credential = mint_finish(state, issuer.blind_sign(&req).unwrap()).unwrap();
    let payload = publish(&credential, make_review_body("fine", 3), DisclosureMask::default()).unwrap();
    assert!(verify_inputs_checked(&payload, &keyset));

    let mut short_key = keyset.clone();
    short_key.public_key_bytes.truncate(40);
    assert!(!verify_inputs_checked(&payload, &short_key));

    let mut truncated = payload.clone();
    truncated.credential_proof.bbs_proof.truncate(100);
    assert!(!verify_inputs_checked(&truncated, &keyset));

    let mut other = short_key.clone();
    other.keyset_id = chaumstar_core::KeysetId([0; 8]);
    assert!(verify_inputs_checked(&payload, &other));
}

#[test]
fn undecodable_keyset_key_is_reported_as_malformed() {
    let issuer = Issuer::generate(ISSUER_ID, MERCHANT_ID);
    let keyset = issuer.public_keyset();
    assert_eq!(keyset.public_key_bytes.len(), 96);
    let (state, req) = mint_start(&keyset, &mint_ctx(PurchaseTier::Mid, ProductCategory::Food)).unwrap();
    let credential = mint_finish(state, issuer.blind_sign(&req).unwrap()).unwrap();
    let payload = publish(&credential, make_review_body("good", 5), DisclosureMask::default()).unwrap();
    let mut broken = keyset.clone();
    broken.public_key_bytes = vec![0xff; 96];
    match verify_proof_only(&payload, &broken) {
        Err(VerifyError::Malformed(text)) => assert_eq!(text, "invalid keyset public key"),
        other => panic!("unexpected result: {other:?}"),
    }
}

#[test]
fn verify_checked_refuses_undecodable_proofs_and_otherwise_verifies() {
    let issuer = Issuer::generate(ISSUER_ID, MERCHANT_ID);
    let keyset = issuer.public_keyset();
    let (state, req) = mint_start(&keyset, &mint_ctx(PurchaseTier::High, ProductCategory::Drinks)).unwrap();
    let credential = mint_finish(state, issuer.blind_sign(&req).unwrap()).unwrap();
    let payload = publish(&credential, make_review_body("nice", 4), DisclosureMask::default()).unwrap();

    let mut registry = MemoryRegistry::default();
    let mut truncated = payload.clone();
    truncated.credential_proof.bbs_proof.truncate(100);
    match chaumstar_core::verify_checked(&truncated, &keyset, &mut registry) {
        Err(VerifyError::Malformed(text)) => assert_eq!(text, "undecodable keyset key or proof"),
        other => panic!("unexpected result: {other:?}"),
    }
    assert!(registry.is_empty());
    chaumstar_core::verify_checked(&payload, &keyset, &mut registry).expect("verifies");
    assert!(matches!(
        chaumstar_core::verify_checked(&payload, &keyset, &mut registry),
        Err(VerifyError::AlreadyUsed)
    ));
}

#[test]
fn wire_bytes_are_distinct() {
    let tiers = [PurchaseTier::Low, PurchaseTier::Mid, PurchaseTier::High];
    for (i, a) in tiers.iter().enumerate() {
        for (j, b) in tiers.iter().enumerate() {
            assert_eq!(i == j, a.as_bytes() == b.as_bytes());
        }
    }
    let cats = [ProductCategory::Drinks, ProductCategory::Food, ProductCategory::Merch];
    for (i, a) in cats.iter().enumerate() {
        for (j, b) in cats.iter().enumerate() {
            assert_eq!(i == j, a.as_bytes() == b.as_bytes());
        }
    }
}

#[test]
fn blind_sign_and_mint_finish_error_texts() {
    let issuer = Issuer::generate(ISSUER_ID, MERCHANT_ID);
    let keyset = issuer.public_keyset();
    let (state, req) = mint_start(&keyset, &mint_ctx(PurchaseTier::Mid, ProductCategory::Drinks)).unwrap();

    let mut wrong_issuer = req.clone();
    wrong_issuer.issuer_id = "someone-else".into();
    match issuer.blind_sign(&wrong_issuer) {
        Err(Error::InvalidInput(m)) => {
            assert_eq!(m, "issuer_id mismatch: expected bean-and-beam-coffee, got someone-else")
        }
        _ => panic!("expected InvalidInput"),
    }
    let mut wrong_merchant = req.clone();
    wrong_merchant.merchant_id = "other-store".into();
    match issuer.blind_sign(&wrong_merchant) {
        Err(Error::InvalidInput(m)) => assert_eq!(m, "merchant_id mismatch: expected main-store, got other-store"),
        _ => panic!("expected InvalidInput"),
    }
    let mut wrong_keyset = req.clone();
    wrong_keyset.keyset_id = chaumstar_core::KeysetId([1, 2, 3, 4, 5, 6, 7, 8]);
    match issuer.blind_sign(&wrong_keyset) {
        Err(Error::InvalidInput(m)) => assert_eq!(m, "keyset_id mismatch"),
        _ => panic!("expected InvalidInput"),
    }
    match mint_finish(state, MintResponse { blind_signature_bytes: vec![0; 5] }) {
        Err(Error::InvalidInput(m)) => assert_eq!(m, "blind_signature_bytes: expected 80 bytes"),
        _ => panic!("expected InvalidInput"),
    }
}

#[test]
fn publish_with_undecodable_keyset_key_names_the_key() {
    let issuer = Issuer::generate(ISSUER_ID, MERCHANT_ID);
    let keyset = issuer.public_keyset();
    let (state, req) = mint_start(&keyset, &mint_ctx(PurchaseTier::Mid, ProductCategory::Drinks)).unwrap();
    let mut credential = mint_finish(state, issuer.blind_sign(&req).unwrap()).unwrap();
    credential.keyset.public_key_bytes = vec![0xff; 96];
    match publish(&credential, make_review_body("x", 1), DisclosureMask::default()) {
        Err(Error::Bbs(m)) => assert!(m.starts_with("PublicKey::from_bytes: ")),
        _ => panic!("expected Bbs"),
    }
}

#[test]
fn hex_identifiers_parse_or_say_why_not() {
    assert_eq!(chaumstar_core::parse_keyset_id_hex("0001A2b3C4d5E6F7").unwrap(), chaumstar_core::KeysetId([0x00, 0x01, 0xa2, 0xb3, 0xc4, 0xd5, 0xe6, 0xf7]));
    assert_eq!(chaumstar_core::parse_keyset_id_hex("zz01a2b3c4d5e6f7"), Err(chaumstar_core::HexIdError::NotHex));
    assert_eq!(chaumstar_core::parse_keyset_id_hex("0001a2b3c4d5e6f"), Err(chaumstar_core::HexIdError::NotHex));
    assert_eq!(chaumstar_core::parse_keyset_id_hex("0001a2b3"), Err(chaumstar_core::HexIdError::WrongLength));
    let hpk = [0x5au8; 32];
    assert_eq!(chaumstar_core::parse_hpk_hex(&"5a".repeat(32)).unwrap(), hpk);
    assert_eq!(chaumstar_core::parse_hpk_hex(&"5a".repeat(31)), Err(chaumstar_core::HexIdError::WrongLength));
    assert_eq!(chaumstar_core::parse_hpk_hex("not hex"), Err(chaumstar_core::HexIdError::NotHex));
}
