use chaumstar_core::{
    leaf_hash, mint_finish, mint_start, publish, DisclosureMask, InsertError, Issuer, MintContext,
    ProductCategory, PublicKeyset, PurchaseTier, ReviewBody, ReviewPayload, ReviewStore,
};

const ISSUER_ID: &str = "bean-and-beam-coffee";
const MERCHANT_ID: &str = "main-store";

fn body(text: &str) -> ReviewBody {
    ReviewBody {
        text: text.into(),
        rating: 4,
        merchant_id: MERCHANT_ID.into(),
        issuer_id: ISSUER_ID.into(),
        issued_at: "2026-05-17T10:00:00Z".into(),
        timestamp: "2026-05-17T13:00:00Z".into(),
    }
}

fn fresh_payload(issuer: &Issuer, keyset: &PublicKeyset, text: &str) -> ReviewPayload {
    let ctx = MintContext {
        merchant_id: MERCHANT_ID.into(),
        issued_at: "2026-05-17T10:00:00Z".into(),
        purchase_tier: PurchaseTier::Mid,
        product_category: ProductCategory::Drinks,
    };
    let (state, req) = mint_start(keyset, &ctx).unwrap();
    let credential = mint_finish(state, issuer.blind_sign(&req).unwrap()).unwrap();
    publish(&credential, body(text), DisclosureMask::default()).unwrap()
}

#[test]
fn empty_store_has_signed_zero_size_head() {
    let store = ReviewStore::new();
    let pk = store.registry_public_key();
    let sth = store.current_sth("2026-05-17T13:00:00Z".into());
    assert_eq!(sth.tree_size, 0);
    sth.verify(&pk).expect("empty sth verifies");
    assert!(store.list().is_empty());
}

#[test]
fn insert_list_get_and_proofs_verify_against_head() {
    let issuer = Issuer::generate(ISSUER_ID, MERCHANT_ID);
    let keyset = issuer.public_keyset();
    let mut store = ReviewStore::new();
    let pk = store.registry_public_key();

    let mut hpks = vec![];
    for (i, label) in ["first", "second", "third"].iter().enumerate() {
        let payload = fresh_payload(&issuer, &keyset, label);
        let (stored, proof, sth) = store
            .check_and_insert(payload.clone(), &keyset, "2026-05-17T13:00:00Z".into())
            .expect("insert");
        assert_eq!(stored.review_body.text, *label);
        assert_eq!(proof.leaf_index, i as u64);
        assert_eq!(proof.tree_size, i as u64 + 1);
        assert_eq!(sth.tree_size, i as u64 + 1);
        sth.verify(&pk).unwrap();
        proof.verify(&leaf_hash(&payload).unwrap(), &sth.root_hash).unwrap();
        hpks.push(payload.credential_proof.hpk);
    }

    let listed = store.list();
    assert_eq!(listed.len(), 3);
    assert_eq!(listed[1].review_body.text, "second");

    let (rows, sth) = store.list_with_proofs("later".into());
    assert_eq!(sth.tree_size, 3);
    sth.verify(&pk).unwrap();
    for (payload, proof) in &rows {
        proof.verify(&leaf_hash(payload).unwrap(), &sth.root_hash).unwrap();
    }

    let got = store.get(&hpks[2]).expect("present");
    assert_eq!(got.review_body.text, "third");
    assert!(store.get(&[0xff; 32]).is_none());
    let (p, proof, sth) = store.get_with_proof(&hpks[0], "later".into()).unwrap();
    proof.verify(&leaf_hash(&p).unwrap(), &sth.root_hash).unwrap();
    assert!(store.get_with_proof(&[0xff; 32], "later".into()).is_none());
}

#[test]
fn double_spend_and_tampering_are_refused() {
    let issuer = Issuer::generate(ISSUER_ID, MERCHANT_ID);
    let keyset = issuer.public_keyset();
    let mut store = ReviewStore::new();

    let payload = fresh_payload(&issuer, &keyset, "ok");
    store.check_and_insert(payload.clone(), &keyset, "t".into()).unwrap();
    assert!(matches!(
        store.check_and_insert(payload.clone(), &keyset, "t".into()),
        Err(InsertError::AlreadyUsed)
    ));

    let mut tampered = fresh_payload(&issuer, &keyset, "great");
    tampered.review_body.text = "tampered".into();
    assert!(matches!(
        store.check_and_insert(tampered, &keyset, "t".into()),
        Err(InsertError::Verify(_))
    ));
    assert_eq!(store.list().len(), 1);
}

#[test]
fn tampered_payload_breaks_inclusion_proof_against_stored_root() {
    let issuer = Issuer::generate(ISSUER_ID, MERCHANT_ID);
    let keyset = issuer.public_keyset();
    let mut store = ReviewStore::new();
    let payload = fresh_payload(&issuer, &keyset, "ok");
    let (stored, proof, sth) = store.check_and_insert(payload, &keyset, "t".into()).unwrap();
    let mut tampered = stored.clone();
    tampered.review_body.text = "tampered locally".into();
    let bad_leaf = leaf_hash(&tampered).unwrap();
    assert!(proof.verify(&bad_leaf, &sth.root_hash).is_err());
}

#[test]
fn undecodable_proof_is_refused_as_malformed_and_accepted_ones_keep_their_order() {
    let issuer = Issuer::generate(ISSUER_ID, MERCHANT_ID);
    let keyset = issuer.public_keyset();
    let mut store = ReviewStore::new();

    let mut broken = fresh_payload(&issuer, &keyset, "short proof");
    broken.credential_proof.bbs_proof.truncate(10);
    match store.check_and_insert(broken, &keyset, "1".to_string()) {
        Err(InsertError::Verify(chaumstar_core::VerifyError::Malformed(text))) => {
            assert_eq!(text, "undecodable keyset key or proof")
        }
        other => panic!("unexpected: {:?}", other.map(|_| ())),
    }
    assert!(store.list().is_empty());

    let first = fresh_payload(&issuer, &keyset, "first");
    let second = fresh_payload(&issuer, &keyset, "second");
    assert!(store.check_and_insert(first.clone(), &keyset, "2".to_string()).is_ok());
    assert!(matches!(
        store.check_and_insert(first.clone(), &keyset, "3".to_string()),
        Err(InsertError::AlreadyUsed)
    ));
    assert!(store.check_and_insert(second, &keyset, "4".to_string()).is_ok());
    let texts: Vec<String> = store.list().into_iter().map(|p| p.review_body.text).collect();
    assert_eq!(texts, vec!["first".to_string(), "second".to_string()]);
}

#[test]
fn registry_key_hex_is_the_lowercase_hex_of_the_key() {
    let store = ReviewStore::new();
    let pk = store.registry_public_key();
    let text = store.registry_public_key_hex();
    assert_eq!(text.len(), 64);
    assert_eq!(text, pk.iter().map(|b| format!("{b:02x}")).collect::<String>());
}
