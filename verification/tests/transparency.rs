use chaumstar_core::transparency::{
    leaf_hash_bytes, merkle_root, node_hash, HashHex, InclusionProof, Sth,
};
use chaumstar_core::VerifyError;
use ed25519_dalek::SigningKey;
use rand::rngs::OsRng;
use sha2::{Digest, Sha256};

fn h(b: u8) -> [u8; 32] {
    let mut out = [0u8; 32];
    out[0] = b;
    out
}

#[test]
fn merkle_root_single_leaf_is_that_leaf() {
    let leaf = h(0xaa);
    assert_eq!(merkle_root(&[leaf]), leaf);
}

#[test]
fn merkle_root_two_leaves_is_node_hash() {
    let a = h(1);
    let b = h(2);
    assert_eq!(merkle_root(&[a, b]), node_hash(&a, &b));
}

#[test]
fn merkle_root_unbalanced_three_leaves() {
    let leaves = [h(0), h(1), h(2)];
    let h01 = node_hash(&leaves[0], &leaves[1]);
    let expected = node_hash(&h01, &leaves[2]);
    assert_eq!(merkle_root(&leaves), expected);
}

#[test]
fn inclusion_proof_round_trip_for_every_index() {
    for size in 1..=12 {
        let leaves: Vec<[u8; 32]> = (0..size as u8).map(h).collect();
        let root = merkle_root(&leaves);
        for i in 0..size {
            let proof = InclusionProof::build(&leaves, i as u64).unwrap();
            proof
                .verify(&leaves[i], &root)
                .unwrap_or_else(|_| panic!("size={size}, i={i}"));
        }
    }
}

#[test]
fn inclusion_proof_against_wrong_root_fails() {
    let leaves: Vec<[u8; 32]> = (0..4).map(h).collect();
    let proof = InclusionProof::build(&leaves, 1).unwrap();
    let mut wrong_root = merkle_root(&leaves);
    wrong_root[0] ^= 1;
    assert!(proof.verify(&leaves[1], &wrong_root).is_err());
}

#[test]
fn inclusion_proof_for_wrong_leaf_fails() {
    let leaves: Vec<[u8; 32]> = (0..4).map(h).collect();
    let root = merkle_root(&leaves);
    let proof = InclusionProof::build(&leaves, 1).unwrap();
    assert!(proof.verify(&leaves[2], &root).is_err());
}

#[test]
fn inclusion_proof_out_of_range_errors() {
    let leaves: Vec<[u8; 32]> = (0..4).map(h).collect();
    assert!(InclusionProof::build(&leaves, 4).is_err());
}

#[test]
fn sth_signature_round_trip() {
    let sk = SigningKey::generate(&mut OsRng);
    let pk_bytes = sk.verifying_key().to_bytes();

    let sth = Sth::new(&sk.to_bytes(), 7, h(0x42), "2026-05-17T10:00:00Z".into()).unwrap();
    sth.verify(&pk_bytes).expect("valid sth verifies");
}

#[test]
fn sth_signature_against_wrong_key_fails() {
    let sk = SigningKey::generate(&mut OsRng);
    let other = SigningKey::generate(&mut OsRng);
    let sth = Sth::new(&sk.to_bytes(), 1, h(0xff), "2026-05-17T10:00:00Z".into()).unwrap();
    assert!(sth.verify(&other.verifying_key().to_bytes()).is_err());
}

#[test]
fn sth_tampering_breaks_signature() {
    let sk = SigningKey::generate(&mut OsRng);
    let pk_bytes = sk.verifying_key().to_bytes();
    let mut sth = Sth::new(&sk.to_bytes(), 3, h(0x10), "2026-05-17T10:00:00Z".into()).unwrap();
    sth.tree_size = 99;
    assert!(sth.verify(&pk_bytes).is_err());
}

// --- additional checks -------------------------------------------------------

#[test]
fn empty_tree_root_is_sha256_of_nothing() {
    let expected: [u8; 32] = Sha256::digest(b"").into();
    assert_eq!(merkle_root(&[]), expected);
}

#[test]
fn leaf_and_node_hashes_use_rfc6962_prefixes() {
    let data = b"chaumstar";
    let mut leaf_input = vec![0u8];
    leaf_input.extend_from_slice(data);
    let expected_leaf: [u8; 32] = Sha256::digest(&leaf_input).into();
    assert_eq!(leaf_hash_bytes(data), expected_leaf);

    let (a, b) = (h(7), h(9));
    let mut node_input = vec![1u8];
    node_input.extend_from_slice(&a);
    node_input.extend_from_slice(&b);
    let expected_node: [u8; 32] = Sha256::digest(&node_input).into();
    assert_eq!(node_hash(&a, &b), expected_node);
}

#[test]
fn merkle_root_five_leaves_splits_at_four() {
    let leaves: Vec<[u8; 32]> = (0..5).map(h).collect();
    let left = node_hash(
        &node_hash(&leaves[0], &leaves[1]),
        &node_hash(&leaves[2], &leaves[3]),
    );
    assert_eq!(merkle_root(&leaves), node_hash(&left, &leaves[4]));
}

#[test]
fn inclusion_proof_paths_have_expected_shape() {
    let leaves: Vec<[u8; 32]> = (0..5).map(h).collect();
    let proof = InclusionProof::build(&leaves, 4).unwrap();
    assert_eq!(proof.tree_size, 5);
    assert_eq!(proof.leaf_index, 4);
    assert_eq!(proof.path.len(), 1);
    let left = merkle_root(&leaves[..4]);
    assert_eq!(proof.path[0].0, left);

    let proof0 = InclusionProof::build(&leaves, 0).unwrap();
    assert_eq!(proof0.path.len(), 3);
    assert_eq!(proof0.path[0].0, leaves[1]);
    assert_eq!(proof0.path[2].0, leaves[4]);
}

#[test]
fn inclusion_proof_with_short_or_long_path_is_malformed() {
    let leaves: Vec<[u8; 32]> = (0..6).map(h).collect();
    let root = merkle_root(&leaves);
    let mut proof = InclusionProof::build(&leaves, 3).unwrap();
    let extra = proof.path[0];
    proof.path.push(extra);
    assert!(matches!(proof.verify(&leaves[3], &root), Err(VerifyError::Malformed(_))));
    proof.path.pop();
    proof.path.pop();
    assert!(matches!(proof.verify(&leaves[3], &root), Err(VerifyError::Malformed(_))));
}

#[test]
fn inclusion_proof_index_out_of_range_is_malformed() {
    let proof = InclusionProof { leaf_index: 3, tree_size: 3, path: vec![] };
    assert!(matches!(proof.verify(&h(0), &h(0)), Err(VerifyError::Malformed(_))));
}

#[test]
fn inclusion_proof_wrong_root_is_proof_invalid() {
    let leaves: Vec<[u8; 32]> = (0..3).map(h).collect();
    let proof = InclusionProof::build(&leaves, 2).unwrap();
    assert!(matches!(proof.verify(&leaves[2], &h(0x55)), Err(VerifyError::ProofInvalid)));
}

#[test]
fn hash_hex_from_wraps_the_hash() {
    assert_eq!(HashHex::from(h(3)).0, h(3));
}

#[test]
fn sth_against_undecodable_key_is_malformed() {
    let sk = SigningKey::generate(&mut OsRng);
    let sth = Sth::new(&sk.to_bytes(), 1, h(1), "t".into()).unwrap();
    // y = 2 is not the y-coordinate of a curve point.
    let mut bad = [0u8; 32];
    bad[0] = 2;
    assert!(matches!(sth.verify(&bad), Err(VerifyError::Malformed(_))));
}

#[test]
fn inclusion_proof_error_texts_name_the_problem() {
    let leaves: Vec<[u8; 32]> = (0..6).map(h).collect();
    let root = merkle_root(&leaves);
    match InclusionProof::build(&leaves, 9) {
        Err(chaumstar_core::Error::InvalidInput(m)) => assert_eq!(m, "leaf_index 9 out of range (tree_size 6)"),
        _ => panic!("expected InvalidInput"),
    }
    let mut proof = InclusionProof::build(&leaves, 3).unwrap();
    let extra = proof.path[0];
    proof.path.push(extra);
    match proof.verify(&leaves[3], &root) {
        Err(VerifyError::Malformed(m)) => assert_eq!(m, "inclusion proof: path longer than expected"),
        other => panic!("unexpected {other:?}"),
    }
    proof.path.pop();
    proof.path.pop();
    match proof.verify(&leaves[3], &root) {
        Err(VerifyError::Malformed(m)) => assert_eq!(m, "inclusion proof: path shorter than expected"),
        other => panic!("unexpected {other:?}"),
    }
    let outside = InclusionProof { leaf_index: 12, tree_size: 3, path: vec![] };
    match outside.verify(&h(0), &h(0)) {
        Err(VerifyError::Malformed(m)) => assert_eq!(m, "inclusion proof: leaf_index 12 >= tree_size 3"),
        other => panic!("unexpected {other:?}"),
    }
}
