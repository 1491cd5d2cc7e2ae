//! The registry's review store: an append-only log of verified payloads, one
//! per nullifier (`hpk`), with RFC 6962 inclusion proofs and signed tree
//! heads over the log's leaf hashes.

use vstd::prelude::*;

use crate::bytes::bytes32_eq;
use crate::canonical::payload_json_spec;
use crate::ed25519::{ed25519_key_decodes_spec, ed25519_public_key, ed25519_public_spec, ed25519_sign_spec, ed25519_verify_spec};
use crate::error::VerifyError;
use crate::flow::{check_result, review_check, verify, verify_inputs_checked, verify_inputs_safe, ReviewCheck};
use crate::keyset::PublicKeyset;
use crate::payload::{same_payload, ReviewPayload};
use crate::primitives::{hex_encode, hex_text, random_bytes32};
use crate::registry::MemoryRegistry;
use crate::canonical::sth_message_spec;
use crate::transparency::{
    hashes_view, lemma_inclusion_round_trip, leaf_hash, leaf_hash_spec, merkle_root, merkle_root_spec,
    path_spec, path_view, root_from_path_spec, sth_signed_by, InclusionProof, Sth,
};

verus! {

/// Why a payload was not inserted.
#[derive(Debug)]
pub enum InsertError {
    /// A payload with the same nullifier is already in the log.
    AlreadyUsed,
    /// The payload did not verify.
    Verify(VerifyError),
    /// Building the log entry failed.
    Internal(String),
}

/// No two payloads carry the same nullifier.
pub open spec fn hpks_distinct(entries: Seq<ReviewPayload>) -> bool {
    forall|i: int, j: int|
        0 <= i < entries.len() && 0 <= j < entries.len() && i != j
            ==> #[trigger] entries[i].credential_proof.hpk != #[trigger] entries[j].credential_proof.hpk
}

/// Leaf hashes of a sequence of payloads.
pub open spec fn log_leaves(entries: Seq<ReviewPayload>) -> Seq<Seq<u8>> {
    entries.map_values(|p: ReviewPayload| leaf_hash_spec(payload_json_spec(p)))
}

/// `proof` is the inclusion proof of entry `idx` of the log over `leaves`.
pub open spec fn proves_entry(proof: InclusionProof, leaves: Seq<Seq<u8>>, idx: int) -> bool {
    &&& proof.leaf_index == idx
    &&& proof.tree_size == leaves.len()
    &&& path_view(proof.path@) == path_spec(leaves, idx as nat)
}

/// `sth` is the tree head over `leaves`, signed with the registry key `sk`.
pub open spec fn heads_log(sth: Sth, leaves: Seq<Seq<u8>>, sk: Seq<u8>) -> bool {
    &&& sth.tree_size == leaves.len()
    &&& sth.root_hash@ == merkle_root_spec(leaves)
    &&& sth.sig@ == ed25519_sign_spec(sk, sth_message_spec(sth.tree_size, sth.root_hash@, sth.timestamp@))
    &&& ed25519_verify_spec(ed25519_public_spec(sk), sth_message_spec(sth.tree_size, sth.root_hash@, sth.timestamp@), sth.sig@)
}

/// Tree heads round-trip: a tree head that the store signed verifies under
/// the store's registry public key, as `registry_public_key` returns it.
pub proof fn law_tree_head_verifies(sth: Sth, leaves: Seq<Seq<u8>>, sk: Seq<u8>, pk: Seq<u8>)
    requires
        heads_log(sth, leaves, sk),
        pk == ed25519_public_spec(sk),
        ed25519_key_decodes_spec(pk),
    ensures
        sth_signed_by(sth, pk),
{
}

/// One insert attempt on the log: an accepted payload is appended, a refused
/// one leaves the log as it was (what `check_and_insert` ensures on `Ok` and
/// on `Err`).
pub open spec fn log_step(before: Seq<ReviewPayload>, after: Seq<ReviewPayload>, payload: ReviewPayload, accepted: bool) -> bool {
    after == if accepted {
        before.push(payload)
    } else {
        before
    }
}

/// The log after a sequence of insert attempts from `start`: the accepted
/// payloads, appended in the order in which they were accepted.
pub open spec fn log_after(start: Seq<ReviewPayload>, attempts: Seq<ReviewPayload>, accepted: Seq<bool>) -> Seq<ReviewPayload>
    decreases attempts.len(),
{
    if attempts.len() == 0 {
        start
    } else {
        let prev = log_after(start, attempts.drop_last(), accepted.drop_last());
        if accepted.last() {
            prev.push(attempts.last())
        } else {
            prev
        }
    }
}

/// Over any sequence of insert attempts, the log (and so what `list`
/// returns) is the earlier log followed by the accepted payloads in the order
/// in which they were accepted.
pub proof fn law_log_keeps_accepted_in_order(
    logs: Seq<Seq<ReviewPayload>>,
    attempts: Seq<ReviewPayload>,
    accepted: Seq<bool>,
)
    requires
        logs.len() == attempts.len() + 1,
        accepted.len() == attempts.len(),
        forall|i: int| 0 <= i < attempts.len() ==> log_step(logs[i], logs[i + 1], #[trigger] attempts[i], accepted[i]),
    ensures
        logs.last() == log_after(logs[0], attempts, accepted),
    decreases attempts.len(),
{
    if attempts.len() > 0 {
        let n = attempts.len() - 1;
        let sub_logs = logs.drop_last();
        assert forall|i: int| 0 <= i < attempts.drop_last().len() implies log_step(
            sub_logs[i],
            sub_logs[i + 1],
            #[trigger] attempts.drop_last()[i],
            accepted.drop_last()[i],
        ) by {
            assert(log_step(logs[i], logs[i + 1], attempts[i], accepted[i]));
        }
        law_log_keeps_accepted_in_order(sub_logs, attempts.drop_last(), accepted.drop_last());
        assert(log_step(logs[n], logs[n + 1], attempts[n], accepted[n]));
    }
}

/// In-memory store of published reviews with a transparency log.
pub struct ReviewStore {
    entries: Vec<ReviewPayload>,
    leaves: Vec<[u8; 32]>,
    registry_key: [u8; 32],
}

impl ReviewStore {
    /// The payloads, in publication order.
    pub closed spec fn entries(&self) -> Seq<ReviewPayload> {
        self.entries@
    }

    /// The registry's Ed25519 secret key.
    pub closed spec fn registry_secret(&self) -> Seq<u8> {
        self.registry_key@
    }

    /// The leaf hashes of the log.
    pub open spec fn leaves(&self) -> Seq<Seq<u8>> {
        log_leaves(self.entries())
    }

    /// Some entry carries the nullifier `hpk`.
    pub open spec fn holds(&self, hpk: [u8; 32]) -> bool {
        exists|i: int| 0 <= i < self.entries().len() && #[trigger] self.entries()[i].credential_proof.hpk == hpk
    }

    /// The stored leaf hashes match the entries, and no two entries carry the
    /// same nullifier.
    pub closed spec fn wf(&self) -> bool {
        &&& hashes_view(self.leaves@) == log_leaves(self.entries@)
        &&& self.leaves@.len() == self.entries@.len()
        &&& hpks_distinct(self.entries@)
    }

    /// A well-formed store holds each nullifier in at most one entry.
    pub proof fn lemma_wf_hpks_distinct(&self)
        requires
            self.wf(),
        ensures
            hpks_distinct(self.entries()),
    {
    }

    /// An empty store with a fresh random registry key.
    pub fn new() -> (store: Self)
        ensures
            store.wf(),
            store.entries() == Seq::<ReviewPayload>::empty(),
    {
        let store = ReviewStore { entries: Vec::new(), leaves: Vec::new(), registry_key: random_bytes32() };
        assert(hashes_view(store.leaves@) =~= log_leaves(store.entries@));
        store
    }

    /// The registry's Ed25519 public key, which signs the tree heads.
    pub fn registry_public_key(&self) -> (pk: [u8; 32])
        ensures
            pk@ == ed25519_public_spec(self.registry_secret()),
            ed25519_key_decodes_spec(pk@),
    {
        ed25519_public_key(&self.registry_key)
    }

    /// The registry's Ed25519 public key as 64 lowercase hex characters.
    pub fn registry_public_key_hex(&self) -> (s: String)
        ensures
            s@ == hex_text(ed25519_public_spec(self.registry_secret())),
    {
        let pk = self.registry_public_key();
        hex_encode(pk.as_slice())
    }

    /// Index of the entry carrying `hpk`, if any.
    fn find(&self, hpk: &[u8; 32]) -> (idx: Option<usize>)
        requires
            self.wf(),
        ensures
            match idx {
                Some(i) => i < self.entries().len() && self.entries()[i as int].credential_proof.hpk == *hpk,
                None => !self.holds(*hpk),
            },
    {
        let n = self.entries.len();
        let mut i: usize = 0;
        while i < n
            invariant
                n == self.entries@.len(),
                i <= n,
                forall|j: int| 0 <= j < i ==> self.entries@[j].credential_proof.hpk != *hpk,
            decreases n - i,
        {
            if bytes32_eq(&self.entries[i].credential_proof.hpk, hpk) {
                assert(self.entries@[i as int].credential_proof.hpk =~= *hpk);
                return Some(i);
            }
            i = i + 1;
        }
        None
    }

    /// The current signed tree head, stamped with `timestamp`.
    pub fn current_sth(&self, timestamp: String) -> (sth: Sth)
        requires
            self.wf(),
        ensures
            heads_log(sth, self.leaves(), self.registry_secret()),
            sth.timestamp@ == timestamp@,
    {
        let root = merkle_root(self.leaves.as_slice());
        match Sth::new(&self.registry_key, self.leaves.len() as u64, root, timestamp) {
            Ok(sth) => sth,
            Err(_) => {
                assert(false);
                Sth { tree_size: 0, root_hash: root, timestamp: String::new(), sig: [0u8; 64] }
            },
        }
    }

    /// The inclusion proof of entry `idx`.
    fn proof_for(&self, idx: usize) -> (proof: InclusionProof)
        requires
            self.wf(),
            idx < self.entries().len(),
        ensures
            proves_entry(proof, self.leaves(), idx as int),
    {
        match InclusionProof::build(self.leaves.as_slice(), idx as u64) {
            Ok(p) => p,
            Err(_) => {
                assert(false);
                InclusionProof { leaf_index: 0, tree_size: 0, path: Vec::new() }
            },
        }
    }

    /// Atomically verify a payload against `keyset` and append it to the log,
    /// returning the stored payload, its inclusion proof and a fresh signed
    /// tree head. A payload whose nullifier is already in the log is refused
    /// before any verification; one whose keyset key or proof the BBS+
    /// decoders cannot take is refused as malformed.
    pub fn check_and_insert(&mut self, payload: ReviewPayload, keyset: &PublicKeyset, timestamp: String)
        -> (res: Result<(ReviewPayload, InclusionProof, Sth), InsertError>)
        requires
            old(self).wf(),
        ensures
            final(self).wf(),
            final(self).registry_secret() == old(self).registry_secret(),
            log_step(old(self).entries(), final(self).entries(), payload, res is Ok),
            old(self).holds(payload.credential_proof.hpk) ==> {
                &&& res matches Err(InsertError::AlreadyUsed)
                &&& final(self).entries() == old(self).entries()
            },
            !old(self).holds(payload.credential_proof.hpk) && !verify_inputs_safe(payload, *keyset) ==> {
                &&& res matches Err(InsertError::Verify(VerifyError::Malformed(t))) && t@ == "undecodable keyset key or proof"@
                &&& final(self).entries() == old(self).entries()
            },
            !old(self).holds(payload.credential_proof.hpk) && verify_inputs_safe(payload, *keyset)
                && review_check(payload, *keyset) !is Accepted ==> {
                &&& res matches Err(InsertError::Verify(e)) && check_result(Err(e), review_check(payload, *keyset))
                &&& final(self).entries() == old(self).entries()
            },
            !old(self).holds(payload.credential_proof.hpk) && verify_inputs_safe(payload, *keyset)
                && review_check(payload, *keyset) is Accepted ==> {
                &&& final(self).entries() == old(self).entries().push(payload)
                &&& final(self).holds(payload.credential_proof.hpk)
                &&& res matches Ok((stored, proof, sth)) && {
                    &&& same_payload(stored, payload)
                    &&& proves_entry(proof, final(self).leaves(), old(self).entries().len() as int)
                    &&& heads_log(sth, final(self).leaves(), final(self).registry_secret())
                    &&& sth.timestamp@ == timestamp@
                    &&& root_from_path_spec(
                        leaf_hash_spec(payload_json_spec(payload)),
                        proof.leaf_index as nat,
                        proof.tree_size as nat,
                        path_view(proof.path@),
                    ) == Some(sth.root_hash@)
                }
            },
    {
        if self.find(&payload.credential_proof.hpk).is_some() {
            return Err(InsertError::AlreadyUsed);
        }
        if !verify_inputs_checked(&payload, keyset) {
            return Err(InsertError::Verify(VerifyError::Malformed("undecodable keyset key or proof".to_owned())));
        }
        let mut throwaway = MemoryRegistry::new();
        match verify(&payload, keyset, &mut throwaway) {
            Err(e) => {
                return Err(InsertError::Verify(e));
            },
            Ok(()) => {},
        }
        let leaf = match leaf_hash(&payload) {
            Ok(h) => h,
            Err(e) => {
                return Err(InsertError::Internal(e.message()));
            },
        };
        let stored = payload.clone();
        let ghost old_entries = self.entries@;
        let ghost old_leaves = self.leaves@;
        let idx = self.entries.len();
        self.entries.push(payload);
        self.leaves.push(leaf);
        proof {
            assert(hashes_view(self.leaves@) =~= hashes_view(old_leaves).push(leaf@));
            assert(log_leaves(self.entries@) =~= log_leaves(old_entries).push(leaf_hash_spec(payload_json_spec(payload))));
            assert forall|i: int, j: int|
                0 <= i < self.entries@.len() && 0 <= j < self.entries@.len() && i != j
                    implies #[trigger] self.entries@[i].credential_proof.hpk != #[trigger] self.entries@[j].credential_proof.hpk by {
                if i == idx as int {
                    assert(old_entries[j] == self.entries@[j]);
                } else if j == idx as int {
                    assert(old_entries[i] == self.entries@[i]);
                } else {
                    assert(old_entries[i] == self.entries@[i]);
                    assert(old_entries[j] == self.entries@[j]);
                }
            }
        }
        let proof = self.proof_for(idx);
        let sth = self.current_sth(timestamp);
        proof {
            let leaves = self.leaves();
            lemma_inclusion_round_trip(leaves, idx as nat);
            assert(leaves[idx as int] == leaf_hash_spec(payload_json_spec(payload)));
            assert(self.entries()[idx as int].credential_proof.hpk == payload.credential_proof.hpk);
        }
        Ok((stored, proof, sth))
    }

    /// All stored payloads, in publication order.
    pub fn list(&self) -> (all: Vec<ReviewPayload>)
        ensures
            all@.len() == self.entries().len(),
            forall|i: int| 0 <= i < all@.len() ==> same_payload(#[trigger] all@[i], self.entries()[i]),
    {
        let n = self.entries.len();
        let mut all: Vec<ReviewPayload> = Vec::new();
        let mut i: usize = 0;
        while i < n
            invariant
                n == self.entries@.len(),
                i <= n,
                all@.len() == i,
                forall|j: int| 0 <= j < i ==> same_payload(#[trigger] all@[j], self.entries@[j]),
            decreases n - i,
        {
            all.push(self.entries[i].clone());
            i = i + 1;
        }
        all
    }

    /// The stored payload carrying the nullifier `hpk`, if any.
    pub fn get(&self, hpk: &[u8; 32]) -> (found: Option<ReviewPayload>)
        requires
            self.wf(),
        ensures
            found is None <==> !self.holds(*hpk),
            found matches Some(p) ==> exists|i: int|
                0 <= i < self.entries().len() && self.entries()[i].credential_proof.hpk == *hpk
                    && same_payload(p, #[trigger] self.entries()[i]),
            found matches Some(p) ==> forall|i: int|
                0 <= i < self.entries().len() && #[trigger] self.entries()[i].credential_proof.hpk == *hpk
                    ==> same_payload(p, self.entries()[i]),
    {
        match self.find(hpk) {
            Some(i) => Some(self.entries[i].clone()),
            None => None,
        }
    }

    /// All stored payloads with their inclusion proofs, and the signed tree
    /// head (stamped with `timestamp`) that every proof leads to.
    pub fn list_with_proofs(&self, timestamp: String) -> (res: (Vec<(ReviewPayload, InclusionProof)>, Sth))
        requires
            self.wf(),
        ensures
            res.0@.len() == self.entries().len(),
            heads_log(res.1, self.leaves(), self.registry_secret()),
            res.1.timestamp@ == timestamp@,
            forall|i: int| 0 <= i < res.0@.len() ==> {
                &&& same_payload((#[trigger] res.0@[i]).0, self.entries()[i])
                &&& proves_entry(res.0@[i].1, self.leaves(), i)
                &&& root_from_path_spec(
                    self.leaves()[i],
                    res.0@[i].1.leaf_index as nat,
                    res.0@[i].1.tree_size as nat,
                    path_view(res.0@[i].1.path@),
                ) == Some(res.1.root_hash@)
            },
    {
        let n = self.entries.len();
        let sth = self.current_sth(timestamp);
        let mut rows: Vec<(ReviewPayload, InclusionProof)> = Vec::new();
        let mut i: usize = 0;
        while i < n
            invariant
                self.wf(),
                n == self.entries@.len(),
                i <= n,
                rows@.len() == i,
                heads_log(sth, self.leaves(), self.registry_secret()),
                forall|j: int| 0 <= j < i ==> {
                    &&& same_payload((#[trigger] rows@[j]).0, self.entries()[j])
                    &&& proves_entry(rows@[j].1, self.leaves(), j)
                    &&& root_from_path_spec(
                        self.leaves()[j],
                        rows@[j].1.leaf_index as nat,
                        rows@[j].1.tree_size as nat,
                        path_view(rows@[j].1.path@),
                    ) == Some(sth.root_hash@)
                },
            decreases n - i,
        {
            let proof = self.proof_for(i);
            proof {
                lemma_inclusion_round_trip(self.leaves(), i as nat);
            }
            rows.push((self.entries[i].clone(), proof));
            i = i + 1;
        }
        (rows, sth)
    }

    /// The stored payload carrying `hpk` with its inclusion proof and the
    /// signed tree head (stamped with `timestamp`) that the proof leads to.
    pub fn get_with_proof(&self, hpk: &[u8; 32], timestamp: String) -> (res: Option<(ReviewPayload, InclusionProof, Sth)>)
        requires
            self.wf(),
        ensures
            res is None <==> !self.holds(*hpk),
            res matches Some((p, proof, sth)) ==> exists|i: int|
                0 <= i < self.entries().len() && self.entries()[i].credential_proof.hpk == *hpk && {
                    &&& same_payload(p, #[trigger] self.entries()[i])
                    &&& proves_entry(proof, self.leaves(), i)
                    &&& heads_log(sth, self.leaves(), self.registry_secret())
                    &&& root_from_path_spec(
                        self.leaves()[i],
                        proof.leaf_index as nat,
                        proof.tree_size as nat,
                        path_view(proof.path@),
                    ) == Some(sth.root_hash@)
                },
            res matches Some((p, proof, sth)) ==> forall|i: int|
                0 <= i < self.entries().len() && #[trigger] self.entries()[i].credential_proof.hpk == *hpk
                    ==> same_payload(p, self.entries()[i]) && proof.leaf_index == i,
    {
        match self.find(hpk) {
            None => None,
            Some(i) => {
                let proof = self.proof_for(i);
                let sth = self.current_sth(timestamp);
                proof {
                    lemma_inclusion_round_trip(self.leaves(), i as nat);
                }
                Some((self.entries[i].clone(), proof, sth))
            },
        }
    }
}

} // verus!
