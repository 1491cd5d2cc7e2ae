//! RFC 6962 (Certificate Transparency) flavoured Merkle log primitives: leaf
//! and node hashes, the root over a sequence of leaves, inclusion proofs and
//! signed tree heads.

use vstd::prelude::*;

use crate::bytes::append_bytes;
use crate::primitives::{sha256, sha256_spec};
use crate::canonical::{payload_canonical_bytes, payload_json_spec, sth_canonical_bytes, sth_message_spec};
use crate::ed25519::{ed25519_key_decodes_spec, ed25519_public_spec, ed25519_sign, ed25519_sign_spec, ed25519_verify, ed25519_verify_spec};
use crate::error::{Error, VerifyError};
use crate::payload::ReviewPayload;

use crate::text::{decimal_string, decimal_text};

verus! {

// ---------------------------------------------------------------------------
// Mathematical model
// ---------------------------------------------------------------------------

/// RFC 6962 leaf hash: SHA-256 over `0x00 || data`.
pub open spec fn leaf_hash_spec(data: Seq<u8>) -> Seq<u8> {
    sha256_spec(seq![0u8] + data)
}

/// RFC 6962 interior node hash: SHA-256 over `0x01 || left || right`.
pub open spec fn node_hash_spec(left: Seq<u8>, right: Seq<u8>) -> Seq<u8> {
    sha256_spec(seq![1u8] + left + right)
}

/// `k` is a power of two.
pub open spec fn is_pow2(k: nat) -> bool
    decreases k,
{
    if k == 1 {
        true
    } else if k >= 2 && k % 2 == 0 {
        is_pow2(k / 2)
    } else {
        false
    }
}

/// Doubles `k` while `2k < n`: starting from 1 this is the largest power of
/// two strictly below `n`.
pub open spec fn double_below(k: nat, n: nat) -> nat
    decreases n - k,
{
    if k >= 1 && k * 2 < n {
        double_below(k * 2, n)
    } else {
        k
    }
}

/// The split point of a tree of `n >= 2` leaves: the largest power of two
/// strictly less than `n`.
pub open spec fn split(n: nat) -> nat {
    double_below(1, n)
}

proof fn lemma_double_below(k: nat, n: nat)
    requires
        k >= 1,
        is_pow2(k),
        k < n,
    ensures
        is_pow2(double_below(k, n)),
        double_below(k, n) < n <= 2 * double_below(k, n),
        k <= double_below(k, n),
    decreases n - k,
{
    if k * 2 < n {
        assert(is_pow2(k * 2)) by {
            assert((k * 2) / 2 == k);
        }
        lemma_double_below(k * 2, n);
    }
}

/// For a tree of at least two leaves the split point is a power of two `k`
/// with `k < n <= 2k`.
pub proof fn lemma_split(n: nat)
    requires
        n >= 2,
    ensures
        is_pow2(split(n)),
        1 <= split(n) < n <= 2 * split(n),
{
    lemma_double_below(1, n);
}

/// Hash views of a slice of 32-byte digests.
pub open spec fn hashes_view(leaves: Seq<[u8; 32]>) -> Seq<Seq<u8>> {
    leaves.map_values(|h: [u8; 32]| h@)
}

/// RFC 6962 §2.1 Merkle tree hash of a sequence of leaf hashes. The empty
/// tree's root is `SHA-256("")`; a single leaf is its own root.
pub open spec fn merkle_root_spec(leaves: Seq<Seq<u8>>) -> Seq<u8>
    decreases leaves.len(),
{
    if leaves.len() == 0 {
        sha256_spec(Seq::empty())
    } else if leaves.len() == 1 {
        leaves[0]
    } else {
        let k = split(leaves.len());
        proof {
            lemma_split(leaves.len());
        }
        node_hash_spec(
            merkle_root_spec(leaves.take(k as int)),
            merkle_root_spec(leaves.skip(k as int)),
        )
    }
}

/// The audit path of leaf `idx` in the tree over `leaves` (RFC 6962 §2.1.1):
/// sibling subtree roots from the leaf level up.
pub open spec fn path_spec(leaves: Seq<Seq<u8>>, idx: nat) -> Seq<Seq<u8>>
    decreases leaves.len(),
{
    if leaves.len() <= 1 {
        Seq::empty()
    } else {
        let k = split(leaves.len());
        proof {
            lemma_split(leaves.len());
        }
        if idx < k {
            path_spec(leaves.take(k as int), idx).push(merkle_root_spec(leaves.skip(k as int)))
        } else {
            path_spec(leaves.skip(k as int), (idx - k) as nat).push(
                merkle_root_spec(leaves.take(k as int)),
            )
        }
    }
}

/// `node(h, sibling)` when a hash is present.
pub open spec fn with_right_sibling(h: Option<Seq<u8>>, sibling: Seq<u8>) -> Option<Seq<u8>> {
    match h {
        Some(h) => Some(node_hash_spec(h, sibling)),
        None => None,
    }
}

/// `node(sibling, h)` when a hash is present.
pub open spec fn with_left_sibling(h: Option<Seq<u8>>, sibling: Seq<u8>) -> Option<Seq<u8>> {
    match h {
        Some(h) => Some(node_hash_spec(sibling, h)),
        None => None,
    }
}

/// The root that an audit path leads to from leaf `leaf` at index `idx` of a
/// tree of `size` leaves; `None` when the index is out of range or the path
/// does not have the length that the tree's shape asks for.
pub open spec fn root_from_path_spec(leaf: Seq<u8>, idx: nat, size: nat, path: Seq<Seq<u8>>) -> Option<Seq<u8>>
    decreases size,
{
    if idx >= size {
        None
    } else if size == 1 {
        if path.len() == 0 {
            Some(leaf)
        } else {
            None
        }
    } else if path.len() == 0 {
        None
    } else {
        let k = split(size);
        proof {
            lemma_split(size);
        }
        if idx < k {
            with_right_sibling(root_from_path_spec(leaf, idx, k, path.drop_last()), path.last())
        } else {
            with_left_sibling(
                root_from_path_spec(leaf, (idx - k) as nat, (size - k) as nat, path.drop_last()),
                path.last(),
            )
        }
    }
}

/// Within a tree of a given size, every audit path that leads to a root from
/// a given index has the same length.
proof fn lemma_path_length_fixed(a: Seq<u8>, b: Seq<u8>, idx: nat, size: nat, p: Seq<Seq<u8>>, q: Seq<Seq<u8>>)
    requires
        root_from_path_spec(a, idx, size, p) is Some,
        root_from_path_spec(b, idx, size, q) is Some,
    ensures
        p.len() == q.len(),
    decreases size,
{
    if size >= 2 {
        let k = split(size);
        lemma_split(size);
        if idx < k {
            lemma_path_length_fixed(a, b, idx, k, p.drop_last(), q.drop_last());
        } else {
            lemma_path_length_fixed(a, b, (idx - k) as nat, (size - k) as nat, p.drop_last(), q.drop_last());
        }
    }
}

/// An audit path one element too long or too short, or of any length other
/// than that of the leaf's true audit path, leads to no root: verification
/// refuses it as malformed.
pub proof fn lemma_wrong_length_path_fails(leaves: Seq<Seq<u8>>, idx: nat, leaf: Seq<u8>, q: Seq<Seq<u8>>)
    requires
        idx < leaves.len(),
        q.len() != path_spec(leaves, idx).len(),
    ensures
        root_from_path_spec(leaf, idx, leaves.len(), q) is None,
{
    lemma_inclusion_round_trip(leaves, idx);
    if root_from_path_spec(leaf, idx, leaves.len(), q) is Some {
        lemma_path_length_fixed(leaves[idx as int], leaf, idx, leaves.len(), path_spec(leaves, idx), q);
    }
}

/// Inclusion proofs round-trip: following the audit path of any leaf of a
/// non-empty tree from that leaf leads to the tree's root.
pub proof fn lemma_inclusion_round_trip(leaves: Seq<Seq<u8>>, idx: nat)
    requires
        idx < leaves.len(),
    ensures
        root_from_path_spec(leaves[idx as int], idx, leaves.len(), path_spec(leaves, idx))
            == Some(merkle_root_spec(leaves)),
    decreases leaves.len(),
{
    if leaves.len() >= 2 {
        let n = leaves.len();
        let k = split(n);
        lemma_split(n);
        if idx < k {
            let sub = leaves.take(k as int);
            lemma_inclusion_round_trip(sub, idx);
            assert(sub[idx as int] == leaves[idx as int]);
            let p = path_spec(leaves, idx);
            assert(p.drop_last() =~= path_spec(sub, idx));
        } else {
            let sub = leaves.skip(k as int);
            lemma_inclusion_round_trip(sub, (idx - k) as nat);
            assert(sub[(idx - k) as int] == leaves[idx as int]);
            let p = path_spec(leaves, idx);
            assert(p.drop_last() =~= path_spec(sub, (idx - k) as nat));
        }
    }
}

/// Shifts `(f, s)` right while `f` is even and non-zero.
pub open spec fn strip(f: nat, s: nat) -> (nat, nat)
    decreases f,
{
    if f % 2 == 1 || f == 0 {
        (f, s)
    } else {
        strip(f / 2, s / 2)
    }
}

/// The RFC 6962 §2.1.1 verification walk: `f` is the node index and `s` the
/// last index at the current level, `h` the hash computed so far, `p` the
/// siblings still to consume.
pub open spec fn walk(f: nat, s: nat, h: Seq<u8>, p: Seq<Seq<u8>>) -> Option<Seq<u8>>
    decreases p.len(),
{
    if s == 0 {
        if p.len() == 0 {
            Some(h)
        } else {
            None
        }
    } else if p.len() == 0 {
        None
    } else if f % 2 == 1 || f == s {
        let st = strip(f, s);
        walk(st.0 / 2, st.1 / 2, node_hash_spec(p[0], h), p.skip(1))
    } else {
        walk(f / 2, s / 2, node_hash_spec(h, p[0]), p.skip(1))
    }
}

/// Stripping trailing zero bits never raises the last index.
pub proof fn lemma_strip_le(f: nat, s: nat)
    ensures
        strip(f, s).1 <= s,
    decreases f,
{
    if !(f % 2 == 1 || f == 0) {
        lemma_strip_le(f / 2, s / 2);
    }
}

/// How many audit-path siblings the verification walk from node `f` with
/// last index `s` consumes.
pub open spec fn walk_steps(f: nat, s: nat) -> nat
    decreases s,
{
    if s == 0 {
        0
    } else if f % 2 == 1 || f == s {
        let st = strip(f, s);
        proof {
            lemma_strip_le(f, s);
        }
        1 + walk_steps(st.0 / 2, st.1 / 2)
    } else {
        1 + walk_steps(f / 2, s / 2)
    }
}

/// The number of siblings on the audit path of leaf `idx` in a tree of
/// `size` leaves.
pub open spec fn audit_path_len(idx: nat, size: nat) -> nat {
    walk_steps(idx, (size - 1) as nat)
}

/// The walk reaches a root exactly when the path has as many siblings as the
/// walk consumes.
proof fn lemma_walk_some_iff_len(f: nat, s: nat, h: Seq<u8>, p: Seq<Seq<u8>>)
    ensures
        walk(f, s, h, p) is Some <==> p.len() == walk_steps(f, s),
    decreases p.len(),
{
    if s != 0 && p.len() != 0 {
        lemma_strip_le(f, s);
        if f % 2 == 1 || f == s {
            let st = strip(f, s);
            lemma_walk_some_iff_len(st.0 / 2, st.1 / 2, node_hash_spec(p[0], h), p.skip(1));
        } else {
            lemma_walk_some_iff_len(f / 2, s / 2, node_hash_spec(h, p[0]), p.skip(1));
        }
    }
}

/// For a leaf index inside the tree, following an audit path leads to a root
/// exactly when the path has the audit path's length.
pub proof fn lemma_path_some_iff_len(leaf: Seq<u8>, idx: nat, size: nat, path: Seq<Seq<u8>>)
    requires
        idx < size,
    ensures
        root_from_path_spec(leaf, idx, size, path) is Some <==> path.len() == audit_path_len(idx, size),
{
    lemma_walk_is_root_from_path(leaf, idx, size, path);
    lemma_walk_some_iff_len(idx, (size - 1) as nat, leaf, path);
}

proof fn lemma_strip_pow2(t: nat)
    requires
        is_pow2(t),
    ensures
        strip(t, t) == (1nat, 1nat),
    decreases t,
{
    if t != 1 {
        lemma_strip_pow2(t / 2);
    }
}

/// Scale of the top bit after stripping the trailing zeros of `f`.
spec fn strip_scale(f: nat, t: nat) -> nat
    decreases f,
{
    if f % 2 == 1 || f == 0 {
        t
    } else {
        strip_scale(f / 2, t / 2)
    }
}

proof fn lemma_pow2_even(t: nat)
    requires
        is_pow2(t),
        t >= 2,
    ensures
        t % 2 == 0,
        is_pow2(t / 2),
{
}

proof fn lemma_strip_with_top(f: nat, g: nat, t: nat)
    requires
        is_pow2(t),
        0 < f < t,
        g < t,
    ensures
        strip(f + t, g + t) == (strip(f, g).0 + strip_scale(f, t), strip(f, g).1 + strip_scale(f, t)),
        is_pow2(strip_scale(f, t)),
        strip_scale(f, t) >= 2,
        strip(f, g).0 < strip_scale(f, t),
        strip(f, g).1 < strip_scale(f, t),
        strip(f, g).0 % 2 == 1,
        strip(f, g).0 <= f,
        strip(f, g).1 <= g,
        f == g ==> strip(f, g).0 == strip(f, g).1,
    decreases f,
{
    lemma_pow2_even(t);
    if f % 2 == 0 {
        assert((f + t) / 2 == f / 2 + t / 2);
        assert((g + t) / 2 == g / 2 + t / 2);
        lemma_strip_with_top(f / 2, g / 2, t / 2);
    }
}

/// Walking the left (perfect) subtree of size `t` inside a larger tree.
proof fn lemma_walk_left(f: nat, big_s: nat, t: nat, h: Seq<u8>, p: Seq<Seq<u8>>, x: Seq<u8>)
    requires
        is_pow2(t),
        f < t,
        t <= big_s < 2 * t,
    ensures
        walk(f, big_s, h, p.push(x)) == with_right_sibling(walk(f, (t - 1) as nat, h, p), x),
    decreases t,
{
    let q = p.push(x);
    if t == 1 {
        assert(f == 0 && big_s == 1);
        if p.len() == 0 {
            assert(q[0] == x);
            assert(q.skip(1) =~= Seq::<Seq<u8>>::empty());
            assert(walk(0, 0, node_hash_spec(h, x), q.skip(1)) == Some(node_hash_spec(h, x)));
        } else {
            assert(q[0] == p[0]);
            assert(q.skip(1).len() > 0);
            assert(walk(0, 0, node_hash_spec(h, p[0]), q.skip(1)) is None);
        }
    } else {
        lemma_pow2_even(t);
        assert(((t - 1) as nat) / 2 == (t / 2 - 1) as nat);
        assert(walk(f, (t - 1) as nat, h, p) is None ==> with_right_sibling(
            walk(f, (t - 1) as nat, h, p),
            x,
        ) is None);
        if p.len() == 0 {
            assert(q[0] == x);
            assert(q.skip(1) =~= Seq::<Seq<u8>>::empty());
            if f % 2 == 1 {
                assert(strip(f, big_s) == (f, big_s));
                assert(walk(f / 2, big_s / 2, node_hash_spec(x, h), q.skip(1)) is None);
            } else {
                assert(walk(f / 2, big_s / 2, node_hash_spec(h, x), q.skip(1)) is None);
            }
        } else {
            assert(q[0] == p[0]);
            assert(q.skip(1) =~= p.skip(1).push(x));
            if f % 2 == 1 {
                assert(strip(f, big_s) == (f, big_s));
                assert(strip(f, (t - 1) as nat) == (f, (t - 1) as nat));
                lemma_walk_left(f / 2, big_s / 2, t / 2, node_hash_spec(p[0], h), p.skip(1), x);
                assert(walk(f, big_s, h, q) == walk(f / 2, big_s / 2, node_hash_spec(p[0], h), q.skip(1)));
                assert(walk(f, (t - 1) as nat, h, p) == walk(f / 2, (t / 2 - 1) as nat, node_hash_spec(p[0], h), p.skip(1)));
            } else {
                assert(f != big_s);
                assert(f != (t - 1) as nat);
                lemma_walk_left(f / 2, big_s / 2, t / 2, node_hash_spec(h, p[0]), p.skip(1), x);
                assert(walk(f, big_s, h, q) == walk(f / 2, big_s / 2, node_hash_spec(h, p[0]), q.skip(1)));
                assert(walk(f, (t - 1) as nat, h, p) == walk(f / 2, (t / 2 - 1) as nat, node_hash_spec(h, p[0]), p.skip(1)));
            }
        }
    }
}

/// Walking the right subtree of a tree whose left part has `t` leaves.
proof fn lemma_walk_right(f: nat, s: nat, t: nat, h: Seq<u8>, p: Seq<Seq<u8>>, x: Seq<u8>)
    requires
        is_pow2(t),
        f <= s < t,
    ensures
        walk(f + t, s + t, h, p.push(x)) == with_left_sibling(walk(f, s, h, p), x),
    decreases s,
{
    let q = p.push(x);
    if s == 0 {
        lemma_strip_pow2(t);
        assert(f == 0);
        assert(strip(f + t, s + t) == (1nat, 1nat));
        assert(walk(f, s, h, p) == if p.len() == 0 { Some(h) } else { None::<Seq<u8>> });
        if p.len() == 0 {
            assert(q[0] == x);
            assert(q.skip(1) =~= Seq::<Seq<u8>>::empty());
            assert(walk(0, 0, node_hash_spec(x, h), q.skip(1)) == Some(node_hash_spec(x, h)));
        } else {
            assert(q[0] == p[0]);
            assert(q.skip(1).len() > 0);
            assert(walk(0, 0, node_hash_spec(p[0], h), q.skip(1)) is None);
        }
    } else {
        lemma_pow2_even(t);
        assert(walk(f, s, h, p) is None ==> with_left_sibling(walk(f, s, h, p), x) is None);
        if p.len() == 0 {
            assert(q[0] == x);
            assert(q.skip(1) =~= Seq::<Seq<u8>>::empty());
            if f % 2 == 1 {
                assert((f + t) % 2 == 1);
                assert(strip(f + t, s + t) == (f + t, s + t));
                assert(walk((f + t) / 2, (s + t) / 2, node_hash_spec(x, h), q.skip(1)) is None);
            } else if f == s {
                lemma_strip_with_top(f, s, t);
                let st = strip(f + t, s + t);
                assert(st.1 / 2 >= 1);
                assert(walk(st.0 / 2, st.1 / 2, node_hash_spec(x, h), q.skip(1)) is None);
            } else {
                assert(walk((f + t) / 2, (s + t) / 2, node_hash_spec(h, x), q.skip(1)) is None);
            }
        } else {
            assert(q[0] == p[0]);
            assert(q.skip(1) =~= p.skip(1).push(x));
            if f % 2 == 1 {
                assert((f + t) % 2 == 1);
                assert(strip(f + t, s + t) == (f + t, s + t));
                assert(strip(f, s) == (f, s));
                assert((f + t) / 2 == f / 2 + t / 2);
                assert((s + t) / 2 == s / 2 + t / 2);
                lemma_walk_right(f / 2, s / 2, t / 2, node_hash_spec(p[0], h), p.skip(1), x);
                assert(walk(f + t, s + t, h, q) == walk(f / 2 + t / 2, s / 2 + t / 2, node_hash_spec(p[0], h), q.skip(1)));
                assert(walk(f, s, h, p) == walk(f / 2, s / 2, node_hash_spec(p[0], h), p.skip(1)));
            } else if f == s {
                lemma_strip_with_top(f, s, t);
                let st = strip(f, s);
                let sc = strip_scale(f, t);
                lemma_pow2_even(sc);
                assert((st.0 + sc) / 2 == st.0 / 2 + sc / 2);
                assert((st.1 + sc) / 2 == st.1 / 2 + sc / 2);
                lemma_walk_right(st.0 / 2, st.1 / 2, sc / 2, node_hash_spec(p[0], h), p.skip(1), x);
                assert(walk(f + t, s + t, h, q) == walk(st.0 / 2 + sc / 2, st.1 / 2 + sc / 2, node_hash_spec(p[0], h), q.skip(1)));
                assert(walk(f, s, h, p) == walk(st.0 / 2, st.1 / 2, node_hash_spec(p[0], h), p.skip(1)));
            } else {
                assert((f + t) % 2 == 0);
                assert(f + t != s + t);
                assert((f + t) / 2 == f / 2 + t / 2);
                assert((s + t) / 2 == s / 2 + t / 2);
                lemma_walk_right(f / 2, s / 2, t / 2, node_hash_spec(h, p[0]), p.skip(1), x);
                assert(walk(f + t, s + t, h, q) == walk(f / 2 + t / 2, s / 2 + t / 2, node_hash_spec(h, p[0]), q.skip(1)));
                assert(walk(f, s, h, p) == walk(f / 2, s / 2, node_hash_spec(h, p[0]), p.skip(1)));
            }
        }
    }
}

/// The RFC 6962 verification walk computes exactly the root that the audit
/// path leads to.
proof fn lemma_walk_is_root_from_path(leaf: Seq<u8>, idx: nat, size: nat, path: Seq<Seq<u8>>)
    requires
        idx < size,
    ensures
        walk(idx, (size - 1) as nat, leaf, path) == root_from_path_spec(leaf, idx, size, path),
    decreases size,
{
    if size >= 2 && path.len() > 0 {
        let k = split(size);
        lemma_split(size);
        let p = path.drop_last();
        let x = path.last();
        assert(path =~= p.push(x));
        if idx < k {
            lemma_walk_left(idx, (size - 1) as nat, k, leaf, p, x);
            lemma_walk_is_root_from_path(leaf, idx, k, p);
        } else {
            lemma_walk_right((idx - k) as nat, (size - 1 - k) as nat, k, leaf, p, x);
            lemma_walk_is_root_from_path(leaf, (idx - k) as nat, (size - k) as nat, p);
            assert((idx - k) as nat + k == idx);
        }
    }
}

// ---------------------------------------------------------------------------
// Executable primitives
// ---------------------------------------------------------------------------

/// Lower-level leaf hash for callers that already have canonical bytes.
pub fn leaf_hash_bytes(canonical_payload: &[u8]) -> (hash: [u8; 32])
    ensures
        hash@ == leaf_hash_spec(canonical_payload@),
{
    let mut buf: Vec<u8> = Vec::new();
    buf.push(0u8);
    append_bytes(&mut buf, canonical_payload);
    sha256(buf.as_slice())
}

/// RFC 6962 §2.1 internal node hash.
pub fn node_hash(left: &[u8; 32], right: &[u8; 32]) -> (hash: [u8; 32])
    ensures
        hash@ == node_hash_spec(left@, right@),
{
    let mut buf: Vec<u8> = Vec::new();
    buf.push(1u8);
    append_bytes(&mut buf, left.as_slice());
    append_bytes(&mut buf, right.as_slice());
    assert(buf@ == seq![1u8] + left@ + right@);
    sha256(buf.as_slice())
}

/// Largest power of two strictly less than `n` (`n >= 2`), per RFC 6962 §2.1.
fn largest_power_of_two_lt(n: usize) -> (k: usize)
    requires
        n >= 2,
    ensures
        k == split(n as nat),
        is_pow2(k as nat),
        1 <= k < n <= 2 * k,
{
    proof {
        lemma_split(n as nat);
    }
    let mut k: usize = 1;
    while k <= (n - 1) / 2
        invariant
            1 <= k < n,
            double_below(k as nat, n as nat) == split(n as nat),
        decreases n - k,
    {
        k = k * 2;
    }
    k
}

/// Merkle root of `leaves[lo..hi]`.
fn merkle_root_range(leaves: &[[u8; 32]], lo: usize, hi: usize) -> (root: [u8; 32])
    requires
        lo < hi <= leaves@.len(),
    ensures
        root@ == merkle_root_spec(hashes_view(leaves@).subrange(lo as int, hi as int)),
    decreases hi - lo,
{
    let ghost s = hashes_view(leaves@).subrange(lo as int, hi as int);
    let n = hi - lo;
    if n == 1 {
        assert(s[0] == leaves@[lo as int]@);
        return leaves[lo];
    }
    let k = largest_power_of_two_lt(n);
    let left = merkle_root_range(leaves, lo, lo + k);
    let right = merkle_root_range(leaves, lo + k, hi);
    assert(s.take(k as int) =~= hashes_view(leaves@).subrange(lo as int, (lo + k) as int));
    assert(s.skip(k as int) =~= hashes_view(leaves@).subrange((lo + k) as int, hi as int));
    node_hash(&left, &right)
}

/// Compute the Merkle tree root over a sequence of leaf hashes
/// (RFC 6962 §2.1). The empty tree's root is `SHA-256("")`.
pub fn merkle_root(leaves: &[[u8; 32]]) -> (root: [u8; 32])
    ensures
        root@ == merkle_root_spec(hashes_view(leaves@)),
{
    if leaves.len() == 0 {
        let empty: Vec<u8> = Vec::new();
        assert(empty@ =~= Seq::<u8>::empty());
        return sha256(empty.as_slice());
    }
    assert(hashes_view(leaves@).subrange(0, leaves@.len() as int) =~= hashes_view(leaves@));
    merkle_root_range(leaves, 0, leaves.len())
}

} // verus!

verus! {

// ---------------------------------------------------------------------------
// Inclusion proofs
// ---------------------------------------------------------------------------

/// Wrapper so that audit paths hold plain 32-byte hashes.
#[derive(Debug, Clone, Copy)]
pub struct HashHex(pub [u8; 32]);

impl From<[u8; 32]> for HashHex {
    fn from(h: [u8; 32]) -> (w: Self) {
        HashHex(h)
    }
}

impl vstd::std_specs::convert::FromSpecImpl<[u8; 32]> for HashHex {
    open spec fn obeys_from_spec() -> bool {
        true
    }

    open spec fn from_spec(h: [u8; 32]) -> Self {
        HashHex(h)
    }
}

/// Hash views of an audit path.
pub open spec fn path_view(path: Seq<HashHex>) -> Seq<Seq<u8>> {
    path.map_values(|h: HashHex| h.0@)
}

/// Inclusion proof for a single leaf (RFC 6962 §2.1.1). `path` lists the
/// sibling hashes from the leaf level up; `tree_size` tells the verifier how to
/// walk the structure (since trees can be unbalanced).
#[derive(Debug, Clone)]
pub struct InclusionProof {
    pub leaf_index: u64,
    pub tree_size: u64,
    pub path: Vec<HashHex>,
}

/// Why an audit path could not be followed.
enum PathError {
    IndexOutOfRange,
    PathTooShort,
    PathTooLong,
}

proof fn lemma_u64_bits(x: u64)
    ensures
        (x & 1 == 1) == (x % 2 == 1),
        (x & 1 == 0) == (x % 2 == 0),
        x >> 1 == x / 2,
{
    assert((x & 1 == 1) == (x % 2 == 1)) by (bit_vector);
    assert((x & 1 == 0) == (x % 2 == 0)) by (bit_vector);
    assert(x >> 1 == x / 2) by (bit_vector);
}

/// Audit path of leaf `lo + idx` inside the subtree over `leaves[lo..hi]`.
fn path_for_range(leaves: &[[u8; 32]], lo: usize, hi: usize, idx: usize) -> (path: Vec<[u8; 32]>)
    requires
        lo < hi <= leaves@.len(),
        idx < hi - lo,
    ensures
        hashes_view(path@) == path_spec(hashes_view(leaves@).subrange(lo as int, hi as int), idx as nat),
    decreases hi - lo,
{
    let ghost s = hashes_view(leaves@).subrange(lo as int, hi as int);
    let n = hi - lo;
    if n == 1 {
        let empty: Vec<[u8; 32]> = Vec::new();
        assert(hashes_view(empty@) =~= Seq::<Seq<u8>>::empty());
        return empty;
    }
    let k = largest_power_of_two_lt(n);
    assert(s.take(k as int) =~= hashes_view(leaves@).subrange(lo as int, (lo + k) as int));
    assert(s.skip(k as int) =~= hashes_view(leaves@).subrange((lo + k) as int, hi as int));
    let mut out;
    let sibling;
    if idx < k {
        out = path_for_range(leaves, lo, lo + k, idx);
        sibling = merkle_root_range(leaves, lo + k, hi);
    } else {
        out = path_for_range(leaves, lo + k, hi, idx - k);
        sibling = merkle_root_range(leaves, lo, lo + k);
    }
    let ghost before = out@;
    out.push(sibling);
    assert(hashes_view(out@) =~= hashes_view(before).push(sibling@));
    out
}

/// Audit path of leaf `idx` in the tree over `leaves` (`idx < leaves.len()`).
fn path_for(leaves: &[[u8; 32]], idx: usize) -> (path: Vec<[u8; 32]>)
    requires
        idx < leaves@.len(),
    ensures
        hashes_view(path@) == path_spec(hashes_view(leaves@), idx as nat),
{
    assert(hashes_view(leaves@).subrange(0, leaves@.len() as int) =~= hashes_view(leaves@));
    path_for_range(leaves, 0, leaves.len(), idx)
}

/// Follows an audit path from `leaf` (RFC 6962 §2.1.1 path reconstruction).
fn compute_root_from_path(leaf: &[u8; 32], leaf_index: u64, tree_size: u64, path: &[[u8; 32]]) -> (res: Result<[u8; 32], PathError>)
    ensures
        match res {
            Ok(h) => root_from_path_spec(leaf@, leaf_index as nat, tree_size as nat, hashes_view(path@)) == Some(h@),
            Err(_) => root_from_path_spec(leaf@, leaf_index as nat, tree_size as nat, hashes_view(path@)) is None,
        },
        res matches Err(PathError::IndexOutOfRange) <==> leaf_index >= tree_size,
        res matches Err(PathError::PathTooShort) ==> path@.len() < audit_path_len(leaf_index as nat, tree_size as nat),
        res matches Err(PathError::PathTooLong) ==> path@.len() > audit_path_len(leaf_index as nat, tree_size as nat),
{
    let ghost hp = hashes_view(path@);
    if leaf_index >= tree_size {
        return Err(PathError::IndexOutOfRange);
    }
    proof {
        lemma_walk_is_root_from_path(leaf@, leaf_index as nat, tree_size as nat, hp);
    }
    let mut fn_idx: u64 = leaf_index;
    let mut sn: u64 = tree_size - 1;
    let mut hash: [u8; 32] = *leaf;
    let mut j: usize = 0;
    assert(hp.skip(0) =~= hp);
    while sn != 0
        invariant
            j <= path@.len(),
            hp == hashes_view(path@),
            walk(fn_idx as nat, sn as nat, hash@, hp.skip(j as int))
                == walk(leaf_index as nat, (tree_size - 1) as nat, leaf@, hp),
            walk(leaf_index as nat, (tree_size - 1) as nat, leaf@, hp)
                == root_from_path_spec(leaf@, leaf_index as nat, tree_size as nat, hp),
            j + walk_steps(fn_idx as nat, sn as nat) == audit_path_len(leaf_index as nat, tree_size as nat),
            leaf_index < tree_size,
        decreases path@.len() - j,
    {
        if j >= path.len() {
            return Err(PathError::PathTooShort);
        }
        let sibling = path[j];
        let ghost rest = hp.skip(j as int);
        assert(rest[0] == sibling@);
        assert(rest.skip(1) =~= hp.skip(j + 1));
        j = j + 1;
        proof {
            lemma_u64_bits(fn_idx);
        }
        proof {
            lemma_strip_le(fn_idx as nat, sn as nat);
        }
        if fn_idx & 1 == 1 || fn_idx == sn {
            hash = node_hash(&sibling, &hash);
            let ghost st = strip(fn_idx as nat, sn as nat);
            if fn_idx & 1 == 0 {
                while fn_idx & 1 == 0
                    invariant
                        fn_idx != 0,
                        strip(fn_idx as nat, sn as nat) == st,
                    decreases fn_idx,
                {
                    proof {
                        lemma_u64_bits(fn_idx);
                        lemma_u64_bits(sn);
                    }
                    fn_idx = fn_idx >> 1;
                    sn = sn >> 1;
                }
                proof {
                    lemma_u64_bits(fn_idx);
                }
            }
            assert(strip(fn_idx as nat, sn as nat) == (fn_idx as nat, sn as nat));
            assert(st == (fn_idx as nat, sn as nat));
        } else {
            hash = node_hash(&hash, &sibling);
        }
        proof {
            lemma_u64_bits(fn_idx);
            lemma_u64_bits(sn);
        }
        fn_idx = fn_idx >> 1;
        sn = sn >> 1;
    }
    if j < path.len() {
        return Err(PathError::PathTooLong);
    }
    assert(hp.skip(j as int) =~= Seq::<Seq<u8>>::empty());
    Ok(hash)
}

impl InclusionProof {
    /// Generate an inclusion proof for `leaf_index` against `leaves`.
    pub fn build(leaves: &[[u8; 32]], leaf_index: u64) -> (res: Result<Self, Error>)
        ensures
            match res {
                Ok(proof) => {
                    &&& leaf_index < leaves@.len()
                    &&& proof.leaf_index == leaf_index
                    &&& proof.tree_size == leaves@.len()
                    &&& path_view(proof.path@) == path_spec(hashes_view(leaves@), leaf_index as nat)
                },
                Err(e) => leaf_index >= leaves@.len() && (e matches Error::InvalidInput(m) && m@ == "leaf_index "@
                    + decimal_text(leaf_index as nat) + " out of range (tree_size "@ + decimal_text(leaves@.len())
                    + ")"@),
            },
    {
        let n = leaves.len();
        if leaf_index >= n as u64 {
            let mut m = "leaf_index ".to_owned();
            m.append(decimal_string(leaf_index).as_str());
            m.append(" out of range (tree_size ");
            m.append(decimal_string(n as u64).as_str());
            m.append(")");
            return Err(Error::InvalidInput(m));
        }
        let idx = leaf_index as usize;
        let raw = path_for(leaves, idx);
        let mut path: Vec<HashHex> = Vec::new();
        let mut i: usize = 0;
        while i < raw.len()
            invariant
                i <= raw@.len(),
                path_view(path@) == hashes_view(raw@).take(i as int),
            decreases raw@.len() - i,
        {
            let ghost before = path@;
            path.push(HashHex(raw[i]));
            assert(path@ == before.push(HashHex(raw@[i as int])));
            i = i + 1;
            assert(hashes_view(raw@).take(i as int) =~= hashes_view(raw@).take(i - 1).push(raw@[i - 1]@));
            assert(path_view(path@) =~= hashes_view(raw@).take(i as int));
        }
        assert(hashes_view(raw@).take(raw@.len() as int) =~= hashes_view(raw@));
        Ok(InclusionProof { leaf_index, tree_size: n as u64, path })
    }

    /// Verify that `leaf` is included in a Merkle tree whose root is `root`.
    pub fn verify(&self, leaf: &[u8; 32], root: &[u8; 32]) -> (res: Result<(), VerifyError>)
        ensures
            match root_from_path_spec(leaf@, self.leaf_index as nat, self.tree_size as nat, path_view(self.path@)) {
                None => res matches Err(VerifyError::Malformed(_)),
                Some(r) => if r == root@ { res is Ok } else { res matches Err(VerifyError::ProofInvalid) },
            },
            self.leaf_index >= self.tree_size ==> (res matches Err(VerifyError::Malformed(m)) && m@
                == "inclusion proof: leaf_index "@ + decimal_text(self.leaf_index as nat) + " >= tree_size "@
                + decimal_text(self.tree_size as nat)),
            self.leaf_index < self.tree_size && self.path@.len() < audit_path_len(self.leaf_index as nat, self.tree_size as nat)
                ==> (res matches Err(VerifyError::Malformed(m)) && m@ == "inclusion proof: path shorter than expected"@),
            self.leaf_index < self.tree_size && self.path@.len() > audit_path_len(self.leaf_index as nat, self.tree_size as nat)
                ==> (res matches Err(VerifyError::Malformed(m)) && m@ == "inclusion proof: path longer than expected"@),
    {
        let mut raw: Vec<[u8; 32]> = Vec::new();
        let mut i: usize = 0;
        while i < self.path.len()
            invariant
                i <= self.path@.len(),
                hashes_view(raw@) == path_view(self.path@).take(i as int),
            decreases self.path@.len() - i,
        {
            let ghost before = raw@;
            raw.push(self.path[i].0);
            assert(raw@ == before.push(self.path@[i as int].0));
            i = i + 1;
            assert(path_view(self.path@).take(i as int) =~= path_view(self.path@).take(i - 1).push(self.path@[i - 1].0@));
            assert(hashes_view(raw@) =~= path_view(self.path@).take(i as int));
        }
        assert(path_view(self.path@).take(self.path@.len() as int) =~= path_view(self.path@));
        assert(hashes_view(raw@).len() == raw@.len());
        assert(path_view(self.path@).len() == self.path@.len());
        assert(raw@.len() == self.path@.len());
        match compute_root_from_path(leaf, self.leaf_index, self.tree_size, raw.as_slice()) {
            Err(e) => {
                proof {
                    if self.leaf_index < self.tree_size {
                        lemma_path_some_iff_len(leaf@, self.leaf_index as nat, self.tree_size as nat, path_view(self.path@));
                    }
                }
                let msg = match e {
                    PathError::IndexOutOfRange => {
                        let mut msg = "inclusion proof: leaf_index ".to_owned();
                        msg.append(decimal_string(self.leaf_index).as_str());
                        msg.append(" >= tree_size ");
                        msg.append(decimal_string(self.tree_size).as_str());
                        msg
                    },
                    PathError::PathTooShort => "inclusion proof: path shorter than expected".to_owned(),
                    PathError::PathTooLong => "inclusion proof: path longer than expected".to_owned(),
                };
                Err(VerifyError::Malformed(msg))
            },
            Ok(recomputed) => {
                proof {
                    if self.leaf_index < self.tree_size {
                        lemma_path_some_iff_len(leaf@, self.leaf_index as nat, self.tree_size as nat, path_view(self.path@));
                    }
                }
                if crate::bytes::bytes32_eq(&recomputed, root) {
                    Ok(())
                } else {
                    Err(VerifyError::ProofInvalid)
                }
            },
        }
    }
}

} // verus!

verus! {

// ---------------------------------------------------------------------------
// Leaf hash of a payload, signed tree heads
// ---------------------------------------------------------------------------

/// SHA-256 digest of a log leaf: RFC 6962 leaf hash (0x00 prefix) of the
/// payload's canonical JSON text.
pub fn leaf_hash(payload: &ReviewPayload) -> (res: Result<[u8; 32], Error>)
    ensures
        res matches Ok(h) && h@ == leaf_hash_spec(payload_json_spec(*payload)),
{
    let bytes = payload_canonical_bytes(payload);
    Ok(leaf_hash_bytes(bytes.as_slice()))
}

/// `sth` carries a valid signature under the registry public key `pk` over its
/// canonical message, and `pk` decodes.
pub open spec fn sth_signed_by(sth: Sth, pk: Seq<u8>) -> bool {
    &&& ed25519_key_decodes_spec(pk)
    &&& ed25519_verify_spec(pk, sth_message_spec(sth.tree_size, sth.root_hash@, sth.timestamp@), sth.sig@)
}

/// Signed Tree Head — the registry's commitment to its log at a point in time.
#[derive(Debug, Clone)]
pub struct Sth {
    pub tree_size: u64,
    pub root_hash: [u8; 32],
    pub timestamp: String,
    pub sig: [u8; 64],
}

impl Sth {
    /// Construct and sign a fresh STH with the registry's Ed25519 secret key.
    pub fn new(sk: &[u8; 32], tree_size: u64, root_hash: [u8; 32], timestamp: String) -> (res: Result<Self, Error>)
        ensures
            res matches Ok(sth) && {
                &&& sth.tree_size == tree_size
                &&& sth.root_hash == root_hash
                &&& sth.timestamp@ == timestamp@
                &&& sth.sig@ == ed25519_sign_spec(sk@, sth_message_spec(tree_size, root_hash@, timestamp@))
                &&& ed25519_verify_spec(
                    ed25519_public_spec(sk@),
                    sth_message_spec(tree_size, root_hash@, timestamp@),
                    sth.sig@,
                )
            },
    {
        let msg = sth_canonical_bytes(tree_size, &root_hash, timestamp.as_str());
        let sig = ed25519_sign(sk, msg.as_slice());
        Ok(Sth { tree_size, root_hash, timestamp, sig })
    }

    /// Verify the STH against the registry public key.
    pub fn verify(&self, registry_pk: &[u8; 32]) -> (res: Result<(), VerifyError>)
        ensures
            !ed25519_key_decodes_spec(registry_pk@) ==> res matches Err(VerifyError::Malformed(_)),
            ed25519_key_decodes_spec(registry_pk@) ==> (if sth_signed_by(*self, registry_pk@) {
                res is Ok
            } else {
                res matches Err(VerifyError::HolderSignatureInvalid)
            }),
    {
        let msg = sth_canonical_bytes(self.tree_size, &self.root_hash, self.timestamp.as_str());
        match ed25519_verify(registry_pk, msg.as_slice(), &self.sig) {
            None => Err(VerifyError::Malformed("registry pubkey invalid".to_owned())),
            Some(true) => Ok(()),
            Some(false) => Err(VerifyError::HolderSignatureInvalid),
        }
    }
}

} // verus!
