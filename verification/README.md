# chaumstar_core

Anonymous, verifiable purchaser reviews. An issuer blind-signs (BBS+) a
holder's committed Ed25519 public key together with the purchase attributes;
the holder later publishes a review signed with the holder key and carrying a
BBS+ presentation proof bound to the canonical review message. A registry
refuses a second review from the same credential and keeps every accepted
review in an RFC 6962 style transparency log with signed tree heads.

Layout:

- `src/` — the library, written and proved with Verus.
  - `flow.rs`: `mint_start`, `mint_finish`, `publish`, `verify_proof_only`, `verify`.
  - `issuer.rs`: key generation and blind signing.
  - `canonical.rs`, `jcs.rs`: the canonical (sorted-key JSON) messages that
    signatures cover.
  - `transparency.rs`: Merkle roots, inclusion proofs, signed tree heads, and
    the proof that inclusion proofs lead back to the root.
  - `store.rs`: the registry's append-only review store.
  - `primitives.rs`, `ed25519.rs`, `bbs.rs`: the calls into `sha2`, `hex`,
    `rand`, `serde_jcs`, `ed25519-dalek` and `zkryptium`, each with the
    contract the library relies on.
- `tests/` — scenarios and concrete checks, run against the real crates.
- `app/` — the HTTP server (axum) and the browser bindings, with the JSON
  wire types.
