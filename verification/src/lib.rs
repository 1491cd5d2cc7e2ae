//! Core protocol logic for anonymous, verifiable purchaser reviews: credential
//! flows, canonical message encoding, a nullifier registry, a review store and
//! an RFC 6962 style transparency log.

mod attrs;
mod bbs;
mod bytes;
mod canonical;
mod credential;
mod ed25519;
mod error;
mod flow;
mod issuer;
mod jcs;
mod keyset;
mod messages;
mod payload;
mod primitives;
mod registry;
mod store;
mod text;
pub mod transparency;

use vstd::prelude::*;

verus! {

/// Wire-format version string carried by every payload and signed message.
pub const PROTOCOL_VERSION: &'static str = "chaumstar/0.4";

} // verus!

pub use canonical::{canonical_message, payload_canonical_bytes, sth_canonical_bytes};
pub use error::{Error, VerifyError};
pub use attrs::{DisclosureMask, MintContext, ProductCategory, PurchaseTier};
pub use credential::{Credential, MintRequest, MintResponse, MintState};
pub use keyset::{parse_hpk_hex, parse_keyset_id_hex, HexIdError, KeysetId, PublicKeyset};
pub use payload::{CredentialProof, ReviewBody, ReviewPayload};
pub use registry::{MemoryRegistry, Registry};
pub use issuer::Issuer;
pub use flow::{
    mint_finish, mint_start, proof_shape_safe, publish, verify, verify_holder_signature, verify_checked, verify_inputs_checked,
    verify_proof_only,
};
pub use store::{InsertError, ReviewStore};
pub use transparency::{leaf_hash, leaf_hash_bytes, HashHex, InclusionProof, Sth};
