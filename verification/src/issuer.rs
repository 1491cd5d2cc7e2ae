//! Issuer (mint authority). Holds the BBS+ secret key for one
//! `(issuer_id, merchant_id)` pair.

use vstd::prelude::*;

use crate::bbs::{
    bbs_blind_sign, bbs_blind_sign_spec, bbs_error_text, bbs_keygen, bbs_keygen_spec, bbs_public_key_decodes_spec,
    bbs_blind_signature_valid_spec, bbs_commitment_spec,
};
use crate::bytes::bytes_to_vec;
use crate::credential::{MintRequest, MintResponse};
use crate::error::Error;
use crate::keyset::{keyset_id_of, KeysetId, PublicKeyset};
use crate::messages::{build_signer_messages, header_bytes, signer_messages, HEADER};
use crate::primitives::random_bytes32;

verus! {

/// A mint authority for one merchant.
pub struct Issuer {
    issuer_id: String,
    merchant_id: String,
    secret_key: [u8; 32],
    public_key: [u8; 96],
    keyset_id: KeysetId,
}

impl Issuer {
    /// The keyset identifier is derived from the public key, and the key pair
    /// is the one that key generation derives from some key material.
    #[verifier::type_invariant]
    spec fn well_formed(self) -> bool {
        &&& self.keyset_id.0@ == keyset_id_of(self.public_key@)
        &&& exists|ikm: Seq<u8>| bbs_keygen_spec(ikm) == (self.secret_key@, self.public_key@)
        &&& bbs_public_key_decodes_spec(self.public_key@)
    }

    /// The issuer identifier.
    pub closed spec fn issuer_id_spec(&self) -> Seq<char> {
        self.issuer_id@
    }

    /// The merchant identifier.
    pub closed spec fn merchant_id_spec(&self) -> Seq<char> {
        self.merchant_id@
    }

    /// The secret key bytes.
    pub closed spec fn secret_key_spec(&self) -> Seq<u8> {
        self.secret_key@
    }

    /// The compressed public key bytes.
    pub closed spec fn public_key_spec(&self) -> Seq<u8> {
        self.public_key@
    }

    /// The keyset identifier.
    pub closed spec fn keyset_id_spec(&self) -> KeysetId {
        self.keyset_id
    }

    /// Generate a fresh random keypair for `(issuer_id, merchant_id)`.
    pub fn generate(issuer_id: &str, merchant_id: &str) -> (issuer: Self)
        ensures
            issuer.issuer_id_spec() == issuer_id@,
            issuer.merchant_id_spec() == merchant_id@,
            issuer.keyset_id_spec().0@ == keyset_id_of(issuer.public_key_spec()),
            issuer.public_key_spec().len() == 96,
            bbs_public_key_decodes_spec(issuer.public_key_spec()),
    {
        let ikm = random_bytes32();
        let (secret_key, public_key) = match bbs_keygen(ikm.as_slice()) {
            Ok(keys) => keys,
            Err(_) => {
                proof {
                    assert(false);
                }
                ([0u8; 32], [0u8; 96])
            },
        };
        let keyset_id = KeysetId::from_pubkey_bytes(public_key.as_slice());
        Issuer {
            issuer_id: issuer_id.to_owned(),
            merchant_id: merchant_id.to_owned(),
            secret_key,
            public_key,
            keyset_id,
        }
    }

    /// The issuer identifier.
    pub fn issuer_id(&self) -> (s: &str)
        ensures
            s@ == self.issuer_id_spec(),
    {
        self.issuer_id.as_str()
    }

    /// The merchant identifier.
    pub fn merchant_id(&self) -> (s: &str)
        ensures
            s@ == self.merchant_id_spec(),
    {
        self.merchant_id.as_str()
    }

    /// The public, transmittable description of this issuer's keyset.
    pub fn public_keyset(&self) -> (ks: PublicKeyset)
        ensures
            ks.issuer_id@ == self.issuer_id_spec(),
            ks.merchant_id@ == self.merchant_id_spec(),
            ks.keyset_id == self.keyset_id_spec(),
            ks.public_key_bytes@ == self.public_key_spec(),
            ks.keyset_id.0@ == keyset_id_of(ks.public_key_bytes@),
            ks.public_key_bytes@.len() == 96,
            bbs_public_key_decodes_spec(ks.public_key_bytes@),
    {
        proof {
            use_type_invariant(self);
        }
        PublicKeyset {
            issuer_id: self.issuer_id.clone(),
            merchant_id: self.merchant_id.clone(),
            keyset_id: self.keyset_id,
            public_key_bytes: bytes_to_vec(self.public_key.as_slice()),
        }
    }

    /// Blind-sign a mint request from a wallet. Checks that the request
    /// targets this issuer, merchant and keyset, then runs BBS+ blind signing
    /// of the request's commitment together with `(merchant_id, issued_at,
    /// purchase_tier, product_category)`.
    pub fn blind_sign(&self, request: &MintRequest) -> (res: Result<MintResponse, Error>)
        ensures
            request.issuer_id@ != self.issuer_id_spec() ==> (res matches Err(Error::InvalidInput(m)) && m@
                == "issuer_id mismatch: expected "@ + self.issuer_id_spec() + ", got "@ + request.issuer_id@),
            request.issuer_id@ == self.issuer_id_spec() && request.merchant_id@ != self.merchant_id_spec()
                ==> (res matches Err(Error::InvalidInput(m)) && m@
                == "merchant_id mismatch: expected "@ + self.merchant_id_spec() + ", got "@ + request.merchant_id@),
            request.issuer_id@ == self.issuer_id_spec() && request.merchant_id@ == self.merchant_id_spec()
                && request.keyset_id.0@ != self.keyset_id_spec().0@
                ==> (res matches Err(Error::InvalidInput(m)) && m@ == "keyset_id mismatch"@),
            request.issuer_id@ == self.issuer_id_spec() && request.merchant_id@ == self.merchant_id_spec()
                && request.keyset_id.0@ == self.keyset_id_spec().0@ ==> match bbs_blind_sign_spec(
                self.secret_key_spec(),
                self.public_key_spec(),
                request.commitment_bytes@,
                header_bytes(),
                signer_messages(request.merchant_id@, request.issued_at@, request.purchase_tier, request.product_category),
            ) {
                Some(sig) => res matches Ok(r) && r.blind_signature_bytes@ == sig && sig.len() == 80,
                None => res matches Err(Error::Bbs(_)),
            },
            res matches Ok(r) ==> forall|bf: Seq<u8>, committed: Seq<Seq<u8>>|
                #[trigger] bbs_commitment_spec(request.commitment_bytes@, bf, committed) ==> bbs_blind_signature_valid_spec(
                    self.public_key_spec(),
                    r.blind_signature_bytes@,
                    header_bytes(),
                    signer_messages(request.merchant_id@, request.issued_at@, request.purchase_tier, request.product_category),
                    committed,
                    bf,
                ),
    {
        if request.issuer_id != self.issuer_id {
            let mut msg = "issuer_id mismatch: expected ".to_owned();
            msg.append(self.issuer_id.as_str());
            msg.append(", got ");
            msg.append(request.issuer_id.as_str());
            return Err(Error::InvalidInput(msg));
        }
        if request.merchant_id != self.merchant_id {
            let mut msg = "merchant_id mismatch: expected ".to_owned();
            msg.append(self.merchant_id.as_str());
            msg.append(", got ");
            msg.append(request.merchant_id.as_str());
            return Err(Error::InvalidInput(msg));
        }
        if !request.keyset_id.same_as(&self.keyset_id) {
            return Err(Error::InvalidInput("keyset_id mismatch".to_owned()));
        }
        let messages = build_signer_messages(
            request.merchant_id.as_str(),
            request.issued_at.as_str(),
            request.purchase_tier,
            request.product_category,
        );
        proof {
            use_type_invariant(self);
        }
        match bbs_blind_sign(
            &self.secret_key,
            &self.public_key,
            request.commitment_bytes.as_slice(),
            HEADER.as_bytes(),
            &messages,
        ) {
            Ok(sig) => Ok(MintResponse { blind_signature_bytes: bytes_to_vec(sig.as_slice()) }),
            Err(e) => Err(Error::Bbs(bbs_error_text(&e))),
        }
    }
}

} // verus!
