//! Issuer keyset types.

use vstd::prelude::*;

use crate::bytes::bytes_to_vec;
use crate::primitives::{hex_decode, hex_decoded, hex_encode, hex_text, hex_well_formed, sha256, sha256_spec};
use vstd::string::StringSliceAdditionalSpecFns;

verus! {

/// Short identifier of an issuer keyset: the first 8 bytes of the SHA-256
/// digest of the issuer's public key.
#[derive(Debug, Clone, Copy, PartialEq, Eq, Hash)]
pub struct KeysetId(pub [u8; 8]);

/// The keyset identifier of a public key.
pub open spec fn keyset_id_of(pk: Seq<u8>) -> Seq<u8> {
    sha256_spec(pk).take(8)
}

impl KeysetId {
    /// The identifier of the keyset whose public key bytes are `pk`.
    pub fn from_pubkey_bytes(pk: &[u8]) -> (id: Self)
        ensures
            id.0@ == keyset_id_of(pk@),
    {
        let digest = sha256(pk);
        let id: [u8; 8] = [
            digest[0],
            digest[1],
            digest[2],
            digest[3],
            digest[4],
            digest[5],
            digest[6],
            digest[7],
        ];
        assert(id@ =~= digest@.take(8));
        KeysetId(id)
    }

    /// The raw identifier bytes.
    pub fn as_bytes(&self) -> (b: &[u8; 8])
        ensures
            *b == self.0,
    {
        &self.0
    }

    /// The identifier as 16 lowercase hex characters.
    pub fn to_hex(&self) -> (s: String)
        ensures
            s@ == hex_text(self.0@),
    {
        hex_encode(self.0.as_slice())
    }

    /// Byte-wise equality of two identifiers.
    pub fn same_as(&self, other: &KeysetId) -> (eq: bool)
        ensures
            eq == (self.0@ == other.0@),
    {
        let mut i: usize = 0;
        while i < 8
            invariant
                i <= 8,
                self.0@.len() == 8,
                other.0@.len() == 8,
                forall|j: int| 0 <= j < i ==> self.0@[j] == other.0@[j],
            decreases 8 - i,
        {
            if self.0[i] != other.0[i] {
                return false;
            }
            i = i + 1;
        }
        assert(self.0@ =~= other.0@);
        true
    }
}

/// Why an identifier given as hex text was refused.
#[derive(Debug, Clone, Copy, PartialEq, Eq, Structural)]
pub enum HexIdError {
    /// The text is not hex: odd length, or a byte that is not a hex digit.
    NotHex,
    /// The text is hex but does not spell the identifier's number of bytes.
    WrongLength,
}

/// What parsing hex text into an identifier of `n` bytes gives: the bytes it
/// spells, `NotHex` for text that is not hex, `WrongLength` for hex text of
/// another length.
pub open spec fn parse_hex_id_spec(text: Seq<u8>, n: nat) -> Result<Seq<u8>, HexIdError> {
    if !hex_well_formed(text) {
        Err(HexIdError::NotHex)
    } else if text.len() != 2 * n {
        Err(HexIdError::WrongLength)
    } else {
        Ok(hex_decoded(text))
    }
}

/// The identifier bytes spelled by hex `text`, when they are `n` bytes long.
fn decode_hex_id(text: &str, n: usize) -> (res: Result<Vec<u8>, HexIdError>)
    ensures
        match (res, parse_hex_id_spec(text.spec_bytes(), n as nat)) {
            (Ok(v), Ok(w)) => v@ == w,
            (Err(a), Err(b)) => a == b,
            _ => false,
        },
{
    match hex_decode(text.as_bytes()) {
        None => Err(HexIdError::NotHex),
        Some(v) => {
            if v.len() != n {
                Err(HexIdError::WrongLength)
            } else {
                Ok(v)
            }
        },
    }
}

/// Parses a holder public key (nullifier) given as 64 hex characters of
/// either case.
pub fn parse_hpk_hex(text: &str) -> (res: Result<[u8; 32], HexIdError>)
    ensures
        match (res, parse_hex_id_spec(text.spec_bytes(), 32)) {
            (Ok(h), Ok(w)) => h@ == w,
            (Err(a), Err(b)) => a == b,
            _ => false,
        },
{
    match decode_hex_id(text, 32) {
        Err(e) => Err(e),
        Ok(v) => {
            let mut h = [0u8; 32];
            let mut i: usize = 0;
            while i < 32
                invariant
                    v@.len() == 32,
                    i <= 32,
                    h@.len() == 32,
                    forall|j: int| 0 <= j < i ==> h@[j] == v@[j],
                decreases 32 - i,
            {
                h.set(i, v[i]);
                i = i + 1;
            }
            assert(h@ =~= v@);
            Ok(h)
        },
    }
}

/// Parses a keyset identifier given as 16 hex characters of either case.
pub fn parse_keyset_id_hex(text: &str) -> (res: Result<KeysetId, HexIdError>)
    ensures
        match (res, parse_hex_id_spec(text.spec_bytes(), 8)) {
            (Ok(k), Ok(w)) => k.0@ == w,
            (Err(a), Err(b)) => a == b,
            _ => false,
        },
{
    match decode_hex_id(text, 8) {
        Err(e) => Err(e),
        Ok(v) => {
            let id: [u8; 8] = [v[0], v[1], v[2], v[3], v[4], v[5], v[6], v[7]];
            assert(id@ =~= v@);
            Ok(KeysetId(id))
        },
    }
}

/// Public, transmittable description of an issuer keyset for a single merchant.
#[derive(Debug)]
pub struct PublicKeyset {
    pub issuer_id: String,
    pub merchant_id: String,
    pub keyset_id: KeysetId,
    /// Compressed BLS12-381 G2 point bytes (96 B).
    pub public_key_bytes: Vec<u8>,
}

impl Clone for PublicKeyset {
    fn clone(&self) -> (r: Self)
        ensures
            r.issuer_id == self.issuer_id,
            r.merchant_id == self.merchant_id,
            r.keyset_id == self.keyset_id,
            r.public_key_bytes@ == self.public_key_bytes@,
    {
        PublicKeyset {
            issuer_id: self.issuer_id.clone(),
            merchant_id: self.merchant_id.clone(),
            keyset_id: self.keyset_id,
            public_key_bytes: bytes_to_vec(self.public_key_bytes.as_slice()),
        }
    }
}

} // verus!
