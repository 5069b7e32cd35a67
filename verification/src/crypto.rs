//! The cryptographic capability the client consumes: Keccak-256, secp256k1
//! key handling and recoverable ECDSA signing, and fresh salt bytes.
//!
//! Each outside call stands behind one trusted wrapper. The hash, the
//! address and the signature are deterministic functions of their byte
//! inputs (the signing backend derives its nonce per RFC 6979), so each
//! result carries a name the contracts of the verified code speak of.

use vstd::prelude::*;

verus! {

/// The Keccak-256 digest of a byte sequence (32 bytes).
pub uninterp spec fn keccak_of(data: Seq<u8>) -> Seq<u8>;

/// Whether 32 bytes are a valid (nonzero, in-range) secp256k1 secret scalar.
pub uninterp spec fn valid_privkey(key: Seq<u8>) -> bool;

/// The 20-byte address derived from a secret key's public point.
pub uninterp spec fn eth_address_of(key: Seq<u8>) -> Seq<u8>;

/// The 65-byte recoverable ECDSA signature (r, s, v) that RFC 6979 signing
/// derives from a secret key and a 32-byte digest.
pub uninterp spec fn ecdsa_sig_of(key: Seq<u8>, digest: Seq<u8>) -> Seq<u8>;

/// Relies on `alloy_primitives::keccak256`: the Keccak-256 digest, 32 bytes,
/// a function of the input bytes alone.
#[verifier::external_body]
pub(crate) fn keccak256(data: &[u8]) -> (r: Vec<u8>)
    ensures
        r@ == keccak_of(data@),
        r@.len() == 32,
{
    alloy_primitives::keccak256(data).as_slice().to_vec()
}

/// Relies on `alloy_signer_local::PrivateKeySigner::from_slice`: a 32-byte
/// slice parses exactly when it is a valid secp256k1 secret scalar.
#[verifier::external_body]
pub(crate) fn key_is_valid(key: &[u8]) -> (r: bool)
    requires
        key@.len() == 32,
    ensures
        r == valid_privkey(key@),
{
    alloy_signer_local::PrivateKeySigner::from_slice(key).is_ok()
}

/// Relies on `alloy_signer_local::PrivateKeySigner::from_slice` and
/// `LocalSigner::address`: the signing address of a valid key, 20 bytes, a
/// function of the key alone.
#[verifier::external_body]
pub(crate) fn signer_address(key: &[u8]) -> (r: Vec<u8>)
    requires
        key@.len() == 32,
        valid_privkey(key@),
    ensures
        r@ == eth_address_of(key@),
        r@.len() == 20,
{
    match alloy_signer_local::PrivateKeySigner::from_slice(key) {
        Ok(s) => s.address().as_slice().to_vec(),
        Err(_) => Vec::new(),
    }
}

/// Relies on `alloy_signer::SignerSync::sign_hash_sync` of a local signer:
/// RFC 6979 signing over secp256k1, so the 65-byte r,s,v signature is a
/// function of the key and the digest alone; `None` when the backend
/// declines.
#[verifier::external_body]
pub(crate) fn sign_digest(key: &[u8], digest: &[u8]) -> (r: Option<Vec<u8>>)
    requires
        key@.len() == 32,
        valid_privkey(key@),
        digest@.len() == 32,
    ensures
        r matches Some(s) ==> s@ == ecdsa_sig_of(key@, digest@) && s@.len() == 65,
{
    let signer = match alloy_signer_local::PrivateKeySigner::from_slice(key) {
        Ok(s) => s,
        Err(_) => {
            return None;
        },
    };
    let hash = alloy_primitives::B256::from_slice(digest);
    match alloy_signer::SignerSync::sign_hash_sync(&signer, &hash) {
        Ok(sig) => Some(sig.as_bytes().to_vec()),
        Err(_) => None,
    }
}

/// Relies on `getrandom::fill`: 32 bytes from the operating system's
/// entropy source; nothing beyond the length holds of any outcome.
#[verifier::external_body]
pub(crate) fn fresh_salt() -> (r: Option<Vec<u8>>)
    ensures
        r matches Some(s) ==> s@.len() == 32,
{
    let mut buf = [0u8; 32];
    match getrandom::fill(&mut buf) {
        Ok(()) => Some(buf.to_vec()),
        Err(_) => None,
    }
}

} // verus!
