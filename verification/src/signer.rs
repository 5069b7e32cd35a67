//! The signing capability and the step that turns an unsigned order into a
//! signed one.
//!
//! A `Signer` holds a validated secp256k1 secret scalar; the key bytes are
//! caller-owned material that never leaves the process. Signing an order
//! computes its canonical typed-data digest and obtains the recoverable
//! signature over it, so the signed payload is pinned byte for byte.

use crate::crypto::{ecdsa_sig_of, eth_address_of, key_is_valid, sign_digest, signer_address,
    valid_privkey};
use crate::digest::{compute_order_digest, order_digest};
use crate::errors::ClobError;
use crate::order::UnsignedOrder;
use vstd::prelude::*;

verus! {

/// A local signing key, held only after validation.
pub struct Signer {
    key: Vec<u8>,
}

impl Signer {
    #[verifier::type_invariant]
    spec fn inv(self) -> bool {
        self.key@.len() == 32 && valid_privkey(self.key@)
    }

    /// The signer's secret scalar; for contracts only, never exposed.
    pub closed spec fn key_bytes(&self) -> Seq<u8> {
        self.key@
    }

    /// Takes custody of a 32-byte secret scalar; refuses any slice that is
    /// not a valid secp256k1 key.
    pub fn from_key_bytes(key: Vec<u8>) -> (r: Option<Signer>)
        ensures
            r is Some <==> key@.len() == 32 && valid_privkey(key@),
            r matches Some(s) ==> s.key_bytes() == key@,
    {
        if key.len() != 32 {
            return None;
        }
        if !key_is_valid(key.as_slice()) {
            return None;
        }
        Some(Signer { key })
    }

    /// The signer's 20-byte address.
    pub fn address(&self) -> (r: Vec<u8>)
        ensures
            r@ == eth_address_of(self.key_bytes()),
            r@.len() == 20,
    {
        proof {
            use_type_invariant(self);
        }
        signer_address(self.key.as_slice())
    }

    /// Signs a 32-byte digest; the signature is determined by the key and
    /// the digest alone. Fails only when the signing backend declines.
    pub fn sign_digest32(&self, digest: &Vec<u8>) -> (r: Result<Vec<u8>, ClobError>)
        requires
            digest@.len() == 32,
        ensures
            r matches Ok(s) ==> s@ == ecdsa_sig_of(self.key_bytes(), digest@) && s@.len() == 65,
            r matches Err(e) ==> e is Signing,
    {
        proof {
            use_type_invariant(self);
        }
        match sign_digest(self.key.as_slice(), digest.as_slice()) {
            Some(s) => Ok(s),
            None => Err(ClobError::Signing),
        }
    }
}

/// An order together with its typed-data digest and the recoverable
/// signature over that digest.
#[derive(Clone, Debug)]
pub struct SignedOrder {
    pub order: UnsignedOrder,
    pub order_hash: Vec<u8>,
    pub signature: Vec<u8>,
}

/// Digests an order under the given signing domain and signs the digest.
/// On success the hash is exactly the canonical digest of the order and the
/// signature is the one the key determines for it; the only failure is the
/// signing backend declining.
pub fn sign_order(
    order: UnsignedOrder,
    signer: &Signer,
    chain_id: u64,
    contract: &Vec<u8>,
    version: &Vec<u8>,
) -> (r: Result<SignedOrder, ClobError>)
    ensures
        r matches Ok(so) ==> {
            &&& so.order == order
            &&& so.order_hash@ == order_digest(order, chain_id, contract@, version@)
            &&& so.order_hash@.len() == 32
            &&& so.signature@ == ecdsa_sig_of(signer.key_bytes(), so.order_hash@)
            &&& so.signature@.len() == 65
        },
        r matches Err(e) ==> e is Signing,
{
    let digest = compute_order_digest(&order, chain_id, contract, version);
    let signature = signer.sign_digest32(&digest)?;
    Ok(SignedOrder { order, order_hash: digest, signature })
}

/// Signing is deterministic: the same logical order (same fields, same
/// salt) under the same domain and the same signer key digests to the same
/// bytes and yields the same signature, however often it is signed.
pub proof fn lemma_signing_deterministic(
    o1: UnsignedOrder,
    o2: UnsignedOrder,
    key: Seq<u8>,
    chain_id: u64,
    contract: Seq<u8>,
    version: Seq<u8>,
)
    requires
        o1 == o2,
    ensures
        order_digest(o1, chain_id, contract, version) == order_digest(
            o2,
            chain_id,
            contract,
            version,
        ),
        ecdsa_sig_of(key, order_digest(o1, chain_id, contract, version)) == ecdsa_sig_of(
            key,
            order_digest(o2, chain_id, contract, version),
        ),
{
}

} // verus!
