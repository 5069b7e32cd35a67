//! The authentication handshake and its state.
//!
//! A client starts unauthenticated; one successful handshake derives API
//! credentials and produces the authenticated state that every trading and
//! query operation requires. The challenge that is signed is a canonical
//! encoding of host, timestamp, nonce and chain id, so the server can
//! recover and check the signer's address.

use crate::crypto::{ecdsa_sig_of, eth_address_of, keccak_of, keccak256};
use crate::digest::be64;
use crate::errors::AuthFailure;
use crate::order::SignatureType;
use crate::signer::Signer;
use vstd::prelude::*;
use vstd::utf8::encode_utf8;

verus! {

/// Credentials the handshake derives: held in memory for the session,
/// never persisted by the client.
#[derive(Clone, Debug)]
pub struct ApiCredentials {
    pub key: String,
    pub secret: String,
    pub passphrase: String,
}

/// The authentication state of a client. The tag alone decides whether
/// trading operations are reachable.
#[derive(Debug)]
pub enum AuthState {
    Unauthenticated,
    Authenticated {
        credentials: ApiCredentials,
        /// The signing address the handshake was completed with.
        address: Vec<u8>,
        /// Pass-through configuration for fund-owner resolution.
        signature_type: SignatureType,
    },
}

/// The canonical challenge bytes of a handshake: the host's UTF-8 bytes,
/// then timestamp, nonce and chain id, each big-endian and fixed-width.
pub open spec fn challenge_preimage(
    host: Seq<char>,
    timestamp: u64,
    nonce: u64,
    chain_id: u64,
) -> Seq<u8> {
    encode_utf8(host) + be64(timestamp) + be64(nonce) + be64(chain_id)
}

/// The 32-byte digest a handshake signs: the hash of the canonical
/// challenge bytes.
pub open spec fn challenge_digest_spec(
    host: Seq<char>,
    timestamp: u64,
    nonce: u64,
    chain_id: u64,
) -> Seq<u8> {
    keccak_of(challenge_preimage(host, timestamp, nonce, chain_id))
}

/// Builds the canonical challenge bytes.
pub fn build_challenge(host: &str, timestamp: u64, nonce: u64, chain_id: u64) -> (r: Vec<u8>)
    ensures
        r@ == challenge_preimage(host@, timestamp, nonce, chain_id),
{
    let mut out: Vec<u8> = Vec::new();
    let hb = host.as_bytes();
    let mut k: usize = 0;
    while k < hb.len()
        invariant
            k <= hb@.len(),
            hb@ == encode_utf8(host@),
            out@ =~= encode_utf8(host@).take(k as int),
        decreases hb@.len() - k,
    {
        out.push(hb[k]);
        k += 1;
        proof {
            assert(out@ =~= encode_utf8(host@).take(k as int));
        }
    }
    proof {
        assert(out@ =~= encode_utf8(host@));
    }
    crate::digest::push_be64(&mut out, timestamp);
    crate::digest::push_be64(&mut out, nonce);
    crate::digest::push_be64(&mut out, chain_id);
    proof {
        assert(out@ =~= challenge_preimage(host@, timestamp, nonce, chain_id));
    }
    out
}

/// A prepared handshake, ready for the transport: the digest that was
/// signed, the signature, and the address the server should recover.
pub struct AuthRequest {
    pub address: Vec<u8>,
    pub digest: Vec<u8>,
    pub signature: Vec<u8>,
    pub timestamp: u64,
    pub nonce: u64,
}

/// Prepares the handshake: digests the canonical challenge for the host
/// and chain and signs it. Fails only when the signing backend declines.
pub fn prepare_auth_request(
    host: &str,
    chain_id: u64,
    signer: &Signer,
    timestamp: u64,
    nonce: u64,
) -> (r: Result<AuthRequest, AuthFailure>)
    ensures
        r matches Ok(a) ==> {
            &&& a.digest@ == challenge_digest_spec(host@, timestamp, nonce, chain_id)
            &&& a.signature@ == ecdsa_sig_of(signer.key_bytes(), a.digest@)
            &&& a.address@ == eth_address_of(signer.key_bytes())
            &&& a.timestamp == timestamp
            &&& a.nonce == nonce
        },
        r matches Err(e) ==> e is InvalidSignature,
{
    let challenge = build_challenge(host, timestamp, nonce, chain_id);
    let digest = keccak256(challenge.as_slice());
    let signature = match signer.sign_digest32(&digest) {
        Ok(s) => s,
        Err(_) => {
            return Err(AuthFailure::InvalidSignature);
        },
    };
    let address = signer.address();
    Ok(AuthRequest { address, digest, signature, timestamp, nonce })
}

/// Maps the handshake endpoint's answer to credentials or a typed failure:
/// a success status with all three credential fields yields the
/// credentials; 401 means the signature was not accepted; any other
/// rejection, and a success status with a field missing, reports the
/// status and body.
pub fn decode_auth_response(
    status: u16,
    key: Option<String>,
    secret: Option<String>,
    passphrase: Option<String>,
    body: String,
) -> (r: Result<ApiCredentials, AuthFailure>)
    ensures
        r is Ok <==> 200 <= status < 300 && key is Some && secret is Some && passphrase is Some,
        r matches Ok(c) ==> c.key == key.unwrap() && c.secret == secret.unwrap()
            && c.passphrase == passphrase.unwrap(),
        status == 401 ==> r == Err::<ApiCredentials, AuthFailure>(AuthFailure::InvalidSignature),
        r matches Err(e) ==> (if status == 401 {
            e is InvalidSignature
        } else {
            e matches AuthFailure::ServerRejected(s, b) && s == status && b == body
        }),
{
    if status == 401 {
        return Err(AuthFailure::InvalidSignature);
    }
    if !(200 <= status && status < 300) {
        return Err(AuthFailure::ServerRejected(status, body));
    }
    match (key, secret, passphrase) {
        (Some(k), Some(s), Some(p)) => Ok(ApiCredentials { key: k, secret: s, passphrase: p }),
        _ => Err(AuthFailure::ServerRejected(status, body)),
    }
}

} // verus!
