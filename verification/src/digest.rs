//! The canonical typed-data digest of an order.
//!
//! The byte schema is fixed: addresses take 20 bytes (left-padded to 32
//! where a word is due), integers are fixed-width big-endian, the token id
//! enters as the hash of its UTF-8 bytes, and the domain separator folds in
//! the chain id, the verifying contract's address and the domain version.
//! The digest signed is `keccak(0x19 0x01 || domain separator || struct
//! hash)` over that schema, so equal logical orders digest identically.

use crate::crypto::{keccak256, keccak_of};
use crate::order::{OrderType, Side, SignatureType, UnsignedOrder};
use vstd::prelude::*;
use vstd::utf8::encode_utf8;

verus! {

/// `n` zero bytes.
pub open spec fn zeros(n: nat) -> Seq<u8> {
    Seq::new(n, |i: int| 0u8)
}

/// The big-endian bytes of a 64-bit integer, most significant first.
pub open spec fn be64(x: u64) -> Seq<u8> {
    Seq::new(8, |i: int| (((x >> ((56 - 8 * i) as u64)) & 0xff) as u8))
}

/// A 64-bit integer widened to a 32-byte big-endian word.
pub open spec fn word_u64(x: u64) -> Seq<u8> {
    zeros(24) + be64(x)
}

/// A 20-byte address left-padded to a 32-byte word.
pub open spec fn word_addr(a: Seq<u8>) -> Seq<u8> {
    zeros(12) + a
}

/// The wire byte of a side: buy then sell.
pub open spec fn side_byte(s: Side) -> u8 {
    match s {
        Side::Buy => 0,
        Side::Sell => 1,
    }
}

/// The wire byte of a time-in-force, in declaration order.
pub open spec fn order_type_byte(t: OrderType) -> u8 {
    match t {
        OrderType::GTC => 0,
        OrderType::GTD => 1,
        OrderType::FOK => 2,
        OrderType::FAK => 3,
    }
}

/// The wire byte of a signature type, in declaration order.
pub open spec fn signature_type_byte(t: SignatureType) -> u8 {
    match t {
        SignatureType::Eoa => 0,
        SignatureType::Proxy => 1,
        SignatureType::GnosisSafe => 2,
    }
}

/// An absent expiration encodes as zero.
pub open spec fn opt_u64(e: Option<u64>) -> u64 {
    match e {
        Some(x) => x,
        None => 0,
    }
}

/// The ordered field encoding of an order, the preimage of its struct hash.
pub open spec fn order_preimage(o: UnsignedOrder) -> Seq<u8> {
    o.salt@ + word_addr(o.maker@) + word_addr(o.taker@) + keccak_of(encode_utf8(o.token_id@))
        + word_u64(o.maker_amount) + word_u64(o.taker_amount) + word_u64(opt_u64(o.expiration))
        + word_u64(o.fee_rate_bps) + seq![side_byte(o.side)] + seq![order_type_byte(o.order_type)]
        + seq![signature_type_byte(o.signature_type)]
}

/// The preimage of the domain separator: chain id, verifying contract,
/// hashed domain version.
pub open spec fn domain_preimage(chain_id: u64, contract: Seq<u8>, version: Seq<u8>) -> Seq<u8> {
    word_u64(chain_id) + word_addr(contract) + keccak_of(version)
}

/// The domain separator of a chain, contract and version.
pub open spec fn domain_separator_of(chain_id: u64, contract: Seq<u8>, version: Seq<u8>) -> Seq<
    u8,
> {
    keccak_of(domain_preimage(chain_id, contract, version))
}

/// The typed-data digest an order is signed under.
pub open spec fn order_digest(
    o: UnsignedOrder,
    chain_id: u64,
    contract: Seq<u8>,
    version: Seq<u8>,
) -> Seq<u8> {
    keccak_of(
        seq![0x19u8, 0x01u8] + domain_separator_of(chain_id, contract, version) + keccak_of(
            order_preimage(o),
        ),
    )
}

/// Appends the bytes of a slice.
fn push_bytes(out: &mut Vec<u8>, s: &[u8])
    ensures
        final(out)@ == old(out)@ + s@,
{
    let mut k: usize = 0;
    while k < s.len()
        invariant
            k <= s@.len(),
            out@ =~= old(out)@ + s@.take(k as int),
        decreases s@.len() - k,
    {
        out.push(s[k]);
        k += 1;
        proof {
            assert(out@ =~= old(out)@ + s@.take(k as int));
        }
    }
    proof {
        assert(out@ =~= old(out)@ + s@);
    }
}

/// Appends `n` zero bytes.
fn push_zeros(out: &mut Vec<u8>, n: usize)
    ensures
        final(out)@ == old(out)@ + zeros(n as nat),
{
    let mut k: usize = 0;
    while k < n
        invariant
            k <= n,
            out@ =~= old(out)@ + zeros(k as nat),
        decreases n - k,
    {
        out.push(0u8);
        k += 1;
        proof {
            assert(out@ =~= old(out)@ + zeros(k as nat));
        }
    }
}

/// Appends a 64-bit integer in big-endian order.
pub(crate) fn push_be64(out: &mut Vec<u8>, x: u64)
    ensures
        final(out)@ == old(out)@ + be64(x),
{
    let mut k: usize = 0;
    while k < 8
        invariant
            k <= 8,
            out@ =~= old(out)@ + be64(x).take(k as int),
        decreases 8 - k,
    {
        let sh: u64 = 56 - 8 * (k as u64);
        proof {
            assert((x >> sh) & 0xff < 256) by (bit_vector);
        }
        let b: u8 = ((x >> sh) & 0xff) as u8;
        out.push(b);
        k += 1;
        proof {
            assert(out@ =~= old(out)@ + be64(x).take(k as int));
        }
    }
    proof {
        assert(out@ =~= old(out)@ + be64(x));
    }
}

/// Appends a 64-bit integer as a 32-byte big-endian word.
fn push_word_u64(out: &mut Vec<u8>, x: u64)
    ensures
        final(out)@ == old(out)@ + word_u64(x),
{
    push_zeros(out, 24);
    push_be64(out, x);
    proof {
        assert(out@ =~= old(out)@ + word_u64(x));
    }
}

/// Builds the ordered field encoding of an order.
pub fn encode_order(o: &UnsignedOrder) -> (r: Vec<u8>)
    ensures
        r@ == order_preimage(*o),
{
    let mut out: Vec<u8> = Vec::new();
    push_bytes(&mut out, o.salt.as_slice());
    push_zeros(&mut out, 12);
    push_bytes(&mut out, o.maker.as_slice());
    push_zeros(&mut out, 12);
    push_bytes(&mut out, o.taker.as_slice());
    let token_hash = keccak256(o.token_id.as_str().as_bytes());
    push_bytes(&mut out, token_hash.as_slice());
    push_word_u64(&mut out, o.maker_amount);
    push_word_u64(&mut out, o.taker_amount);
    let exp: u64 = match o.expiration {
        Some(x) => x,
        None => 0,
    };
    push_word_u64(&mut out, exp);
    push_word_u64(&mut out, o.fee_rate_bps);
    let sb: u8 = match o.side {
        Side::Buy => 0,
        Side::Sell => 1,
    };
    out.push(sb);
    let tb: u8 = match o.order_type {
        OrderType::GTC => 0,
        OrderType::GTD => 1,
        OrderType::FOK => 2,
        OrderType::FAK => 3,
    };
    out.push(tb);
    let gb: u8 = match o.signature_type {
        SignatureType::Eoa => 0,
        SignatureType::Proxy => 1,
        SignatureType::GnosisSafe => 2,
    };
    out.push(gb);
    proof {
        assert(out@ =~= order_preimage(*o));
    }
    out
}

/// Builds the domain separator's preimage.
fn encode_domain(chain_id: u64, contract: &Vec<u8>, version: &Vec<u8>) -> (r: Vec<u8>)
    ensures
        r@ == domain_preimage(chain_id, contract@, version@),
{
    let mut out: Vec<u8> = Vec::new();
    push_word_u64(&mut out, chain_id);
    push_zeros(&mut out, 12);
    push_bytes(&mut out, contract.as_slice());
    let vh = keccak256(version.as_slice());
    push_bytes(&mut out, vh.as_slice());
    proof {
        assert(out@ =~= domain_preimage(chain_id, contract@, version@));
    }
    out
}

/// Computes the typed-data digest of an order under a signing domain.
pub fn compute_order_digest(
    o: &UnsignedOrder,
    chain_id: u64,
    contract: &Vec<u8>,
    version: &Vec<u8>,
) -> (r: Vec<u8>)
    ensures
        r@ == order_digest(*o, chain_id, contract@, version@),
        r@.len() == 32,
{
    let dom = encode_domain(chain_id, contract, version);
    let dom_sep = keccak256(dom.as_slice());
    let pre = encode_order(o);
    let struct_hash = keccak256(pre.as_slice());
    let mut msg: Vec<u8> = Vec::new();
    msg.push(0x19u8);
    msg.push(0x01u8);
    push_bytes(&mut msg, dom_sep.as_slice());
    push_bytes(&mut msg, struct_hash.as_slice());
    proof {
        assert(msg@ =~= seq![0x19u8, 0x01u8] + domain_separator_of(chain_id, contract@, version@)
            + keccak_of(order_preimage(*o)));
    }
    keccak256(msg.as_slice())
}

} // verus!
