//! Plain-value models of the on-chain quantities the protocol logic reads:
//! 160-bit account addresses, 256-bit hashes and unsigned integers, and the
//! (contract, user) pair that identifies whose viewpoint an instance is
//! evaluated from.

use vstd::prelude::*;

verus! {

/// A 160-bit account address, stored as big-endian limbs: `hi` holds the four
/// most significant bytes, then `mid`, then `lo`.
#[derive(Clone, Copy, Debug, Hash, PartialEq, Eq, Structural)]
pub struct Address {
    pub hi: u32,
    pub mid: u64,
    pub lo: u64,
}

/// A 256-bit hash value, as four big-endian 64-bit limbs (`w0` most
/// significant).
#[derive(Clone, Copy, Debug, Hash, PartialEq, Eq, Structural)]
pub struct Hash256 {
    pub w0: u64,
    pub w1: u64,
    pub w2: u64,
    pub w3: u64,
}

/// A 256-bit unsigned integer, as four big-endian 64-bit limbs (`w0` most
/// significant).
#[derive(Clone, Copy, Debug, Hash, PartialEq, Eq, Structural)]
pub struct Uint256 {
    pub w0: u64,
    pub w1: u64,
    pub w2: u64,
    pub w3: u64,
}

impl Uint256 {
    /// The zero word, the native-currency amount of every call this core emits.
    pub fn zero() -> (r: Uint256)
        ensures
            r == (Uint256 { w0: 0, w1: 0, w2: 0, w3: 0 }),
    {
        Uint256 { w0: 0, w1: 0, w2: 0, w3: 0 }
    }

    /// A small word, handy for indices and times.
    pub fn from_u64(x: u64) -> (r: Uint256)
        ensures
            r == (Uint256 { w0: 0, w1: 0, w2: 0, w3: x }),
    {
        Uint256 { w0: 0, w1: 0, w2: 0, w3: x }
    }
}

/// A concern is a pair: smart contract and user.  It identifies which on-chain
/// contract an instance lives in and which local party's viewpoint it is
/// evaluated from.
#[derive(Clone, Copy, Debug, Hash, PartialEq, Eq, Structural)]
pub struct Concern {
    pub contract_address: Address,
    pub user_address: Address,
}

/// The eight big-endian bytes of a 64-bit limb.
pub open spec fn u64_be_bytes(x: u64) -> Seq<u8> {
    seq![
        ((x >> 56) & 0xff) as u8,
        ((x >> 48) & 0xff) as u8,
        ((x >> 40) & 0xff) as u8,
        ((x >> 32) & 0xff) as u8,
        ((x >> 24) & 0xff) as u8,
        ((x >> 16) & 0xff) as u8,
        ((x >> 8) & 0xff) as u8,
        (x & 0xff) as u8,
    ]
}

/// The four big-endian bytes of a 32-bit limb.
pub open spec fn u32_be_bytes(x: u32) -> Seq<u8> {
    seq![
        ((x >> 24) & 0xff) as u8,
        ((x >> 16) & 0xff) as u8,
        ((x >> 8) & 0xff) as u8,
        (x & 0xff) as u8,
    ]
}

/// The 20 big-endian bytes of an address.
pub open spec fn address_bytes(a: Address) -> Seq<u8> {
    u32_be_bytes(a.hi) + u64_be_bytes(a.mid) + u64_be_bytes(a.lo)
}

/// The 40-byte key form of a concern: the contract address followed by the
/// user address, both big-endian.
pub open spec fn concern_bytes(c: Concern) -> Seq<u8> {
    address_bytes(c.contract_address) + address_bytes(c.user_address)
}

/// Appends the eight big-endian bytes of `x` to `out`.
fn push_u64_be(out: &mut Vec<u8>, x: u64)
    ensures
        final(out)@ == old(out)@ + u64_be_bytes(x),
{
    proof {
        assert(((x >> 56) & 0xff) < 256 && ((x >> 48) & 0xff) < 256 && ((x >> 40) & 0xff) < 256
            && ((x >> 32) & 0xff) < 256 && ((x >> 24) & 0xff) < 256 && ((x >> 16) & 0xff) < 256
            && ((x >> 8) & 0xff) < 256 && (x & 0xff) < 256) by (bit_vector);
    }
    out.push(((x >> 56) & 0xff) as u8);
    out.push(((x >> 48) & 0xff) as u8);
    out.push(((x >> 40) & 0xff) as u8);
    out.push(((x >> 32) & 0xff) as u8);
    out.push(((x >> 24) & 0xff) as u8);
    out.push(((x >> 16) & 0xff) as u8);
    out.push(((x >> 8) & 0xff) as u8);
    out.push((x & 0xff) as u8);
    proof {
        assert(out@ =~= old(out)@ + u64_be_bytes(x));
    }
}

/// Appends the four big-endian bytes of `x` to `out`.
fn push_u32_be(out: &mut Vec<u8>, x: u32)
    ensures
        final(out)@ == old(out)@ + u32_be_bytes(x),
{
    proof {
        assert(((x >> 24) & 0xff) < 256 && ((x >> 16) & 0xff) < 256 && ((x >> 8) & 0xff) < 256
            && (x & 0xff) < 256) by (bit_vector);
    }
    out.push(((x >> 24) & 0xff) as u8);
    out.push(((x >> 16) & 0xff) as u8);
    out.push(((x >> 8) & 0xff) as u8);
    out.push((x & 0xff) as u8);
    proof {
        assert(out@ =~= old(out)@ + u32_be_bytes(x));
    }
}

/// Appends the 20 big-endian bytes of `a` to `out`.
fn push_address(out: &mut Vec<u8>, a: &Address)
    ensures
        final(out)@ == old(out)@ + address_bytes(*a),
{
    push_u32_be(out, a.hi);
    push_u64_be(out, a.mid);
    push_u64_be(out, a.lo);
    proof {
        assert(out@ =~= old(out)@ + address_bytes(*a));
    }
}

/// The 64-bit limb with big-endian bytes `b0` (most significant) through `b7`.
pub open spec fn u64_from_be(b0: u8, b1: u8, b2: u8, b3: u8, b4: u8, b5: u8, b6: u8, b7: u8) -> u64 {
    ((b0 as u64) << 56 | (b1 as u64) << 48 | (b2 as u64) << 40 | (b3 as u64) << 32
        | (b4 as u64) << 24 | (b5 as u64) << 16 | (b6 as u64) << 8 | (b7 as u64))
}

/// The 32-bit limb with big-endian bytes `b0` (most significant) through `b3`.
pub open spec fn u32_from_be(b0: u8, b1: u8, b2: u8, b3: u8) -> u32 {
    ((b0 as u32) << 24 | (b1 as u32) << 16 | (b2 as u32) << 8 | (b3 as u32))
}

/// Recombining eight bytes and taking the bytes again is the identity.
pub(crate) proof fn lemma_u64_be_roundtrip(b0: u8, b1: u8, b2: u8, b3: u8, b4: u8, b5: u8, b6: u8, b7: u8)
    ensures
        u64_be_bytes(u64_from_be(b0, b1, b2, b3, b4, b5, b6, b7)) =~= seq![b0, b1, b2, b3, b4, b5, b6, b7],
{
    let x = u64_from_be(b0, b1, b2, b3, b4, b5, b6, b7);
    assert({
        let x = ((b0 as u64) << 56 | (b1 as u64) << 48 | (b2 as u64) << 40 | (b3 as u64) << 32
            | (b4 as u64) << 24 | (b5 as u64) << 16 | (b6 as u64) << 8 | (b7 as u64));
        ((x >> 56) & 0xff) as u8 == b0 && ((x >> 48) & 0xff) as u8 == b1
            && ((x >> 40) & 0xff) as u8 == b2 && ((x >> 32) & 0xff) as u8 == b3
            && ((x >> 24) & 0xff) as u8 == b4 && ((x >> 16) & 0xff) as u8 == b5
            && ((x >> 8) & 0xff) as u8 == b6 && (x & 0xff) as u8 == b7
    }) by (bit_vector);
}

/// Recombining four bytes and taking the bytes again is the identity.
pub(crate) proof fn lemma_u32_be_roundtrip(b0: u8, b1: u8, b2: u8, b3: u8)
    ensures
        u32_be_bytes(u32_from_be(b0, b1, b2, b3)) =~= seq![b0, b1, b2, b3],
{
    assert({
        let x = ((b0 as u32) << 24 | (b1 as u32) << 16 | (b2 as u32) << 8 | (b3 as u32));
        ((x >> 24) & 0xff) as u8 == b0 && ((x >> 16) & 0xff) as u8 == b1
            && ((x >> 8) & 0xff) as u8 == b2 && (x & 0xff) as u8 == b3
    }) by (bit_vector);
}

/// Reads the eight big-endian bytes starting at `at`.
pub(crate) fn read_u64_be(b: &[u8], at: usize) -> (r: u64)
    requires
        at + 8 <= b@.len(),
    ensures
        r == u64_from_be(b@[at as int], b@[at + 1], b@[at + 2], b@[at + 3], b@[at + 4],
            b@[at + 5], b@[at + 6], b@[at + 7]),
{
    (b[at] as u64) << 56 | (b[at + 1] as u64) << 48 | (b[at + 2] as u64) << 40
        | (b[at + 3] as u64) << 32 | (b[at + 4] as u64) << 24 | (b[at + 5] as u64) << 16
        | (b[at + 6] as u64) << 8 | (b[at + 7] as u64)
}

/// Reads the four big-endian bytes starting at `at`.
pub(crate) fn read_u32_be(b: &[u8], at: usize) -> (r: u32)
    requires
        at + 4 <= b@.len(),
    ensures
        r == u32_from_be(b@[at as int], b@[at + 1], b@[at + 2], b@[at + 3]),
{
    (b[at] as u32) << 24 | (b[at + 1] as u32) << 16 | (b[at + 2] as u32) << 8 | (b[at + 3] as u32)
}

/// Reads the 20 big-endian bytes of an address starting at `at`.
fn read_address(b: &[u8], at: usize) -> (r: Address)
    requires
        at + 20 <= b@.len() <= usize::MAX,
    ensures
        address_bytes(r) =~= b@.subrange(at as int, at + 20),
{
    let r = Address {
        hi: read_u32_be(b, at),
        mid: read_u64_be(b, at + 4),
        lo: read_u64_be(b, at + 12),
    };
    proof {
        lemma_u32_be_roundtrip(b@[at as int], b@[at + 1], b@[at + 2], b@[at + 3]);
        lemma_u64_be_roundtrip(b@[at + 4], b@[at + 5], b@[at + 6], b@[at + 7], b@[at + 8],
            b@[at + 9], b@[at + 10], b@[at + 11]);
        lemma_u64_be_roundtrip(b@[at + 12], b@[at + 13], b@[at + 14], b@[at + 15], b@[at + 16],
            b@[at + 17], b@[at + 18], b@[at + 19]);
    }
    r
}

impl Concern {
    /// The 40-byte key form of this concern: contract address then user
    /// address, both big-endian.
    pub fn to_bytes(&self) -> (r: Vec<u8>)
        ensures
            r@ == concern_bytes(*self),
    {
        let mut out: Vec<u8> = Vec::new();
        push_address(&mut out, &self.contract_address);
        push_address(&mut out, &self.user_address);
        proof {
            assert(out@ =~= concern_bytes(*self));
        }
        out
    }

    /// Reads a concern back from its 40-byte key form; inverse of `to_bytes`.
    pub fn from_bytes(b: &[u8]) -> (r: Concern)
        requires
            b@.len() == 40,
        ensures
            concern_bytes(r) == b@,
    {
        let r = Concern {
            contract_address: read_address(b, 0),
            user_address: read_address(b, 20),
        };
        proof {
            assert(concern_bytes(r) =~= b@);
        }
        r
    }
}

} // verus!
