//! Appending to a byte buffer through `bytes::BufMut`.
//!
//! The three functions here are the only places where the crate calls into
//! `bytes`. Their contracts are taken on trust from the implementation of
//! `BufMut` for `Vec<u8>`; everything built on top of them is verified.

use bytes::BufMut;
use vstd::prelude::*;

verus! {

/// The two bytes of a 16-bit value in network (big-endian) order.
pub open spec fn be16(n: u16) -> Seq<u8> {
    seq![(n / 256) as u8, (n % 256) as u8]
}

/// The 16-bit value whose network-order bytes are `hi`, `lo`.
pub open spec fn from_be16(hi: u8, lo: u8) -> u16 {
    (hi * 256 + lo) as u16
}

/// The network-order bytes of a sequence of 16-bit values, one after another.
pub open spec fn be16_seq(s: Seq<u16>) -> Seq<u8>
    decreases s.len(),
{
    if s.len() == 0 {
        Seq::empty()
    } else {
        be16_seq(s.drop_last()) + be16(s.last())
    }
}

/// `BufMut::put_u8` on a `Vec<u8>`: the buffer grows by the one byte `n`
/// and keeps what it held.
#[verifier::external_body]
pub(crate) fn put_u8(buf: &mut Vec<u8>, n: u8)
    ensures
        final(buf)@ == old(buf)@.push(n),
{
    buf.put_u8(n);
}

/// `BufMut::put_u16` on a `Vec<u8>`: the buffer grows by the two bytes of `n`,
/// most significant first, and keeps what it held.
#[verifier::external_body]
pub(crate) fn put_u16(buf: &mut Vec<u8>, n: u16)
    ensures
        final(buf)@ == old(buf)@ + be16(n),
{
    buf.put_u16(n);
}

/// `BufMut::put_slice` on a `Vec<u8>`: the buffer grows by the bytes of `src`,
/// in their order, and keeps what it held.
#[verifier::external_body]
pub(crate) fn put_slice(buf: &mut Vec<u8>, src: &[u8])
    ensures
        final(buf)@ == old(buf)@ + src@,
{
    buf.put_slice(src);
}

/// The 16-bit value stored in network order at `source[at]`, `source[at + 1]`.
pub fn get_u16(source: &[u8], at: usize) -> (n: u16)
    requires
        at + 1 < source@.len(),
    ensures
        n == from_be16(source@[at as int], source@[at + 1]),
{
    let hi: u16 = source[at] as u16;
    let lo: u16 = source[at + 1] as u16;
    hi * 256 + lo
}

/// Splitting a 16-bit value into its network-order bytes and joining them
/// again gives the value back.
pub proof fn lemma_be16_round_trip(n: u16)
    ensures
        be16(n).len() == 2,
        from_be16(be16(n)[0], be16(n)[1]) == n,
{
}

/// Joining two bytes and splitting the result gives the two bytes back.
pub proof fn lemma_from_be16_round_trip(hi: u8, lo: u8)
    ensures
        be16(from_be16(hi, lo)) == seq![hi, lo],
{
    assert(be16(from_be16(hi, lo)) =~= seq![hi, lo]);
}

/// Each value of the sequence takes two bytes of `be16_seq`, at twice its index.
pub proof fn lemma_be16_seq_index(s: Seq<u16>, i: int)
    requires
        0 <= i < s.len(),
    ensures
        be16_seq(s).len() == 2 * s.len(),
        be16_seq(s)[2 * i] == be16(s[i])[0],
        be16_seq(s)[2 * i + 1] == be16(s[i])[1],
    decreases s.len(),
{
    lemma_be16_seq_len(s);
    lemma_be16_seq_len(s.drop_last());
    if i < s.len() - 1 {
        lemma_be16_seq_index(s.drop_last(), i);
    }
}

/// `be16_seq` is twice as long as the sequence it encodes.
pub proof fn lemma_be16_seq_len(s: Seq<u16>)
    ensures
        be16_seq(s).len() == 2 * s.len(),
    decreases s.len(),
{
    if s.len() > 0 {
        lemma_be16_seq_len(s.drop_last());
    }
}

} // verus!
