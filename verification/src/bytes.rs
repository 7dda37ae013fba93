//! Big-endian byte encoding of the integer fields that appear in frame
//! headers, and the ones'-complement checksum that IPv4, ICMP and TCP use.

use vstd::prelude::*;

verus! {

/// Big-endian byte pair of a 16-bit value.
pub open spec fn be16(v: u16) -> Seq<u8> {
    seq![(v / 256) as u8, (v % 256) as u8]
}

/// Big-endian byte quad of a 32-bit value.
pub open spec fn be32(v: u32) -> Seq<u8> {
    seq![
        ((v / 0x1000000) % 256) as u8,
        ((v / 0x10000) % 256) as u8,
        ((v / 0x100) % 256) as u8,
        (v % 256) as u8,
    ]
}

/// A hardware address fits in the low 48 bits of a `u64`.
pub open spec fn mac_ok(m: u64) -> bool {
    m < 0x1000000000000
}

/// The six big-endian bytes of a 48-bit hardware address.
pub open spec fn mac6(m: u64) -> Seq<u8> {
    seq![
        ((m / 0x10000000000) % 256) as u8,
        ((m / 0x100000000) % 256) as u8,
        ((m / 0x1000000) % 256) as u8,
        ((m / 0x10000) % 256) as u8,
        ((m / 0x100) % 256) as u8,
        (m % 256) as u8,
    ]
}

/// The 16-bit value held big-endian at offset `i`.
pub open spec fn read16(b: Seq<u8>, i: int) -> u16 {
    (b[i] * 0x100 + b[i + 1]) as u16
}

/// The 32-bit value held big-endian at offset `i`.
pub open spec fn read32(b: Seq<u8>, i: int) -> u32 {
    (b[i] * 0x1000000 + b[i + 1] * 0x10000 + b[i + 2] * 0x100 + b[i + 3]) as u32
}

/// The 48-bit value held big-endian at offset `i`.
pub open spec fn read48(b: Seq<u8>, i: int) -> u64 {
    (b[i] * 0x10000000000 + b[i + 1] * 0x100000000 + b[i + 2] * 0x1000000 + b[i + 3] * 0x10000
        + b[i + 4] * 0x100 + b[i + 5]) as u64
}

/// Write a 16-bit value as two big-endian bytes.
pub fn push_be16(out: &mut Vec<u8>, v: u16)
    ensures
        final(out)@ == old(out)@ + be16(v),
{
    out.push((v / 256) as u8);
    out.push((v % 256) as u8);
    assert(out@ =~= old(out)@ + be16(v));
}

/// Write a 32-bit value as four big-endian bytes.
pub fn push_be32(out: &mut Vec<u8>, v: u32)
    ensures
        final(out)@ == old(out)@ + be32(v),
{
    out.push(((v / 0x1000000) % 256) as u8);
    out.push(((v / 0x10000) % 256) as u8);
    out.push(((v / 0x100) % 256) as u8);
    out.push((v % 256) as u8);
    assert(out@ =~= old(out)@ + be32(v));
}

/// Write a hardware address as six big-endian bytes.
pub fn push_mac(out: &mut Vec<u8>, m: u64)
    ensures
        final(out)@ == old(out)@ + mac6(m),
{
    out.push(((m / 0x10000000000) % 256) as u8);
    out.push(((m / 0x100000000) % 256) as u8);
    out.push(((m / 0x1000000) % 256) as u8);
    out.push(((m / 0x10000) % 256) as u8);
    out.push(((m / 0x100) % 256) as u8);
    out.push((m % 256) as u8);
    assert(out@ =~= old(out)@ + mac6(m));
}

/// Read the 16-bit value held big-endian at offset `i`.
pub fn read16_at(b: &[u8], i: usize) -> (r: u16)
    requires
        i + 2 <= b@.len(),
    ensures
        r == read16(b@, i as int),
{
    (b[i] as u16) * 0x100 + (b[i + 1] as u16)
}

/// Read the 32-bit value held big-endian at offset `i`.
pub fn read32_at(b: &[u8], i: usize) -> (r: u32)
    requires
        i + 4 <= b@.len(),
    ensures
        r == read32(b@, i as int),
{
    (b[i] as u32) * 0x1000000 + (b[i + 1] as u32) * 0x10000 + (b[i + 2] as u32) * 0x100 + (b[i
        + 3] as u32)
}

/// Read the 48-bit value held big-endian at offset `i`.
pub fn read48_at(b: &[u8], i: usize) -> (r: u64)
    requires
        i + 6 <= b@.len(),
    ensures
        r == read48(b@, i as int),
{
    (b[i] as u64) * 0x10000000000 + (b[i + 1] as u64) * 0x100000000 + (b[i + 2] as u64) * 0x1000000
        + (b[i + 3] as u64) * 0x10000 + (b[i + 4] as u64) * 0x100 + (b[i + 5] as u64)
}

/// The sum of the big-endian 16-bit words of a byte string; an odd trailing
/// byte counts as the high byte of a final word, as the ones'-complement
/// checksum prescribes.
pub open spec fn sum16(b: Seq<u8>) -> int
    decreases b.len(),
{
    if b.len() == 0 {
        0
    } else if b.len() == 1 {
        b[0] * 0x100
    } else {
        b[0] * 0x100 + b[1] + sum16(b.skip(2))
    }
}

/// End-around carry folding: add the carry back in until the sum fits in
/// 16 bits.
pub open spec fn fold16(n: int) -> int
    decreases n,
{
    if n < 0x10000 {
        n
    } else {
        fold16(n % 0x10000 + n / 0x10000)
    }
}

/// The ones'-complement internet checksum of a byte string.
pub open spec fn checksum16(b: Seq<u8>) -> u16 {
    (0xffff - fold16(sum16(b))) as u16
}

/// A word sum is never negative.
pub proof fn lemma_sum16_nonneg(b: Seq<u8>)
    ensures
        sum16(b) >= 0,
    decreases b.len(),
{
    if b.len() >= 2 {
        lemma_sum16_nonneg(b.skip(2));
    }
}

/// Folding a non-negative sum lands in the 16-bit range.
pub proof fn lemma_fold16_bounds(n: int)
    requires
        n >= 0,
    ensures
        0 <= fold16(n) <= 0xffff,
    decreases n,
{
    if n >= 0x10000 {
        lemma_fold16_bounds(n % 0x10000 + n / 0x10000);
    }
}

/// Compute the ones'-complement internet checksum of a byte string.
pub fn internet_checksum(data: &[u8]) -> (r: u16)
    requires
        data@.len() < 0x10000000,
    ensures
        r == checksum16(data@),
{
    let n = data.len();
    let mut acc: u64 = 0;
    let mut i: usize = 0;
    proof {
        assert(data@.skip(0) =~= data@);
    }
    while i + 2 <= n
        invariant
            n == data@.len() < 0x10000000,
            i % 2 == 0,
            i <= n,
            acc <= (i as int / 2) * 0xffff,
            acc + sum16(data@.skip(i as int)) == sum16(data@),
        decreases n - i,
    {
        let word: u64 = (data[i] as u64) * 0x100 + (data[i + 1] as u64);
        proof {
            assert(data@.skip(i as int).skip(2) =~= data@.skip(i as int + 2));
            assert(data@.skip(i as int)[0] == data@[i as int]);
            assert(data@.skip(i as int)[1] == data@[i as int + 1]);
        }
        acc = acc + word;
        i = i + 2;
    }
    if i < n {
        proof {
            assert(data@.skip(i as int).len() == 1);
            assert(data@.skip(i as int)[0] == data@[i as int]);
            lemma_sum16_nonneg(data@.skip(i as int));
        }
        acc = acc + (data[i] as u64) * 0x100;
    }
    proof {
        if i == n {
            assert(data@.skip(i as int).len() == 0);
        }
        assert(acc == sum16(data@));
    }
    while acc >= 0x10000
        invariant
            fold16(acc as int) == fold16(sum16(data@)),
        decreases acc,
    {
        acc = acc % 0x10000 + acc / 0x10000;
    }
    proof {
        lemma_sum16_nonneg(data@);
        lemma_fold16_bounds(sum16(data@));
    }
    0xffffu16 - (acc as u16)
}

/// Reading back two bytes written big-endian yields the written value.
pub proof fn lemma_read16_be16(b: Seq<u8>, i: int, v: u16)
    requires
        0 <= i,
        i + 2 <= b.len(),
        b.subrange(i, i + 2) == be16(v),
    ensures
        read16(b, i) == v,
{
    assert(b[i] == be16(v)[0]);
    assert(b[i + 1] == be16(v)[1]);
    assert((v / 256) * 0x100 + v % 256 == v) by (bit_vector);
}

/// Reading back four bytes written big-endian yields the written value.
pub proof fn lemma_read32_be32(b: Seq<u8>, i: int, v: u32)
    requires
        0 <= i,
        i + 4 <= b.len(),
        b.subrange(i, i + 4) == be32(v),
    ensures
        read32(b, i) == v,
{
    assert(b[i] == be32(v)[0]);
    assert(b[i + 1] == be32(v)[1]);
    assert(b[i + 2] == be32(v)[2]);
    assert(b[i + 3] == be32(v)[3]);
    assert(((v / 0x1000000) % 256) * 0x1000000 + ((v / 0x10000) % 256) * 0x10000 + ((v / 0x100)
        % 256) * 0x100 + v % 256 == v) by (bit_vector);
}

/// Reading back six bytes written big-endian yields the written 48-bit value.
pub proof fn lemma_read48_mac6(b: Seq<u8>, i: int, m: u64)
    requires
        0 <= i,
        i + 6 <= b.len(),
        mac_ok(m),
        b.subrange(i, i + 6) == mac6(m),
    ensures
        read48(b, i) == m,
{
    assert(b[i] == mac6(m)[0]);
    assert(b[i + 1] == mac6(m)[1]);
    assert(b[i + 2] == mac6(m)[2]);
    assert(b[i + 3] == mac6(m)[3]);
    assert(b[i + 4] == mac6(m)[4]);
    assert(b[i + 5] == mac6(m)[5]);
    assert(m < 0x1000000000000 ==> ((m / 0x10000000000) % 256) * 0x10000000000 + ((m / 0x100000000)
        % 256) * 0x100000000 + ((m / 0x1000000) % 256) * 0x1000000 + ((m / 0x10000) % 256) * 0x10000
        + ((m / 0x100) % 256) * 0x100 + m % 256 == m) by (bit_vector);
}

} // verus!
