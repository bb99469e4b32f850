//! CRC-16/XMODEM: polynomial 0x1021, initial value 0x0000, no input or
//! output reflection, processed byte by byte, most significant bit first.
//!
//! The checksum is defined here as a specification-level fold over a byte
//! sequence, and the executable computation is verified against it.

use vstd::prelude::*;

verus! {

/// One shift step of the bitwise CRC: shift the register left by one and,
/// if a one bit fell out, fold in the polynomial.
pub open spec fn crc_shift(c: u16) -> u16 {
    if c & 0x8000 != 0 {
        (c << 1) ^ 0x1021
    } else {
        c << 1
    }
}

/// `crc_shift` applied `n` times.
pub open spec fn crc_shift_n(c: u16, n: nat) -> u16
    decreases n,
{
    if n == 0 {
        c
    } else {
        crc_shift(crc_shift_n(c, (n - 1) as nat))
    }
}

/// Folding one input byte into the register: xor it into the high byte,
/// then run eight shift steps.
pub open spec fn crc_feed_byte(c: u16, b: u8) -> u16 {
    crc_shift_n(c ^ ((b as u16) << 8), 8)
}

/// CRC-16/XMODEM of a whole byte sequence, starting from register 0.
pub open spec fn spec_crc16(s: Seq<u8>) -> u16
    decreases s.len(),
{
    if s.len() == 0 {
        0
    } else {
        crc_feed_byte(spec_crc16(s.drop_last()), s.last())
    }
}

/// CRC-16/XMODEM over the first `n` bytes of `data`.
pub fn crc16_xmodem_prefix(data: &Vec<u8>, n: usize) -> (r: u16)
    requires
        n <= data@.len(),
    ensures
        r == spec_crc16(data@.subrange(0, n as int)),
{
    let mut crc: u16 = 0;
    assert(data@.subrange(0, 0) =~= Seq::<u8>::empty());
    let mut i: usize = 0;
    while i < n
        invariant
            i <= n,
            n <= data@.len(),
            crc == spec_crc16(data@.subrange(0, i as int)),
        decreases n - i,
    {
        let b = data[i];
        let start: u16 = crc ^ ((b as u16) << 8);
        let mut c = start;
        let mut k: usize = 0;
        while k < 8
            invariant
                k <= 8,
                c == crc_shift_n(start, k as nat),
            decreases 8 - k,
        {
            c = if c & 0x8000 != 0 { (c << 1) ^ 0x1021 } else { c << 1 };
            k = k + 1;
        }
        proof {
            let pre = data@.subrange(0, i as int);
            let cur = data@.subrange(0, i + 1);
            assert(cur.drop_last() =~= pre);
            assert(cur.last() == data@[i as int]);
        }
        crc = c;
        i = i + 1;
    }
    assert(data@.subrange(0, n as int) == data@.subrange(0, i as int));
    crc
}

/// CRC-16/XMODEM of the whole vector.
pub fn crc16_xmodem(data: &Vec<u8>) -> (r: u16)
    ensures
        r == spec_crc16(data@),
{
    let n = data.len();
    let r = crc16_xmodem_prefix(data, n);
    assert(data@.subrange(0, n as int) =~= data@);
    r
}

/// Pointwise xor of two byte sequences of equal length.
pub open spec fn seq_xor(s: Seq<u8>, t: Seq<u8>) -> Seq<u8>
    recommends
        s.len() == t.len(),
{
    Seq::new(s.len(), |i: int| s[i] ^ t[i])
}

/// A sequence of `n` bytes that is all zero except for bit `j` of byte `i`.
pub open spec fn single_bit_seq(n: nat, i: int, j: u8) -> Seq<u8> {
    Seq::new(n, |k: int| if k == i { 1u8 << j } else { 0u8 })
}

proof fn lemma_crc_shift_linear(a: u16, b: u16)
    ensures
        crc_shift(a ^ b) == crc_shift(a) ^ crc_shift(b),
{
    assert(crc_shift(a ^ b) == crc_shift(a) ^ crc_shift(b)) by (bit_vector);
}

proof fn lemma_crc_shift_nonzero(c: u16)
    requires
        c != 0,
    ensures
        crc_shift(c) != 0,
{
    assert(c != 0 ==> crc_shift(c) != 0) by (bit_vector);
}

proof fn lemma_crc_shift_n_linear(a: u16, b: u16, n: nat)
    ensures
        crc_shift_n(a ^ b, n) == crc_shift_n(a, n) ^ crc_shift_n(b, n),
    decreases n,
{
    if n > 0 {
        lemma_crc_shift_n_linear(a, b, (n - 1) as nat);
        lemma_crc_shift_linear(crc_shift_n(a, (n - 1) as nat), crc_shift_n(b, (n - 1) as nat));
    }
}

proof fn lemma_crc_shift_n_nonzero(c: u16, n: nat)
    requires
        c != 0,
    ensures
        crc_shift_n(c, n) != 0,
    decreases n,
{
    if n > 0 {
        lemma_crc_shift_n_nonzero(c, (n - 1) as nat);
        lemma_crc_shift_nonzero(crc_shift_n(c, (n - 1) as nat));
    }
}

proof fn lemma_crc_feed_byte_linear(c1: u16, b1: u8, c2: u16, b2: u8)
    ensures
        crc_feed_byte(c1 ^ c2, b1 ^ b2) == crc_feed_byte(c1, b1) ^ crc_feed_byte(c2, b2),
{
    assert((c1 ^ c2) ^ (((b1 ^ b2) as u16) << 8)
        == (c1 ^ ((b1 as u16) << 8)) ^ (c2 ^ ((b2 as u16) << 8))) by (bit_vector);
    lemma_crc_shift_n_linear(c1 ^ ((b1 as u16) << 8), c2 ^ ((b2 as u16) << 8), 8);
}

/// The checksum is linear over bytewise xor: the checksum of the xor of two
/// equal-length sequences is the xor of their checksums.
pub proof fn lemma_crc16_linear(s: Seq<u8>, t: Seq<u8>)
    requires
        s.len() == t.len(),
    ensures
        spec_crc16(seq_xor(s, t)) == spec_crc16(s) ^ spec_crc16(t),
    decreases s.len(),
{
    if s.len() == 0 {
        assert(seq_xor(s, t).len() == 0);
        assert(0u16 ^ 0u16 == 0u16) by (bit_vector);
    } else {
        lemma_crc16_linear(s.drop_last(), t.drop_last());
        assert(seq_xor(s, t).drop_last() =~= seq_xor(s.drop_last(), t.drop_last()));
        assert(seq_xor(s, t).last() == s.last() ^ t.last());
        lemma_crc_feed_byte_linear(
            spec_crc16(s.drop_last()),
            s.last(),
            spec_crc16(t.drop_last()),
            t.last(),
        );
    }
}

proof fn lemma_crc16_zero_seq(n: nat)
    ensures
        spec_crc16(Seq::new(n, |k: int| 0u8)) == 0,
    decreases n,
{
    let s = Seq::new(n, |k: int| 0u8);
    if n > 0 {
        lemma_crc16_zero_seq((n - 1) as nat);
        assert(s.drop_last() =~= Seq::new((n - 1) as nat, |k: int| 0u8));
        assert(s.last() == 0u8);
        assert(0u16 ^ ((0u8 as u16) << 8) == 0u16) by (bit_vector);
        lemma_crc_shift_n_zero(8);
    }
}

proof fn lemma_crc_shift_n_zero(n: nat)
    ensures
        crc_shift_n(0u16, n) == 0,
    decreases n,
{
    if n > 0 {
        lemma_crc_shift_n_zero((n - 1) as nat);
        assert(crc_shift(0u16) == 0u16) by (bit_vector);
    }
}

/// The checksum of a sequence with exactly one bit set is never zero: zero
/// bytes leave the register at zero, the one bit lands above the low byte,
/// and each shift step maps a nonzero register to a nonzero register.
pub proof fn lemma_crc16_single_bit_nonzero(n: nat, i: int, j: u8)
    requires
        0 <= i < n,
        j < 8,
    ensures
        spec_crc16(single_bit_seq(n, i, j)) != 0,
    decreases n,
{
    let s = single_bit_seq(n, i, j);
    if i == n - 1 {
        assert(s.drop_last() =~= Seq::new((n - 1) as nat, |k: int| 0u8));
        lemma_crc16_zero_seq((n - 1) as nat);
        assert(s.last() == (1u8 << j));
        assert(j < 8 ==> 0u16 ^ (((1u8 << j) as u16) << 8) != 0) by (bit_vector);
        lemma_crc_shift_n_nonzero(0u16 ^ (((1u8 << j) as u16) << 8), 8);
    } else {
        assert(s.drop_last() =~= single_bit_seq((n - 1) as nat, i, j));
        lemma_crc16_single_bit_nonzero((n - 1) as nat, i, j);
        assert(s.last() == 0u8);
        let c = spec_crc16(s.drop_last());
        assert(c != 0 ==> c ^ ((0u8 as u16) << 8) != 0) by (bit_vector);
        lemma_crc_shift_n_nonzero(c ^ ((0u8 as u16) << 8), 8);
    }
}

/// Flipping any single bit of a sequence changes its checksum.
pub proof fn lemma_crc16_bit_flip(s: Seq<u8>, i: int, j: u8)
    requires
        0 <= i < s.len(),
        j < 8,
    ensures
        spec_crc16(s.update(i, s[i] ^ (1u8 << j))) != spec_crc16(s),
{
    let e = single_bit_seq(s.len(), i, j);
    let s2 = s.update(i, s[i] ^ (1u8 << j));
    assert forall|k: int| 0 <= k < s.len() implies s2[k] == (s[k] ^ e[k]) by {
        if k != i {
            let x = s[k];
            assert(x ^ 0u8 == x) by (bit_vector);
        }
    }
    assert(s2 =~= seq_xor(s, e));
    lemma_crc16_linear(s, e);
    lemma_crc16_single_bit_nonzero(s.len(), i, j);
    let a = spec_crc16(s);
    let b = spec_crc16(e);
    assert(b != 0 ==> a ^ b != a) by (bit_vector);
}

} // verus!
