//! Bits and their values: little-endian bit sequences, popcount parity,
//! and little-endian bytes.

use vstd::prelude::*;

verus! {

/// Bit `i` of `v`, counting from the least significant bit.
pub open spec fn bit32(v: u32, i: int) -> bool {
    (v >> (i as u32)) & 1 == 1
}

/// The 32 bits of `v`, least significant first.
pub open spec fn u32_bits(v: u32) -> Seq<bool> {
    Seq::new(32, |i: int| bit32(v, i))
}

/// The number of set entries of `s`.
pub open spec fn ones(s: Seq<bool>) -> nat
    decreases s.len(),
{
    if s.len() == 0 {
        0
    } else {
        ones(s.drop_last()) + if s.last() { 1nat } else { 0nat }
    }
}

/// The number of set bits of `v`.
pub open spec fn popcount(v: u32) -> nat {
    ones(u32_bits(v))
}

/// The SWD data parity of `v`: set when `v` has an odd number of set bits.
pub open spec fn parity_of(v: u32) -> bool {
    popcount(v) % 2 == 1
}

/// The value of the bits `s`, least significant first; bits past the
/// 32nd fall off.
pub open spec fn le_u32(s: Seq<bool>) -> u32
    decreases s.len(),
{
    if s.len() == 0 {
        0
    } else {
        (le_u32(s.drop_first()) << 1u32) | (if s[0] { 1u32 } else { 0u32 })
    }
}

/// The value of the bits `s`, least significant first; bits past the
/// 64th fall off.
pub open spec fn le_u64(s: Seq<bool>) -> u64
    decreases s.len(),
{
    if s.len() == 0 {
        0
    } else {
        (le_u64(s.drop_first()) << 1u64) | (if s[0] { 1u64 } else { 0u64 })
    }
}

/// The `n` lowest bits of the bytes `data`, each byte least significant bit first.
pub open spec fn bytes_bits(data: Seq<u8>, n: nat) -> Seq<bool> {
    Seq::new(n, |i: int| (data[i / 8] >> ((i % 8) as u8)) & 1 == 1)
}

proof fn lemma_le_u32_step(w: u32, b: bool, i: u32)
    requires
        i < 31,
    ensures
        bit32((w << 1u32) | (if b { 1u32 } else { 0u32 }), 0) == b,
        bit32((w << 1u32) | (if b { 1u32 } else { 0u32 }), i + 1) == bit32(w, i as int),
{
    let c: u32 = if b { 1u32 } else { 0u32 };
    assert(c <= 1);
    assert((((w << 1u32) | c) >> 0u32) & 1 == c) by (bit_vector)
        requires
            c <= 1,
    ;
    assert((((w << 1u32) | c) >> (i + 1)) & 1 == (w >> i) & 1) by (bit_vector)
        requires
            c <= 1,
            i < 31,
    ;
}

/// The bits of `le_u32(s)` are those of `s`, and zero above its length.
pub proof fn lemma_le_u32_bits(s: Seq<bool>)
    requires
        s.len() <= 32,
    ensures
        forall|i: int| 0 <= i < s.len() ==> #[trigger] bit32(le_u32(s), i) == s[i],
        forall|i: int| s.len() <= i < 32 ==> !#[trigger] bit32(le_u32(s), i),
    decreases s.len(),
{
    if s.len() > 0 {
        let t = s.drop_first();
        lemma_le_u32_bits(t);
        let w = le_u32(t);
        let c: u32 = if s[0] { 1u32 } else { 0u32 };
        assert forall|i: int| 0 <= i < 32 implies #[trigger] bit32(le_u32(s), i) == (if i == 0 {
            s[0]
        } else {
            bit32(w, i - 1)
        }) by {
            if i == 0 {
                lemma_le_u32_step(w, s[0], 0);
            } else {
                lemma_le_u32_step(w, s[0], (i - 1) as u32);
            }
        }
    } else {
        assert forall|i: int| 0 <= i < 32 implies !#[trigger] bit32(le_u32(s), i) by {
            let k = i as u32;
            assert((0u32 >> k) & 1 == 0) by (bit_vector);
        }
    }
}

/// Reading back the 32 bits of `v` gives `v`.
pub proof fn lemma_le_u32_of_bits(v: u32)
    ensures
        le_u32(u32_bits(v)) == v,
{
    lemma_le_u32_suffix(v, 0);
    assert(u32_bits(v).subrange(0, 32) =~= u32_bits(v));
    assert(v >> 0u32 == v) by (bit_vector);
}

proof fn lemma_le_u32_suffix(v: u32, k: nat)
    requires
        k <= 32,
    ensures
        le_u32(u32_bits(v).subrange(k as int, 32)) == v >> (k as u32),
    decreases 32 - k,
{
    let s = u32_bits(v).subrange(k as int, 32);
    if k == 32 {
        assert(v >> 32u32 == 0) by (bit_vector);
    } else {
        lemma_le_u32_suffix(v, k + 1);
        assert(s.drop_first() =~= u32_bits(v).subrange((k + 1) as int, 32));
        let kk = k as u32;
        assert(((v >> (kk + 1)) << 1u32) | (if (v >> kk) & 1 == 1 { 1u32 } else { 0u32 })
            == v >> kk) by (bit_vector)
            requires
                kk < 32,
        ;
    }
}

/// The set bits of `le_u32(s)` are those of `s`.
pub proof fn lemma_popcount_le_u32(s: Seq<bool>)
    requires
        s.len() == 32,
    ensures
        u32_bits(le_u32(s)) == s,
        popcount(le_u32(s)) == ones(s),
{
    lemma_le_u32_bits(s);
    assert(u32_bits(le_u32(s)) =~= s);
}

/// Flipping one entry changes the count of set entries by one.
pub proof fn lemma_ones_flip(s: Seq<bool>, i: int)
    requires
        0 <= i < s.len(),
    ensures
        ones(s.update(i, !s[i])) + (if s[i] { 1int } else { 0int }) == ones(s) + (if s[i] {
            0int
        } else {
            1int
        }),
    decreases s.len(),
{
    let t = s.update(i, !s[i]);
    if i == s.len() - 1 {
        assert(t.drop_last() =~= s.drop_last());
    } else {
        assert(t.drop_last() =~= s.drop_last().update(i, !s[i]));
        lemma_ones_flip(s.drop_last(), i);
    }
}

/// The value of the first 32 bits of `bits`, least significant first.
pub fn bits_to_byte(bits: &[bool]) -> (r: u32)
    ensures
        r == le_u32(bits@.take(if bits@.len() < 32 { bits@.len() as int } else { 32 })),
{
    let n: usize = if bits.len() < 32 { bits.len() } else { 32 };
    let ghost s = bits@.take(n as int);
    let mut value: u32 = 0;
    let mut i: usize = n;
    while i > 0
        invariant
            i <= n,
            n <= bits@.len(),
            s == bits@.take(n as int),
            value == le_u32(s.subrange(i as int, n as int)),
        decreases i,
    {
        i = i - 1;
        let ghost prev = s.subrange(i as int + 1, n as int);
        assert(s.subrange(i as int, n as int).drop_first() =~= prev);
        value = (value << 1u32) | (if bits[i] { 1u32 } else { 0u32 });
    }
    assert(s.subrange(0, n as int) =~= s);
    value
}

/// The value of the first 64 bits of `bits`, least significant first.
pub fn load_le_u64(bits: &[bool]) -> (r: u64)
    ensures
        r == le_u64(bits@.take(if bits@.len() < 64 { bits@.len() as int } else { 64 })),
{
    let n: usize = if bits.len() < 64 { bits.len() } else { 64 };
    let ghost s = bits@.take(n as int);
    let mut value: u64 = 0;
    let mut i: usize = n;
    while i > 0
        invariant
            i <= n,
            n <= bits@.len(),
            s == bits@.take(n as int),
            value == le_u64(s.subrange(i as int, n as int)),
        decreases i,
    {
        i = i - 1;
        let ghost prev = s.subrange(i as int + 1, n as int);
        assert(s.subrange(i as int, n as int).drop_first() =~= prev);
        value = (value << 1u64) | (if bits[i] { 1u64 } else { 0u64 });
    }
    assert(s.subrange(0, n as int) =~= s);
    value
}

/// The SWD data parity of `v`: whether it has an odd number of set bits.
pub fn parity(v: u32) -> (r: bool)
    ensures
        r == parity_of(v),
{
    let ghost s = u32_bits(v);
    let mut p = false;
    let mut i: u32 = 0;
    while i < 32
        invariant
            i <= 32,
            s == u32_bits(v),
            p == (ones(s.take(i as int)) % 2 == 1),
        decreases 32 - i,
    {
        assert(s.take(i as int + 1).drop_last() =~= s.take(i as int));
        let b = (v >> i) & 1 == 1;
        p = p != b;
        i = i + 1;
    }
    assert(s.take(32) =~= s);
    p
}

/// The bits of `v`, least significant first.
pub fn value_bits(v: u32) -> (r: Vec<bool>)
    ensures
        r@ == u32_bits(v),
{
    let mut out: Vec<bool> = Vec::with_capacity(32);
    let mut i: u32 = 0;
    while i < 32
        invariant
            i <= 32,
            out@ =~= u32_bits(v).take(i as int),
        decreases 32 - i,
    {
        out.push((v >> i) & 1 == 1);
        i = i + 1;
    }
    out
}

/// The little-endian bytes of `x`.
pub fn u64_le_bytes(x: u64) -> (r: Vec<u8>)
    ensures
        r@ == Seq::new(8, |i: int| ((x >> (8 * i) as u64) & 0xff) as u8),
{
    let mut out: Vec<u8> = Vec::with_capacity(8);
    let mut i: u64 = 0;
    while i < 8
        invariant
            i <= 8,
            out@ =~= Seq::new(8, |k: int| ((x >> (8 * k) as u64) & 0xff) as u8).take(i as int),
        decreases 8 - i,
    {
        out.push(((x >> (8 * i)) & 0xff) as u8);
        i = i + 1;
    }
    out
}

} // verus!
