//! Bits of a 16-bit word and the parity of a group of them.
use vstd::prelude::*;

verus! {

/// Whether the bit at `k` of `w` is set (position 0 is the least significant).
pub open spec fn bit_set(w: u16, k: u16) -> bool {
    (w >> k) & 1u16 == 1u16
}

/// How many of the positions `0 .. n` of `w` hold a set bit.
pub open spec fn ones_below(w: u16, n: nat) -> nat
    decreases n,
{
    if n == 0 {
        0
    } else {
        ones_below(w, (n - 1) as nat) + if bit_set(w, (n - 1) as u16) {
            1nat
        } else {
            0nat
        }
    }
}

/// Whether `w` holds an odd number of set bits.
pub open spec fn odd_parity(w: u16) -> bool {
    ones_below(w, 16) % 2 == 1
}

/// The parity of `w` as a single bit, folded together with xor.
pub open spec fn folded_parity(w: u16) -> u16 {
    let a = w ^ (w >> 8u16);
    let b = a ^ (a >> 4u16);
    let c = b ^ (b >> 2u16);
    (c ^ (c >> 1u16)) & 1u16
}

/// The positions `0 .. n` of a word, as a mask.
pub open spec fn low_mask(n: u16) -> u16 {
    if n >= 16 {
        0xffffu16
    } else {
        ((1u16 << n) - 1u16) as u16
    }
}

proof fn lemma_folded_step(w: u16, n: u16)
    requires
        n < 16,
    ensures
        folded_parity(w & low_mask((n + 1) as u16)) == folded_parity(w & low_mask(n)) ^ ((w
            >> n) & 1u16),
{
    let m = (n + 1) as u16;
    assert(n < 16 && m == n + 1 ==> folded_parity(w & low_mask(m)) == folded_parity(
        w & low_mask(n),
    ) ^ ((w >> n) & 1u16)) by (bit_vector);
}

proof fn lemma_ones_below_folded(w: u16, n: nat)
    requires
        n <= 16,
    ensures
        (ones_below(w, n) % 2 == 1) == (folded_parity(w & low_mask(n as u16)) == 1u16),
    decreases n,
{
    if n == 0 {
        assert(folded_parity(w & low_mask(0u16)) == 0u16) by (bit_vector);
    } else {
        let k = (n - 1) as nat;
        let j = k as u16;
        lemma_ones_below_folded(w, k);
        lemma_folded_step(w, j);
        let prev = folded_parity(w & low_mask(j));
        let b = (w >> j) & 1u16;
        assert(prev <= 1u16 && b <= 1u16 && ((prev ^ b) == 1u16) == ((prev == 1u16) != (b
            == 1u16))) by (bit_vector)
            requires
                prev == folded_parity(w & low_mask(j)),
                b == (w >> j) & 1u16,
        ;
    }
}

/// The parity of a word, as counted bit by bit, agrees with the xor fold.
pub proof fn lemma_odd_parity_folded(w: u16)
    ensures
        odd_parity(w) == (folded_parity(w) == 1u16),
        folded_parity(w) <= 1u16,
{
    lemma_ones_below_folded(w, 16);
    assert(folded_parity(w) <= 1u16) by (bit_vector);
    assert(w & low_mask(16u16) == w) by (bit_vector);
}

/// Reads the bit at `position` of `data`.
pub fn get_bit_at_position(data: &u16, position: u8) -> (r: bool)
    requires
        position < 16,
    ensures
        r == bit_set(*data, position as u16),
{
    let d: u16 = *data;
    let p: u16 = position as u16;
    assert(p < 16 ==> ((d & (1u16 << p)) > 0) == ((d >> p) & 1u16 == 1u16)) by (bit_vector);
    d & (1u16 << p) > 0
}

/// Whether `word` holds an odd number of set bits, counted position by position.
pub fn parity_odd(word: u16) -> (r: bool)
    ensures
        r == odd_parity(word),
{
    let mut count: u8 = 0;
    let mut i: u8 = 0;
    while i < 16
        invariant
            i <= 16,
            count <= i,
            count == ones_below(word, i as nat),
        decreases 16 - i,
    {
        if get_bit_at_position(&word, i) {
            count = count + 1;
        }
        i = i + 1;
    }
    count % 2 == 1
}

} // verus!
