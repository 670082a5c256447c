//! What the code guarantees: round trips, clean codewords, and the repair of
//! any single flipped bit.
use vstd::prelude::*;

use crate::bits::{bit_set, folded_parity, lemma_odd_parity_folded, odd_parity};
use crate::codec::{
    corrected, data_position, encoded, flipped, gather, lemma_flip_changes_parity, spread,
    syndrome, with_check, ErrorStatus, CHECK_A, CHECK_B, CHECK_C, CHECK_D, PAYLOAD_LIMIT,
    WHOLE_WORD,
};

verus! {

/// The data positions 3, 5, 6, 7 and 9 to 15, as a mask.
const DATA_POSITIONS: u16 = 0xfee8;

/// Setting a parity bit leaves the positions outside it as they were.
proof fn lemma_with_check_keeps(w: u16, group: u16, parity_bit: u16, other: u16)
    requires
        parity_bit & other == 0,
    ensures
        with_check(w, group, parity_bit) & other == w & other,
{
    assert((w | parity_bit) & other == w & other) by (bit_vector)
        requires
            parity_bit & other == 0,
    ;
}

/// A word clear on a mask is clear on any part of it.
proof fn lemma_clear_on_part(w: u16, mask: u16, part: u16)
    requires
        w & mask == 0,
        part & mask == part,
    ensures
        w & part == 0,
{
    assert(w & part == 0) by (bit_vector)
        requires
            w & mask == 0,
            part & mask == part,
    ;
}

/// Setting the parity bit of a group, where it was clear, makes the group's
/// parity even.
proof fn lemma_with_check_evens(w: u16, group: u16, parity_bit: u16)
    requires
        w & parity_bit == 0,
        parity_bit & group == parity_bit,
        parity_bit == 1 || parity_bit == 2 || parity_bit == 4 || parity_bit == 0x10
            || parity_bit == 0x100,
    ensures
        !odd_parity(with_check(w, group, parity_bit) & group),
{
    lemma_odd_parity_folded(w & group);
    lemma_odd_parity_folded((w | parity_bit) & group);
    assert(folded_parity(w & group) == 1u16 ==> folded_parity((w | parity_bit) & group) == 0u16)
        by (bit_vector)
        requires
            w & parity_bit == 0,
            parity_bit & group == parity_bit,
            parity_bit == 1 || parity_bit == 2 || parity_bit == 4 || parity_bit == 0x10
                || parity_bit == 0x100,
    ;
}

/// Every check passes on a codeword, and its data positions hold the
/// payload as spread.
proof fn lemma_encoded_facts(p: u16)
    requires
        p < PAYLOAD_LIMIT,
    ensures
        !odd_parity(encoded(p) & CHECK_A),
        !odd_parity(encoded(p) & CHECK_B),
        !odd_parity(encoded(p) & CHECK_C),
        !odd_parity(encoded(p) & CHECK_D),
        !odd_parity(encoded(p)),
        encoded(p) & DATA_POSITIONS == spread(p),
{
    let w0 = spread(p);
    let w1 = with_check(w0, CHECK_A, 0x2u16);
    let w2 = with_check(w1, CHECK_B, 0x4u16);
    let w3 = with_check(w2, CHECK_C, 0x10u16);
    let w4 = with_check(w3, CHECK_D, 0x100u16);
    let w5 = with_check(w4, WHOLE_WORD, 0x1u16);
    assert(p < 2048 ==> spread(p) & 0x117u16 == 0 && spread(p) & 0xfee8u16 == spread(p))
        by (bit_vector);
    assert(0x2u16 & 0x115u16 == 0 && 0x2u16 & 0xfee8u16 == 0 && 0x2u16 & 0xaaaau16 == 0x2u16
        && 0x4u16 & 0x111u16 == 0 && 0x4u16 & 0xfee8u16 == 0 && 0x4u16 & 0xaaaau16 == 0
        && 0x4u16 & 0xccccu16 == 0x4u16 && 0x10u16 & 0x101u16 == 0 && 0x10u16 & 0xfee8u16 == 0
        && 0x10u16 & 0xaaaau16 == 0 && 0x10u16 & 0xccccu16 == 0 && 0x10u16 & 0xf0f0u16 == 0x10u16
        && 0x100u16 & 0x1u16 == 0 && 0x100u16 & 0xfee8u16 == 0 && 0x100u16 & 0xaaaau16 == 0
        && 0x100u16 & 0xccccu16 == 0 && 0x100u16 & 0xf0f0u16 == 0 && 0x100u16 & 0xff00u16
        == 0x100u16 && 0x1u16 & 0xfee8u16 == 0 && 0x1u16 & 0xaaaau16 == 0 && 0x1u16 & 0xccccu16
        == 0 && 0x1u16 & 0xf0f0u16 == 0 && 0x1u16 & 0xff00u16 == 0 && 0x1u16 & 0xffffu16 == 0x1u16)
        by (bit_vector);
    assert(0x2u16 & 0x117u16 == 0x2u16 && 0x4u16 & 0x115u16 == 0x4u16 && 0x10u16 & 0x111u16
        == 0x10u16 && 0x100u16 & 0x101u16 == 0x100u16) by (bit_vector);
    assert(0x115u16 & 0x117u16 == 0x115u16 && 0x111u16 & 0x115u16 == 0x111u16 && 0x101u16
        & 0x111u16 == 0x101u16 && 0x1u16 & 0x101u16 == 0x1u16) by (bit_vector);
    lemma_clear_on_part(w0, 0x117u16, 0x115u16);
    lemma_clear_on_part(w0, 0x117u16, 0x2u16);
    lemma_with_check_evens(w0, CHECK_A, 0x2u16);
    lemma_with_check_keeps(w0, CHECK_A, 0x2u16, 0x115u16);
    lemma_with_check_keeps(w0, CHECK_A, 0x2u16, DATA_POSITIONS);

    lemma_clear_on_part(w1, 0x115u16, 0x4u16);
    lemma_clear_on_part(w1, 0x115u16, 0x111u16);
    lemma_with_check_evens(w1, CHECK_B, 0x4u16);
    lemma_with_check_keeps(w1, CHECK_B, 0x4u16, 0x111u16);
    lemma_with_check_keeps(w1, CHECK_B, 0x4u16, DATA_POSITIONS);
    lemma_with_check_keeps(w1, CHECK_B, 0x4u16, CHECK_A);

    lemma_clear_on_part(w2, 0x111u16, 0x10u16);
    lemma_clear_on_part(w2, 0x111u16, 0x101u16);
    lemma_with_check_evens(w2, CHECK_C, 0x10u16);
    lemma_with_check_keeps(w2, CHECK_C, 0x10u16, 0x101u16);
    lemma_with_check_keeps(w2, CHECK_C, 0x10u16, DATA_POSITIONS);
    lemma_with_check_keeps(w2, CHECK_C, 0x10u16, CHECK_A);
    lemma_with_check_keeps(w2, CHECK_C, 0x10u16, CHECK_B);

    lemma_clear_on_part(w3, 0x101u16, 0x100u16);
    lemma_clear_on_part(w3, 0x101u16, 0x1u16);
    lemma_with_check_evens(w3, CHECK_D, 0x100u16);
    lemma_with_check_keeps(w3, CHECK_D, 0x100u16, 0x1u16);
    lemma_with_check_keeps(w3, CHECK_D, 0x100u16, DATA_POSITIONS);
    lemma_with_check_keeps(w3, CHECK_D, 0x100u16, CHECK_A);
    lemma_with_check_keeps(w3, CHECK_D, 0x100u16, CHECK_B);
    lemma_with_check_keeps(w3, CHECK_D, 0x100u16, CHECK_C);

    lemma_with_check_evens(w4, WHOLE_WORD, 0x1u16);
    lemma_with_check_keeps(w4, WHOLE_WORD, 0x1u16, DATA_POSITIONS);
    lemma_with_check_keeps(w4, WHOLE_WORD, 0x1u16, CHECK_A);
    lemma_with_check_keeps(w4, WHOLE_WORD, 0x1u16, CHECK_B);
    lemma_with_check_keeps(w4, WHOLE_WORD, 0x1u16, CHECK_C);
    lemma_with_check_keeps(w4, WHOLE_WORD, 0x1u16, CHECK_D);
    assert(w5 & 0xffffu16 == w5) by (bit_vector);
}

/// Every check passes on a codeword: checks A to D and the overall parity
/// each see an even number of set bits.
pub proof fn lemma_encoded_checks_even(p: u16)
    requires
        p < PAYLOAD_LIMIT,
    ensures
        !odd_parity(encoded(p) & CHECK_A),
        !odd_parity(encoded(p) & CHECK_B),
        !odd_parity(encoded(p) & CHECK_C),
        !odd_parity(encoded(p) & CHECK_D),
        !odd_parity(encoded(p)),
{
    lemma_encoded_facts(p);
}

/// Each payload bit `i` stands in its codeword at `data_position(i)`.
pub proof fn lemma_data_layout(p: u16, i: u16)
    requires
        p < PAYLOAD_LIMIT,
        i < 11,
    ensures
        bit_set(encoded(p), data_position(i)) == bit_set(p, i),
{
    let c = encoded(p);
    lemma_encoded_facts(p);
    assert(bit_set(c, data_position(i)) == bit_set(p, i)) by (bit_vector)
        requires
            c & 0xfee8u16 == spread(p),
            i < 11,
    ;
}

/// Decoding a codeword gives back the payload it was encoded from.
pub proof fn lemma_decode_encode(p: u16)
    requires
        p < PAYLOAD_LIMIT,
    ensures
        gather(encoded(p)) == p,
{
    let c = encoded(p);
    lemma_encoded_facts(p);
    assert(gather(c) == p) by (bit_vector)
        requires
            c & 0xfee8u16 == spread(p),
            p < 2048,
    ;
}

/// A correction pass over a codeword reports no error and leaves it as it is.
pub proof fn lemma_correct_encoded(p: u16)
    requires
        p < PAYLOAD_LIMIT,
    ensures
        corrected(encoded(p)) == (encoded(p), ErrorStatus::NoError),
{
    lemma_encoded_facts(p);
}

/// With one bit of a codeword flipped, a correction pass finds that bit,
/// restores the codeword, and the payload decodes as before.
pub proof fn lemma_single_bit_correction(p: u16, k: u16)
    requires
        p < PAYLOAD_LIMIT,
        k < 16,
    ensures
        corrected(flipped(encoded(p), k)) == (
            encoded(p),
            ErrorStatus::CorrectedSingleBitError(k as u8),
        ),
        gather(corrected(flipped(encoded(p), k)).0) == p,
{
    let c = encoded(p);
    let w = flipped(c, k);
    lemma_encoded_facts(p);
    lemma_flip_changes_parity(c, k);
    lemma_odd_parity_folded(c & CHECK_A);
    lemma_odd_parity_folded(c & CHECK_B);
    lemma_odd_parity_folded(c & CHECK_C);
    lemma_odd_parity_folded(c & CHECK_D);
    lemma_odd_parity_folded(w & CHECK_A);
    lemma_odd_parity_folded(w & CHECK_B);
    lemma_odd_parity_folded(w & CHECK_C);
    lemma_odd_parity_folded(w & CHECK_D);
    assert((folded_parity(w & 0xaaaau16) == 1u16) == (k & 1u16 == 1u16)) by (bit_vector)
        requires
            k < 16,
            w == c ^ (1u16 << k),
            folded_parity(c & 0xaaaau16) == 0u16,
    ;
    assert((folded_parity(w & 0xccccu16) == 1u16) == (k & 2u16 == 2u16)) by (bit_vector)
        requires
            k < 16,
            w == c ^ (1u16 << k),
            folded_parity(c & 0xccccu16) == 0u16,
    ;
    assert((folded_parity(w & 0xf0f0u16) == 1u16) == (k & 4u16 == 4u16)) by (bit_vector)
        requires
            k < 16,
            w == c ^ (1u16 << k),
            folded_parity(c & 0xf0f0u16) == 0u16,
    ;
    assert((folded_parity(w & 0xff00u16) == 1u16) == (k & 8u16 == 8u16)) by (bit_vector)
        requires
            k < 16,
            w == c ^ (1u16 << k),
            folded_parity(c & 0xff00u16) == 0u16,
    ;
    assert(k == (if k & 1u16 == 1u16 {
        1u16
    } else {
        0u16
    }) + (if k & 2u16 == 2u16 {
        2u16
    } else {
        0u16
    }) + (if k & 4u16 == 4u16 {
        4u16
    } else {
        0u16
    }) + (if k & 8u16 == 8u16 {
        8u16
    } else {
        0u16
    })) by (bit_vector)
        requires
            k < 16,
    ;
    assert(syndrome(w) == k);
    assert(flipped(w, k) == c) by (bit_vector)
        requires
            w == c ^ (1u16 << k),
    ;
    lemma_decode_encode(p);
}

/// A corrected word has even overall parity, so a second pass reports no
/// error and changes nothing; on a word with even parity the two passes
/// agree entirely.
pub proof fn lemma_correct_idempotent(x: u16)
    ensures
        corrected(corrected(x).0) == (corrected(x).0, ErrorStatus::NoError),
        !odd_parity(x) ==> corrected(corrected(x).0) == corrected(x),
{
    if odd_parity(x) {
        lemma_flip_changes_parity(x, syndrome(x) as u16);
    }
}

} // verus!
