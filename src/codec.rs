//! Encoding an 11-bit payload into a 16-bit codeword, locating and repairing
//! a single flipped bit, and reading the payload back.
//!
//! Positions that are powers of two (1, 2, 4, 8) hold the parity bits of the
//! four checks, position 0 holds the parity of the whole word, and the other
//! eleven positions hold the payload, its lowest bit at position 3 and its
//! highest at position 15.
use vstd::prelude::*;

use crate::bits::{folded_parity, lemma_odd_parity_folded, odd_parity, parity_odd};

verus! {

/// Check A: the odd positions 1, 3, 5, 7, 9, 11, 13, 15.
pub const CHECK_A: u16 = 0xaaaa;

/// Check B: positions 2, 3, 6, 7, 10, 11, 14, 15.
pub const CHECK_B: u16 = 0xcccc;

/// Check C: positions 4, 5, 6, 7, 12, 13, 14, 15.
pub const CHECK_C: u16 = 0xf0f0;

/// Check D: the upper half, positions 8 to 15.
pub const CHECK_D: u16 = 0xff00;

/// Every position of the word, covered by the overall parity bit.
pub const WHOLE_WORD: u16 = 0xffff;

/// The number of payload values: a payload has 11 significant bits.
pub const PAYLOAD_LIMIT: u16 = 2048;

/// Why a payload cannot be encoded.
#[derive(Clone, Copy, Debug, PartialEq, Eq, Structural)]
pub enum HammingError {
    /// The payload does not fit in 11 bits.
    InvalidPayload,
}

/// What a correction pass found.
#[derive(Clone, Copy, Debug, PartialEq, Eq, Structural)]
pub enum ErrorStatus {
    /// The overall parity was even: no single-bit error was seen.
    NoError,
    /// The overall parity was odd, and the bit at this position was flipped back.
    CorrectedSingleBitError(u8),
}

/// The payload bits placed at the data positions, every parity position clear.
pub open spec fn spread(p: u16) -> u16 {
    ((p & 0x1u16) << 3u16) | ((p & 0xeu16) << 4u16) | ((p & 0x7f0u16) << 5u16)
}

/// The data positions of `w` packed back into an 11-bit value.
pub open spec fn gather(w: u16) -> u16 {
    ((w >> 3u16) & 0x1u16) | ((w >> 4u16) & 0xeu16) | ((w >> 5u16) & 0x7f0u16)
}

/// The position that holds payload bit `i`, for `i < 11`.
pub open spec fn data_position(i: u16) -> u16 {
    if i == 0 {
        3
    } else if i < 4 {
        (i + 4) as u16
    } else {
        (i + 5) as u16
    }
}

/// `w` with `parity_bit` set where the positions of `group` hold an odd
/// number of set bits, so that the group's parity becomes even.
pub open spec fn with_check(w: u16, group: u16, parity_bit: u16) -> u16 {
    if odd_parity(w & group) {
        w | parity_bit
    } else {
        w
    }
}

/// The codeword of payload `p`: the spread payload, then the parity bits of
/// checks A to D, then the overall parity bit.
pub open spec fn encoded(p: u16) -> u16 {
    let w1 = with_check(spread(p), CHECK_A, 0x2u16);
    let w2 = with_check(w1, CHECK_B, 0x4u16);
    let w3 = with_check(w2, CHECK_C, 0x10u16);
    let w4 = with_check(w3, CHECK_D, 0x100u16);
    with_check(w4, WHOLE_WORD, 0x1u16)
}

/// `w` with the bit at `k` toggled.
pub open spec fn flipped(w: u16, k: u16) -> u16 {
    w ^ (1u16 << k)
}

/// The position that the four checks point at: check A gives its lowest
/// bit, check D its highest.
pub open spec fn syndrome(w: u16) -> nat {
    (if odd_parity(w & CHECK_A) {
        1nat
    } else {
        0nat
    }) + (if odd_parity(w & CHECK_B) {
        2nat
    } else {
        0nat
    }) + (if odd_parity(w & CHECK_C) {
        4nat
    } else {
        0nat
    }) + (if odd_parity(w & CHECK_D) {
        8nat
    } else {
        0nat
    })
}

/// The corrected word and the status of a correction pass over `w`: an even
/// overall parity leaves `w` as it is; an odd one flips the bit at the
/// syndrome.
pub open spec fn corrected(w: u16) -> (u16, ErrorStatus) {
    if !odd_parity(w) {
        (w, ErrorStatus::NoError)
    } else {
        (flipped(w, syndrome(w) as u16), ErrorStatus::CorrectedSingleBitError(syndrome(w) as u8))
    }
}

/// Toggles the bit at `position` of `codeword`.
pub fn flip_bit(codeword: u16, position: u8) -> (r: u16)
    requires
        position < 16,
    ensures
        r == flipped(codeword, position as u16),
{
    codeword ^ (1u16 << (position as u16))
}

/// Sets `parity_bit` in `word` where the positions of `group` hold an odd
/// number of set bits.
fn set_check(word: u16, group: u16, parity_bit: u16) -> (r: u16)
    ensures
        r == with_check(word, group, parity_bit),
{
    if parity_odd(word & group) {
        word | parity_bit
    } else {
        word
    }
}

/// Encodes an 11-bit payload into its 16-bit codeword.
pub fn encode(payload: u16) -> (r: Result<u16, HammingError>)
    ensures
        payload < PAYLOAD_LIMIT ==> r == Ok::<u16, HammingError>(encoded(payload)),
        payload >= PAYLOAD_LIMIT ==> r == Err::<u16, HammingError>(HammingError::InvalidPayload),
{
    if payload >= PAYLOAD_LIMIT {
        return Err(HammingError::InvalidPayload);
    }
    // Shift the payload up to position 5, then open a gap at position 8 and
    // another at position 4.
    let shifted: u16 = payload << 5u16;
    let opened: u16 = (shifted & 0xfe00u16) | ((shifted & !0xfe00u16) >> 1u16);
    let mut word: u16 = (opened & 0xffe0u16) | ((opened & !0xffe0u16) >> 1u16);
    assert(word == spread(payload)) by (bit_vector)
        requires
            payload < 2048,
            shifted == payload << 5u16,
            opened == (shifted & 0xfe00u16) | ((shifted & !0xfe00u16) >> 1u16),
            word == (opened & 0xffe0u16) | ((opened & !0xffe0u16) >> 1u16),
    ;
    word = set_check(word, CHECK_A, 0x2u16);
    word = set_check(word, CHECK_B, 0x4u16);
    word = set_check(word, CHECK_C, 0x10u16);
    word = set_check(word, CHECK_D, 0x100u16);
    word = set_check(word, WHOLE_WORD, 0x1u16);
    Ok(word)
}

/// Checks the overall parity of `codeword` and, where it is odd, flips back
/// the bit that checks A to D point at.
pub fn correct(codeword: u16) -> (r: (u16, ErrorStatus))
    ensures
        r == corrected(codeword),
        !odd_parity(r.0),
{
    if !parity_odd(codeword) {
        return (codeword, ErrorStatus::NoError);
    }
    let mut position: u8 = 0;
    if parity_odd(codeword & CHECK_A) {
        position = position + 1;
    }
    if parity_odd(codeword & CHECK_B) {
        position = position + 2;
    }
    if parity_odd(codeword & CHECK_C) {
        position = position + 4;
    }
    if parity_odd(codeword & CHECK_D) {
        position = position + 8;
    }
    let fixed = flip_bit(codeword, position);
    proof {
        lemma_flip_changes_parity(codeword, position as u16);
    }
    (fixed, ErrorStatus::CorrectedSingleBitError(position))
}

/// Reads the payload out of the data positions of `codeword`.
pub fn decode(codeword: u16) -> (r: u16)
    ensures
        r == gather(codeword),
        r < PAYLOAD_LIMIT,
{
    // Drop positions 0 to 2, then close the gaps left by positions 4 and 8.
    let shifted: u16 = codeword >> 3u16;
    let closed: u16 = (shifted & 0x1u16) | ((shifted & 0x1ffcu16) >> 1u16);
    let word: u16 = (closed & 0xfu16) | ((closed & 0xfe0u16) >> 1u16);
    assert(word == gather(codeword) && word < 2048) by (bit_vector)
        requires
            shifted == codeword >> 3u16,
            closed == (shifted & 0x1u16) | ((shifted & 0x1ffcu16) >> 1u16),
            word == (closed & 0xfu16) | ((closed & 0xfe0u16) >> 1u16),
    ;
    word
}

/// Toggling one bit of a word toggles its overall parity.
pub proof fn lemma_flip_changes_parity(w: u16, k: u16)
    requires
        k < 16,
    ensures
        odd_parity(flipped(w, k)) == !odd_parity(w),
{
    lemma_odd_parity_folded(w);
    lemma_odd_parity_folded(flipped(w, k));
    assert(k < 16 ==> (folded_parity(w ^ (1u16 << k)) == 1u16) == !(folded_parity(w) == 1u16))
        by (bit_vector);
}

} // verus!
