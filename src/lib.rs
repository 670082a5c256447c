//! A (16,11) extended Hamming code: an 11-bit payload is spread over the
//! non-power-of-two positions of a 16-bit word, four parity bits and one
//! overall parity bit are added, and any single flipped bit can be located
//! and repaired.
pub mod bits;
pub mod block;
pub mod codec;
pub mod theorems;

pub use bits::get_bit_at_position;
pub use block::HammingDataBlock;
pub use codec::{correct, decode, encode, flip_bit, ErrorStatus, HammingError};
