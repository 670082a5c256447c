//! A codeword kept beside the payload it came from and the codeword as it
//! was first encoded, so that damage and repair can be compared against both.
use vstd::prelude::*;

use crate::codec::{
    correct, corrected, decode, encode, encoded, flip_bit, flipped, gather, ErrorStatus,
    HammingError, PAYLOAD_LIMIT,
};

verus! {

/// A codeword that may be damaged and repaired in place, with the codeword
/// it was created as and the payload it encodes.
#[derive(Debug)]
pub struct HammingDataBlock {
    hammingdata: u16,
    priorhammingdata: u16,
    original: u16,
}

impl HammingDataBlock {
    /// The codeword as it stands now.
    pub closed spec fn value(&self) -> u16 {
        self.hammingdata
    }

    /// The codeword as it was created.
    pub closed spec fn prior_value(&self) -> u16 {
        self.priorhammingdata
    }

    /// The payload the block was created from.
    pub closed spec fn original_value(&self) -> u16 {
        self.original
    }

    /// The payload fits in 11 bits and the creation-time codeword is its
    /// encoding.
    pub open spec fn wf(&self) -> bool {
        &&& self.original_value() < PAYLOAD_LIMIT
        &&& self.prior_value() == encoded(self.original_value())
    }

    /// Encodes `data`; a payload of more than 11 bits is refused.
    pub fn new(data: u16) -> (r: Result<HammingDataBlock, HammingError>)
        ensures
            data < PAYLOAD_LIMIT <==> r is Ok,
            data >= PAYLOAD_LIMIT ==> r == Err::<HammingDataBlock, HammingError>(
                HammingError::InvalidPayload,
            ),
            r matches Ok(b) ==> {
                &&& b.wf()
                &&& b.value() == encoded(data)
                &&& b.prior_value() == encoded(data)
                &&& b.original_value() == data
            },
    {
        match encode(data) {
            Ok(codeword) => Ok(
                HammingDataBlock { hammingdata: codeword, priorhammingdata: codeword, original: data },
            ),
            Err(e) => Err(e),
        }
    }

    /// The codeword as it stands now.
    pub fn get_value(&self) -> (r: u16)
        ensures
            r == self.value(),
    {
        self.hammingdata
    }

    /// The payload the block was created from.
    pub fn get_orignal_value(&self) -> (r: u16)
        ensures
            r == self.original_value(),
    {
        self.original
    }

    /// The codeword as it was created.
    pub fn get_prior_value(&self) -> (r: u16)
        ensures
            r == self.prior_value(),
    {
        self.priorhammingdata
    }

    /// The payload read out of the current codeword, without correction.
    pub fn convert_to_original(&self) -> (r: u16)
        ensures
            r == gather(self.value()),
    {
        decode(self.hammingdata)
    }

    /// Runs a correction pass over the current codeword and reports what it
    /// found.
    pub fn fix(&mut self) -> (r: ErrorStatus)
        ensures
            final(self).value() == corrected(old(self).value()).0,
            r == corrected(old(self).value()).1,
            final(self).prior_value() == old(self).prior_value(),
            final(self).original_value() == old(self).original_value(),
    {
        let (codeword, status) = correct(self.hammingdata);
        self.hammingdata = codeword;
        status
    }

    /// Flips the bit at `position` of the current codeword.
    pub fn zap_bit(&mut self, position: u8)
        requires
            position < 16,
        ensures
            final(self).value() == flipped(old(self).value(), position as u16),
            final(self).prior_value() == old(self).prior_value(),
            final(self).original_value() == old(self).original_value(),
    {
        self.hammingdata = flip_bit(self.hammingdata, position);
    }
}

} // verus!
