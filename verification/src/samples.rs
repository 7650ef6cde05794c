//! Reading frame data of the 16-bit formats.

use crate::wire::from_le16;
use vstd::prelude::*;

verus! {

/// The 16-bit samples that `bytes` hold, two bytes each, least significant
/// byte first. A last byte without a partner holds no sample.
pub open spec fn samples_le(bytes: Seq<u8>) -> Seq<u16> {
    Seq::new(bytes.len() / 2, |i: int| from_le16(bytes[2 * i], bytes[2 * i + 1]))
}

/// Reads the data of a frame in one of the 16-bit formats as samples.
pub fn vec_u8_to_vec_u16(input: Vec<u8>) -> (samples: Vec<u16>)
    ensures
        samples@ == samples_le(input@),
{
    let count: usize = input.len() / 2;
    let mut samples: Vec<u16> = Vec::with_capacity(count);
    let mut i: usize = 0;
    while i < count
        invariant
            count == input@.len() / 2,
            input@.len() <= usize::MAX,
            i <= count,
            samples@.len() == i,
            forall|j: int|
                0 <= j < i ==> samples@[j] == from_le16(input@[2 * j], input@[2 * j + 1]),
        decreases count - i,
    {
        let low: u16 = input[2 * i] as u16;
        let high: u16 = input[2 * i + 1] as u16;
        samples.push(low + 256 * high);
        i = i + 1;
    }
    samples
}

} // verus!
