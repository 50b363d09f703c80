//! Raw ADC sample frames and their integer decodings.
//!
//! A sample grab holds one 3-byte big-endian two's-complement sample per
//! channel, with the channel count fixed by the length of the data it was
//! built from. The float form of a sample (the value divided by the magnitude
//! of the 24-bit minimum when negative, by the 24-bit maximum otherwise) is
//! left to callers, since it adds nothing to the wire contract.

use vstd::prelude::*;

use crate::Error;

verus! {

/// The signed value denoted by a 3-byte big-endian two's-complement sample.
pub open spec fn spec_sample_value(bytes: [u8; 3]) -> int {
    let magnitude = bytes[0] * 0x10000 + bytes[1] * 0x100 + bytes[2];
    if magnitude >= 0x800000 {
        magnitude - 0x1000000
    } else {
        magnitude
    }
}

/// The flattening of per-channel samples into one back-to-back byte sequence.
pub open spec fn spec_flat_bytes(data: Seq<[u8; 3]>) -> Seq<u8>
    decreases data.len(),
{
    if data.len() == 0 {
        Seq::empty()
    } else {
        spec_flat_bytes(data.drop_last()) + data.last()@
    }
}

/// A signed 24-bit sample value, carried in an `i32`.
#[derive(Debug, Clone, Copy, PartialEq, Eq, Structural)]
pub struct I24 {
    /// The sign-extended value.
    pub value: i32,
}

impl I24 {
    /// Well-formed values lie within the signed 24-bit range.
    pub open spec fn wf(self) -> bool {
        -0x800000 <= self.value < 0x800000
    }

    /// Decode a big-endian two's-complement 3-byte sample.
    pub fn from_be_bytes(bytes: [u8; 3]) -> (r: I24)
        ensures
            r.value == spec_sample_value(bytes),
            r.wf(),
    {
        let magnitude: u32 = (bytes[0] as u32) * 0x10000 + (bytes[1] as u32) * 0x100 + (
        bytes[2] as u32);
        let value: i32 = if magnitude >= 0x800000 {
            (magnitude as i32) - 0x1000000
        } else {
            magnitude as i32
        };
        I24 { value }
    }

    /// The sign-extended value.
    pub fn get(&self) -> (v: i32)
        ensures
            v == self.value,
    {
        self.value
    }
}

/// A single ADC sample grab for all channels
#[derive(Debug, Clone, PartialEq, Eq)]
pub struct SampleGrab {
    /// One 3-byte big-endian two's-complement sample per channel.
    pub data: Vec<[u8; 3]>,
}

impl SampleGrab {
    /// Get a reference to the underlying sample bytes
    pub fn as_bytes(&self) -> (r: &Vec<[u8; 3]>)
        ensures
            r@ == self.data@,
    {
        &self.data
    }

    /// Extract the underlying sample bytes
    pub fn to_bytes(self) -> (r: Vec<[u8; 3]>)
        ensures
            r@ == self.data@,
    {
        self.data
    }

    /// Convert the sample data into an array of signed 24-bit integers
    pub fn into_i24_array(self) -> (values: Vec<I24>)
        ensures
            values@.len() == self.data@.len(),
            forall|k: int|
                0 <= k < self.data@.len() ==> (#[trigger] values@[k]).wf() && values@[k].value
                    == spec_sample_value(self.data@[k]),
    {
        let mut values: Vec<I24> = Vec::new();
        let mut idx: usize = 0;
        while idx < self.data.len()
            invariant
                idx <= self.data@.len(),
                values@.len() == idx,
                forall|k: int|
                    0 <= k < idx ==> (#[trigger] values@[k]).wf() && values@[k].value
                        == spec_sample_value(self.data@[k]),
            decreases self.data@.len() - idx,
        {
            values.push(I24::from_be_bytes(self.data[idx]));
            idx += 1;
        }
        values
    }

    /// Convert the sample data into an array of signed 32-bit integers
    pub fn into_i32_array(self) -> (values: Vec<i32>)
        ensures
            values@.len() == self.data@.len(),
            forall|k: int|
                0 <= k < self.data@.len() ==> #[trigger] values@[k] == spec_sample_value(
                    self.data@[k],
                ),
    {
        let mut values: Vec<i32> = Vec::new();
        let mut idx: usize = 0;
        while idx < self.data.len()
            invariant
                idx <= self.data@.len(),
                values@.len() == idx,
                forall|k: int|
                    0 <= k < idx ==> #[trigger] values@[k] == spec_sample_value(self.data@[k]),
            decreases self.data@.len() - idx,
        {
            values.push(I24::from_be_bytes(self.data[idx]).get());
            idx += 1;
        }
        values
    }

    /// Flatten the samples into one back-to-back byte buffer, three bytes per
    /// channel, no header. This is the structured-serialization form of a grab.
    pub fn to_flat_bytes(&self) -> (bytes: Vec<u8>)
        ensures
            bytes@ == spec_flat_bytes(self.data@),
            bytes@.len() == 3 * self.data@.len(),
    {
        proof {
            lemma_flat_bytes_len(self.data@);
        }
        let mut bytes: Vec<u8> = Vec::new();
        let mut idx: usize = 0;
        while idx < self.data.len()
            invariant
                idx <= self.data@.len(),
                bytes@ == spec_flat_bytes(self.data@.take(idx as int)),
                bytes@.len() == 3 * idx,
            decreases self.data@.len() - idx,
        {
            let sample = self.data[idx];
            bytes.push(sample[0]);
            bytes.push(sample[1]);
            bytes.push(sample[2]);
            proof {
                let taken = self.data@.take(idx + 1);
                assert(taken.drop_last() =~= self.data@.take(idx as int));
                assert(taken.last()@ =~= seq![sample[0], sample[1], sample[2]]);
                assert(bytes@ =~= spec_flat_bytes(taken.drop_last()) + taken.last()@);
            }
            idx += 1;
        }
        proof {
            assert(self.data@.take(self.data@.len() as int) =~= self.data@);
        }
        bytes
    }

    /// Rebuild a grab of `channels` channels from its flat serialized bytes.
    ///
    /// Succeeds exactly when the buffer holds three bytes per channel; any
    /// other length is a length mismatch.
    pub fn from_flat_bytes(bytes: &Vec<u8>, channels: usize) -> (r: Result<SampleGrab, Error>)
        ensures
            r is Ok <==> bytes@.len() == 3 * channels,
            r matches Ok(grab) ==> grab.data@.len() == channels && spec_flat_bytes(grab.data@)
                == bytes@,
            r is Err ==> r == Err::<SampleGrab, Error>(Error::LengthMismatch),
    {
        if bytes.len() % 3 != 0 || bytes.len() / 3 != channels {
            return Err(Error::LengthMismatch);
        }
        let mut data: Vec<[u8; 3]> = Vec::new();
        let mut idx: usize = 0;
        while idx < channels
            invariant
                idx <= channels,
                bytes@.len() == 3 * channels,
                bytes@.len() <= usize::MAX,
                data@.len() == idx,
                spec_flat_bytes(data@) == bytes@.take(3 * idx),
            decreases channels - idx,
        {
            proof {
                assert(3 * idx + 2 < bytes@.len());
            }
            let base = 3 * idx;
            let sample: [u8; 3] = [bytes[base], bytes[base + 1], bytes[base + 2]];
            let ghost prev = data@;
            data.push(sample);
            proof {
                assert(data@.drop_last() =~= prev);
                assert(spec_flat_bytes(data@) == spec_flat_bytes(prev) + sample@);
                assert(sample@ =~= bytes@.subrange(3 * idx, 3 * idx + 3));
                assert(spec_flat_bytes(data@) =~= bytes@.take(3 * (idx + 1)));
            }
            idx += 1;
        }
        proof {
            assert(bytes@.take(3 * channels as int) =~= bytes@);
        }
        Ok(SampleGrab { data })
    }
}

/// The flat form of per-channel samples holds exactly three bytes per channel.
pub proof fn lemma_flat_bytes_len(data: Seq<[u8; 3]>)
    ensures
        spec_flat_bytes(data).len() == 3 * data.len(),
    decreases data.len(),
{
    if data.len() > 0 {
        lemma_flat_bytes_len(data.drop_last());
    }
}

} // verus!
