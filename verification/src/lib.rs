//! Communication core for a multi-channel delta-sigma ADC on a full-duplex,
//! word-framed serial bus: register word codecs, a pipelined duplex transfer
//! engine, and a raw-sample decoder.

use vstd::prelude::*;

pub mod fields;
pub mod registers;
pub mod sample_grab;
pub mod spi;

verus! {

/// The single error value the library surfaces; which kind occurred is the variant.
#[derive(Debug, Clone, Copy, PartialEq, Eq, Structural)]
pub enum Error {
    /// The underlying bus reported a hard failure.
    SpiIOError,
    /// A serialized sample grab did not hold three bytes per channel.
    LengthMismatch,
}

} // verus!
