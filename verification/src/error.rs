use vstd::prelude::*;

verus! {

/// Why a read attempt produced no reading.
#[derive(Debug)]
pub enum Error<E> {
    /// Failed I2C communication
    I2C(E),
    /// Failed checksum validation
    BadChecksum,
    /// Couldn't find the "magic bytes" that signal the start of a data frame
    BadMagic,
}

} // verus!
