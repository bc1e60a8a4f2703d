use vstd::prelude::*;

use crate::error::Error;
use crate::frame::{
    byte_sum, checksum_matches, has_magic, CHECKSUM_OFFSET, MAGIC_FIRST, MAGIC_SECOND,
    RESPONSE_LENGTH,
};
use crate::types::{u16_from_be, Reading};

verus! {

/// The 7-bit bus address at which the sensor answers.
pub const DEVICE_ADDRESS: u8 = 0x12;

/// Driver for the PMSA003I sensor
///
/// The driver owns the bus and knows the sensor's address. One read is one
/// bus transaction of [`RESPONSE_LENGTH`] bytes from that address into a
/// zeroed buffer; how the transaction ended is handed to [`Pmsa003i::read`],
/// which checks the frame and decodes it. Nothing is retried and nothing is
/// kept from one read to the next.
///
/// ```ignore
/// let mut pmsa003i = Pmsa003i::new(i2c);
///
/// let address = pmsa003i.address();
/// let mut response = pmsa003i.empty_response();
/// let transfer = pmsa003i.bus_mut().read(address, &mut response).map(|()| response);
/// match pmsa003i.read(transfer) {
///     Ok(reading) => info!("PMSA003I reading: {reading:?}"),
///     Err(error) => error!("Unable to read PMSA003I sensor. Error: {error:?}"),
/// };
/// ```
#[derive(Debug)]
pub struct Pmsa003i<I2C> {
    i2c: I2C,
    address: u8,
}

impl<I2C> Pmsa003i<I2C> {
    /// The bus that the driver owns.
    pub closed spec fn bus(&self) -> I2C {
        self.i2c
    }

    /// The bus address that the driver's transactions go to.
    pub closed spec fn device_address(&self) -> u8 {
        self.address
    }

    /// Creates a new driver instance using the given I2C bus and address 0x12
    pub fn new(i2c: I2C) -> (driver: Self)
        ensures
            driver.bus() == i2c,
            driver.device_address() == DEVICE_ADDRESS,
    {
        Pmsa003i { i2c, address: DEVICE_ADDRESS }
    }

    /// Destroys the driver and returns the used I2C bus
    pub fn destroy(self) -> (i2c: I2C)
        ensures
            i2c == self.bus(),
    {
        self.i2c
    }

    /// The bus address to read from.
    pub fn address(&self) -> (address: u8)
        ensures
            address == self.device_address(),
    {
        self.address
    }

    /// The buffer that a transaction fills: [`RESPONSE_LENGTH`] bytes, all
    /// zero.
    pub fn empty_response(&self) -> (response: [u8; RESPONSE_LENGTH])
        ensures
            forall|i: int| 0 <= i < RESPONSE_LENGTH ==> response[i] == 0,
    {
        [0; RESPONSE_LENGTH]
    }

    /// Lends the bus out for one transaction. Whatever is done to the bus
    /// meanwhile, the address stays.
    pub fn bus_mut(&mut self) -> (i2c: &mut I2C)
        ensures
            *i2c == old(self).bus(),
            final(self).bus() == *final(i2c),
            final(self).device_address() == old(self).device_address(),
    {
        &mut self.i2c
    }

    /// Turns the end of one bus transaction into a reading.
    ///
    /// `transfer` is `Ok` with the filled buffer if the bus reported success,
    /// else `Err` with the cause. A failed transaction is passed on as
    /// [`Error::I2C`] with the same cause; a frame is decoded only if it
    /// begins with the start-of-frame bytes and its checksum matches.
    pub fn read<E>(&mut self, transfer: Result<[u8; RESPONSE_LENGTH], E>) -> (result: Result<
        Reading,
        Error<E>,
    >)
        ensures
            *final(self) == *old(self),
            result is Ok <==> (transfer matches Ok(frame) && has_magic(frame@) && checksum_matches(
                frame@,
            )),
            transfer matches Err(cause) ==> (result matches Err(Error::I2C(passed))
                && passed == cause),
            transfer matches Ok(frame) ==> (!has_magic(frame@)
                ==> result matches Err(Error::BadMagic)),
            transfer matches Ok(frame) ==> (has_magic(frame@) && !checksum_matches(frame@)
                ==> result matches Err(Error::BadChecksum)),
            transfer matches Ok(frame) ==> (has_magic(frame@) && checksum_matches(frame@)
                ==> (result matches Ok(reading) && reading == Reading::decode(frame@))),
    {
        match self.read_raw(transfer) {
            Ok(frame) => Ok(Reading::from(frame)),
            Err(error) => Err(error),
        }
    }

    /// Turns the end of one bus transaction into a checked frame: the frame
    /// itself if the transaction succeeded and the frame is valid, else the
    /// first fault found, in the order bus, start of frame, checksum.
    pub fn read_raw<E>(&mut self, transfer: Result<[u8; RESPONSE_LENGTH], E>) -> (result: Result<
        [u8; RESPONSE_LENGTH],
        Error<E>,
    >)
        ensures
            *final(self) == *old(self),
            result is Ok <==> (transfer matches Ok(frame) && has_magic(frame@) && checksum_matches(
                frame@,
            )),
            transfer matches Err(cause) ==> (result matches Err(Error::I2C(passed))
                && passed == cause),
            transfer matches Ok(frame) ==> (!has_magic(frame@)
                ==> result matches Err(Error::BadMagic)),
            transfer matches Ok(frame) ==> (has_magic(frame@) && !checksum_matches(frame@)
                ==> result matches Err(Error::BadChecksum)),
            transfer matches Ok(frame) ==> (has_magic(frame@) && checksum_matches(frame@)
                ==> (result matches Ok(checked) && checked == frame)),
    {
        let response = match transfer {
            Ok(response) => response,
            Err(cause) => {
                return Err(Error::I2C(cause));
            },
        };

        match self.validate::<E>(response) {
            Ok(()) => Ok(response),
            Err(fault) => Err(fault),
        }
    }

    /// Checks a frame: first that it begins with the start-of-frame bytes,
    /// then that its checksum matches. The first fault found is the one
    /// reported; a frame without the start-of-frame bytes is
    /// [`Error::BadMagic`] whatever its checksum.
    pub fn validate<E>(&self, frame: [u8; RESPONSE_LENGTH]) -> (result: Result<(), Error<E>>)
        ensures
            result is Ok <==> has_magic(frame@) && checksum_matches(frame@),
            !has_magic(frame@) ==> result matches Err(Error::BadMagic),
            has_magic(frame@) && !checksum_matches(frame@)
                ==> result matches Err(Error::BadChecksum),
    {
        if !self.is_start_of_frame(frame) {
            return Err(Error::BadMagic);
        }
        self.check_data_integrity(frame)
    }

    /// Whether `data` begins with the two start-of-frame bytes.
    pub fn is_start_of_frame(&self, data: [u8; RESPONSE_LENGTH]) -> (found: bool)
        ensures
            found == has_magic(data@),
    {
        data[0] == MAGIC_FIRST && data[1] == MAGIC_SECOND
    }

    /// Whether the last two bytes of `data` hold the checksum of the bytes
    /// before them: `Ok` if they do, [`Error::BadChecksum`] if not.
    pub fn check_data_integrity<E>(&self, data: [u8; RESPONSE_LENGTH]) -> (result: Result<
        (),
        Error<E>,
    >)
        ensures
            result is Ok <==> checksum_matches(data@),
            !checksum_matches(data@) ==> result matches Err(Error::BadChecksum),
    {
        let mut sum: u16 = 0;
        let mut i: usize = 0;
        while i < CHECKSUM_OFFSET
            invariant
                i <= CHECKSUM_OFFSET,
                sum == byte_sum(data@.subrange(0, i as int)),
                sum <= 255 * i,
            decreases CHECKSUM_OFFSET - i,
        {
            assert(data@.subrange(0, i + 1).drop_last() =~= data@.subrange(0, i as int));
            sum = sum.wrapping_add(data[i] as u16);
            i += 1;
        }

        let expected_sum = u16_from_be(data[RESPONSE_LENGTH - 2], data[RESPONSE_LENGTH - 1]);

        if sum == expected_sum {
            return Ok(());
        }
        Err(Error::BadChecksum)
    }
}

} // verus!
