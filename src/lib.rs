//! Driver for the DS1307 real-time clock over an I2C bus.
//!
//! The clock keeps its calendar in packed binary-coded decimal registers,
//! controls its oscillator and its square-wave output through single bits,
//! and offers 56 bytes of battery-backed user RAM. Every bus transfer that
//! the driver makes is recorded in a ghost log, and each method states in
//! its contract exactly which transfers it makes and what it returns for
//! every answer of the bus.
use vstd::prelude::*;
use embedded_hal::i2c::I2c;
pub use embedded_hal::i2c::ErrorKind;
pub use rtcc::Hours;

pub mod datetime;
pub mod ram;
pub mod register_access;
pub mod run;
pub mod square_wave;

pub use crate::datetime::{
    decimal_to_packed_bcd, get_h24, get_hour_of_day, get_hours_from_register,
    get_hours_register_value, packed_bcd_to_decimal, Date, DateTime, Time,
};
pub use crate::register_access::{BitFlags, Register, ADDR};
pub use crate::square_wave::{SqwOutLevel, SqwOutRate};

verus! {

/// The hour of day as the chip holds it: 24-hour, or 12-hour with AM or PM.
#[verifier::external_type_specification]
pub struct ExHours(rtcc::Hours);

/// The kind of error that the I2C bus reported.
#[verifier::external_type_specification]
#[verifier::external_body]
pub struct ExErrorKind(embedded_hal::i2c::ErrorKind);

/// All possible errors of this driver.
#[derive(Debug)]
pub enum Error {
    /// The I2C bus reported an error, of this kind.
    I2C(ErrorKind),
    /// An argument was out of its range, or the chip held no valid date or time.
    InvalidInputData,
}

/// One transfer on the bus to the device at `address`, and what the bus
/// reported of it.
pub enum Transfer {
    /// `bytes` were written.
    Write { address: u8, bytes: Seq<u8>, outcome: Result<(), ErrorKind> },
    /// `sent` was written, then `received` was read, in one transaction.
    WriteRead { address: u8, sent: Seq<u8>, received: Seq<u8>, outcome: Result<(), ErrorKind> },
}

impl Transfer {
    /// What the bus reported: success, or the kind of its error.
    pub open spec fn outcome(self) -> Result<(), ErrorKind> {
        match self {
            Transfer::Write { outcome, .. } => outcome,
            Transfer::WriteRead { outcome, .. } => outcome,
        }
    }

    /// The bus address that the transfer went to.
    pub open spec fn address(self) -> u8 {
        match self {
            Transfer::Write { address, .. } => address,
            Transfer::WriteRead { address, .. } => address,
        }
    }

    pub open spec fn succeeded(self) -> bool {
        self.outcome() is Ok
    }

    /// What the driver hands back for this transfer alone: success, or the
    /// bus's error.
    pub open spec fn result(self) -> Result<(), Error> {
        match self.outcome() {
            Ok(()) => Ok(()),
            Err(kind) => Err(Error::I2C(kind)),
        }
    }

    /// A write of exactly `bytes` to the chip.
    pub open spec fn is_write_of(self, bytes: Seq<u8>) -> bool {
        self matches Transfer::Write { address, bytes: b, .. } && address == ADDR && b == bytes
    }

    /// A one-byte read of register `reg` of the chip.
    pub open spec fn is_read_of(self, reg: u8) -> bool {
        self matches Transfer::WriteRead { address, sent, received, .. } && address == ADDR
            && sent == seq![reg] && received.len() == 1
    }

    /// What a one-byte read returned.
    pub open spec fn read_byte(self) -> u8 {
        match self {
            Transfer::WriteRead { received, .. } => received[0],
            Transfer::Write { .. } => 0,
        }
    }

    /// What a read returned.
    pub open spec fn received(self) -> Seq<u8> {
        match self {
            Transfer::WriteRead { received, .. } => received,
            Transfer::Write { .. } => Seq::empty(),
        }
    }
}

/// `r` is the error that the bus reported for the failed transfer `t`.
pub open spec fn fails_with<T>(r: Result<T, Error>, t: Transfer) -> bool {
    match t.outcome() {
        Ok(()) => false,
        Err(kind) => r == Err::<T, Error>(Error::I2C(kind)),
    }
}

/// DS1307 driver: owns the bus through which it reaches the chip.
pub struct Ds1307<I2C> {
    pub(crate) i2c: I2C,
    pub(crate) log: Ghost<Seq<Transfer>>,
}

impl<I2C> Ds1307<I2C> {
    /// The bus that the driver owns.
    pub open(crate) spec fn bus(&self) -> I2C {
        self.i2c
    }

    /// Every transfer made through this driver, oldest first.
    pub open(crate) spec fn transfers(&self) -> Seq<Transfer> {
        self.log@
    }
}

impl<I2C> Ds1307<I2C> where I2C: I2c {
    /// Create a new instance that owns `i2c`.
    pub fn new(i2c: I2C) -> (r: Self)
        ensures
            r.bus() == i2c,
            r.transfers() == Seq::<Transfer>::empty(),
    {
        Ds1307 { i2c, log: Ghost(Seq::empty()) }
    }

    /// Destroy the driver instance and hand back the bus.
    pub fn destroy(self) -> (r: I2C)
        ensures
            r == self.bus(),
    {
        self.i2c
    }
}

} // verus!
