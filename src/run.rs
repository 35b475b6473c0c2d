//! Oscillator control: the clock-halt bit of the seconds register.
use vstd::prelude::*;
use embedded_hal::i2c::I2c;
use crate::register_access::{
    bit_update, first_new, one_read, read_then_maybe_write, reports, BitFlags, Register,
};
use crate::{Ds1307, Error};

verus! {

impl<I2C> Ds1307<I2C> where I2C: I2c {
    /// Read whether the clock is running: its halt bit is clear.
    pub fn running(&mut self) -> (r: Result<bool, Error>)
        ensures
            one_read(old(self).transfers(), final(self).transfers(), Register::SECONDS),
            reports(
                final(self).transfers().last(),
                r,
                final(self).transfers().last().read_byte() & BitFlags::CH == 0,
            ),
    {
        Ok(!self.register_bit_flag_high(Register::SECONDS, BitFlags::CH)?)
    }

    /// Set the clock to run (the default on power-on); no write where it
    /// already runs.
    pub fn set_running(&mut self) -> (r: Result<(), Error>)
        ensures
            read_then_maybe_write(
                old(self).transfers(),
                final(self).transfers(),
                Register::SECONDS,
                bit_update(
                    Register::SECONDS,
                    first_new(old(self).transfers(), final(self).transfers()).read_byte(),
                    BitFlags::CH,
                    false,
                ),
                r,
            ),
    {
        self.clear_register_bit_flag(Register::SECONDS, BitFlags::CH)
    }

    /// Halt the clock; no write where it is already halted.
    pub fn halt(&mut self) -> (r: Result<(), Error>)
        ensures
            read_then_maybe_write(
                old(self).transfers(),
                final(self).transfers(),
                Register::SECONDS,
                bit_update(
                    Register::SECONDS,
                    first_new(old(self).transfers(), final(self).transfers()).read_byte(),
                    BitFlags::CH,
                    true,
                ),
                r,
            ),
    {
        self.set_register_bit_flag(Register::SECONDS, BitFlags::CH)
    }
}

} // verus!
