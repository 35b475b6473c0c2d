//! Square-wave output control: the enable bit, the output level bit and
//! the two rate-select bits of the control register.
use vstd::prelude::*;
use embedded_hal::i2c::I2c;
use crate::register_access::{
    bit_update, first_new, one_read, read_then_maybe_write, reports, BitFlags, Register,
};
use crate::{Ds1307, Error};

verus! {

/// Square-wave output rate.
#[derive(Debug, Clone, Copy, PartialEq, Eq, Structural)]
pub enum SqwOutRate {
    /// 1 Hz
    Hz1,
    /// 4.096 kHz
    Khz4_096,
    /// 8.192 kHz
    Khz8_192,
    /// 32.768 kHz
    Khz32_768,
}

/// Square-wave output level.
#[derive(Debug, Clone, Copy, PartialEq, Eq, Structural)]
pub enum SqwOutLevel {
    /// Low
    Low,
    /// High
    High,
}

/// The rate that the control register byte `d` selects.
pub open spec fn rate_of_byte(d: u8) -> SqwOutRate {
    if d & BitFlags::OUTRATERS1 == 0 {
        if d & BitFlags::OUTRATERS0 == 0 { SqwOutRate::Hz1 } else { SqwOutRate::Khz4_096 }
    } else {
        if d & BitFlags::OUTRATERS0 == 0 { SqwOutRate::Khz8_192 } else { SqwOutRate::Khz32_768 }
    }
}

/// The control register byte `current` with its rate-select bits set to `rate`.
pub open spec fn rate_byte(current: u8, rate: SqwOutRate) -> u8 {
    let cleared = current & !BitFlags::OUTRATERS1 & !BitFlags::OUTRATERS0;
    match rate {
        SqwOutRate::Hz1 => cleared,
        SqwOutRate::Khz4_096 => cleared | BitFlags::OUTRATERS0,
        SqwOutRate::Khz8_192 => cleared | BitFlags::OUTRATERS1,
        SqwOutRate::Khz32_768 => cleared | BitFlags::OUTRATERS1 | BitFlags::OUTRATERS0,
    }
}

/// The level that the control register byte `d` selects.
pub open spec fn level_of_byte(d: u8) -> SqwOutLevel {
    if d & BitFlags::OUTLEVEL != 0 { SqwOutLevel::High } else { SqwOutLevel::Low }
}

/// The write into the control register that selects `rate` where `current`
/// selects another one.
pub open spec fn rate_update(current: u8, rate: SqwOutRate) -> Option<Seq<u8>> {
    if rate_of_byte(current) == rate {
        None
    } else {
        Some(seq![Register::SQWOUT, rate_byte(current, rate)])
    }
}

/// Setting the rate selects that rate, keeps every other bit of the control
/// register, and changes nothing exactly where the rate was already selected.
pub proof fn lemma_rate_byte(current: u8, rate: SqwOutRate)
    ensures
        rate_of_byte(rate_byte(current, rate)) == rate,
        rate_byte(current, rate) & 0xFC == current & 0xFC,
        (rate_byte(current, rate) == current) == (rate_of_byte(current) == rate),
{
    let c = current & !2u8 & !1u8;
    assert(c == current & !2u8 & !1u8 ==> c & 2 == 0 && c & 1 == 0 && c & 0xFC == current & 0xFC
        && (c == current) == (current & 2 == 0 && current & 1 == 0)) by (bit_vector);
    assert(c == current & !2u8 & !1u8 ==> (c | 1u8) & 2 == 0 && (c | 1u8) & 1 != 0 && (c | 1u8)
        & 0xFC == current & 0xFC && ((c | 1u8) == current) == (current & 2 == 0 && current & 1
        != 0)) by (bit_vector);
    assert(c == current & !2u8 & !1u8 ==> (c | 2u8) & 2 != 0 && (c | 2u8) & 1 == 0 && (c | 2u8)
        & 0xFC == current & 0xFC && ((c | 2u8) == current) == (current & 2 != 0 && current & 1
        == 0)) by (bit_vector);
    assert(c == current & !2u8 & !1u8 ==> (c | 2u8 | 1u8) & 2 != 0 && (c | 2u8 | 1u8) & 1 != 0
        && (c | 2u8 | 1u8) & 0xFC == current & 0xFC && ((c | 2u8 | 1u8) == current) == (current
        & 2 != 0 && current & 1 != 0)) by (bit_vector);
}

impl<I2C> Ds1307<I2C> where I2C: I2c {
    /// Read whether the square-wave output is enabled.
    pub fn square_wave_output_enabled(&mut self) -> (r: Result<bool, Error>)
        ensures
            one_read(old(self).transfers(), final(self).transfers(), Register::SQWOUT),
            reports(
                final(self).transfers().last(),
                r,
                final(self).transfers().last().read_byte() & BitFlags::SQWE != 0,
            ),
    {
        self.register_bit_flag_high(Register::SQWOUT, BitFlags::SQWE)
    }

    /// Enable the square-wave output; no write where it is already enabled.
    pub fn enable_square_wave_output(&mut self) -> (r: Result<(), Error>)
        ensures
            read_then_maybe_write(
                old(self).transfers(),
                final(self).transfers(),
                Register::SQWOUT,
                bit_update(
                    Register::SQWOUT,
                    first_new(old(self).transfers(), final(self).transfers()).read_byte(),
                    BitFlags::SQWE,
                    true,
                ),
                r,
            ),
    {
        self.set_register_bit_flag(Register::SQWOUT, BitFlags::SQWE)
    }

    /// Disable the square-wave output; no write where it is already disabled.
    pub fn disable_square_wave_output(&mut self) -> (r: Result<(), Error>)
        ensures
            read_then_maybe_write(
                old(self).transfers(),
                final(self).transfers(),
                Register::SQWOUT,
                bit_update(
                    Register::SQWOUT,
                    first_new(old(self).transfers(), final(self).transfers()).read_byte(),
                    BitFlags::SQWE,
                    false,
                ),
                r,
            ),
    {
        self.clear_register_bit_flag(Register::SQWOUT, BitFlags::SQWE)
    }

    /// Read the square-wave output level control bit.
    pub fn get_square_wave_output_level(&mut self) -> (r: Result<SqwOutLevel, Error>)
        ensures
            one_read(old(self).transfers(), final(self).transfers(), Register::SQWOUT),
            reports(
                final(self).transfers().last(),
                r,
                level_of_byte(final(self).transfers().last().read_byte()),
            ),
    {
        if self.register_bit_flag_high(Register::SQWOUT, BitFlags::OUTLEVEL)? {
            Ok(SqwOutLevel::High)
        } else {
            Ok(SqwOutLevel::Low)
        }
    }

    /// Set the square-wave output level; no write where it is already set.
    pub fn set_square_wave_output_level(&mut self, level: SqwOutLevel) -> (r: Result<(), Error>)
        ensures
            read_then_maybe_write(
                old(self).transfers(),
                final(self).transfers(),
                Register::SQWOUT,
                bit_update(
                    Register::SQWOUT,
                    first_new(old(self).transfers(), final(self).transfers()).read_byte(),
                    BitFlags::OUTLEVEL,
                    level == SqwOutLevel::High,
                ),
                r,
            ),
    {
        match level {
            SqwOutLevel::Low => self.clear_register_bit_flag(Register::SQWOUT, BitFlags::OUTLEVEL),
            SqwOutLevel::High => self.set_register_bit_flag(Register::SQWOUT, BitFlags::OUTLEVEL),
        }
    }

    /// Read the square-wave output rate-select bits.
    pub fn get_square_wave_output_rate(&mut self) -> (r: Result<SqwOutRate, Error>)
        ensures
            one_read(old(self).transfers(), final(self).transfers(), Register::SQWOUT),
            reports(
                final(self).transfers().last(),
                r,
                rate_of_byte(final(self).transfers().last().read_byte()),
            ),
    {
        let data = self.read_register(Register::SQWOUT)?;
        let rs1 = (data & BitFlags::OUTRATERS1) != 0;
        let rs0 = (data & BitFlags::OUTRATERS0) != 0;
        match (rs1, rs0) {
            (false, false) => Ok(SqwOutRate::Hz1),
            (false, true) => Ok(SqwOutRate::Khz4_096),
            (true, false) => Ok(SqwOutRate::Khz8_192),
            (true, true) => Ok(SqwOutRate::Khz32_768),
        }
    }

    /// Set the square-wave output rate, keeping the other bits of the control
    /// register; no write where the rate is already selected.
    pub fn set_square_wave_output_rate(&mut self, rate: SqwOutRate) -> (r: Result<(), Error>)
        ensures
            read_then_maybe_write(
                old(self).transfers(),
                final(self).transfers(),
                Register::SQWOUT,
                rate_update(
                    first_new(old(self).transfers(), final(self).transfers()).read_byte(),
                    rate,
                ),
                r,
            ),
    {
        let ghost before = self.transfers();
        let data = match self.read_register(Register::SQWOUT) {
            Ok(v) => v,
            Err(e) => {
                return Err(e);
            },
        };
        let ghost mid = self.transfers();
        assert(mid.take(before.len() as int) =~= before);
        proof {
            lemma_rate_byte(data, rate);
        }
        let cleared = data & !BitFlags::OUTRATERS1 & !BitFlags::OUTRATERS0;
        let sqwout = match rate {
            SqwOutRate::Hz1 => cleared,
            SqwOutRate::Khz4_096 => cleared | BitFlags::OUTRATERS0,
            SqwOutRate::Khz8_192 => cleared | BitFlags::OUTRATERS1,
            SqwOutRate::Khz32_768 => cleared | BitFlags::OUTRATERS1 | BitFlags::OUTRATERS0,
        };
        if sqwout == data {
            return Ok(());
        }
        let r = self.write_register(Register::SQWOUT, sqwout);
        assert(self.transfers().take(before.len() as int) =~= before);
        assert(first_new(before, self.transfers()) == mid.last());
        r
    }
}

} // verus!
