//! Register map, bit masks, and the bus transfers on which every accessor
//! is built.
use vstd::prelude::*;
use embedded_hal::i2c::{Error as _, ErrorKind, I2c};
use crate::{fails_with, Ds1307, Error, Transfer};

verus! {

/// Register addresses.
pub struct Register;

impl Register {
    pub const SECONDS: u8 = 0x00;
    pub const MINUTES: u8 = 0x01;
    pub const HOURS: u8 = 0x02;
    pub const DOW: u8 = 0x03;
    pub const DOM: u8 = 0x04;
    pub const MONTH: u8 = 0x05;
    pub const YEAR: u8 = 0x06;
    pub const SQWOUT: u8 = 0x07;
    pub const RAM_BEGIN: u8 = 0x08;
    pub const RAM_END: u8 = 0x3F;
}

/// Bit masks within registers.
pub struct BitFlags;

impl BitFlags {
    pub const H24_H12: u8 = 0b0100_0000;
    pub const AM_PM: u8 = 0b0010_0000;
    pub const CH: u8 = 0b1000_0000;
    pub const SQWE: u8 = 0b0001_0000;
    pub const OUTLEVEL: u8 = 0b1000_0000;
    pub const OUTRATERS0: u8 = 0b0000_0001;
    pub const OUTRATERS1: u8 = 0b0000_0010;
}

/// The chip's fixed 7-bit bus address.
pub const ADDR: u8 = 0b110_1000;

/// Relies on embedded_hal's `I2c::write`: writes `bytes` to `address` in one
/// transaction and hands back the kind of error the bus reported, if any.
#[verifier::external_body]
fn i2c_write<I2C: I2c>(i2c: &mut I2C, address: u8, bytes: &[u8]) -> (r: Result<(), ErrorKind>) {
    i2c.write(address, bytes).map_err(|e| e.kind())
}

/// Relies on embedded_hal's `I2c::write_read`: writes `bytes` to `address`,
/// then reads into `read`, in one transaction. The slice keeps its length.
#[verifier::external_body]
fn i2c_write_read<I2C: I2c>(
    i2c: &mut I2C,
    address: u8,
    bytes: &[u8],
    read: &mut [u8],
) -> (r: Result<(), ErrorKind>)
    ensures
        final(read)@.len() == old(read)@.len(),
{
    i2c.write_read(address, bytes, read).map_err(|e| e.kind())
}

/// The log `after` is `before` with exactly one more transfer: a one-byte
/// read of register `reg`.
pub open spec fn one_read(before: Seq<Transfer>, after: Seq<Transfer>, reg: u8) -> bool {
    &&& after.len() == before.len() + 1
    &&& after.drop_last() == before
    &&& after.last().is_read_of(reg)
}

/// The first transfer of `after` that `before` does not hold.
pub open spec fn first_new(before: Seq<Transfer>, after: Seq<Transfer>) -> Transfer {
    after[before.len() as int]
}

/// The log `after` is `before` with a one-byte read of register `reg` and,
/// where the read succeeded and `write` holds bytes, a write of those bytes.
/// `r` reports the last of these transfers.
pub open spec fn read_then_maybe_write(
    before: Seq<Transfer>,
    after: Seq<Transfer>,
    reg: u8,
    write: Option<Seq<u8>>,
    r: Result<(), Error>,
) -> bool {
    let rd = first_new(before, after);
    &&& after.len() > before.len()
    &&& after.take(before.len() as int) == before
    &&& rd.is_read_of(reg)
    &&& if !rd.succeeded() {
        after.len() == before.len() + 1 && fails_with(r, rd)
    } else {
        match write {
            None => after.len() == before.len() + 1 && r is Ok,
            Some(bytes) => {
                &&& after.len() == before.len() + 2
                &&& after.last().is_write_of(bytes)
                &&& r == after.last().result()
            },
        }
    }
}

/// The log `after` is `before` with one write of `bytes`, which `r` reports.
pub open spec fn one_write(
    before: Seq<Transfer>,
    after: Seq<Transfer>,
    bytes: Seq<u8>,
    r: Result<(), Error>,
) -> bool {
    &&& after.len() == before.len() + 1
    &&& after.drop_last() == before
    &&& after.last().is_write_of(bytes)
    &&& r == after.last().result()
}

/// The log `after` is `before` with one more transfer: a read of `n`
/// consecutive registers of the chip from `start` on.
pub open spec fn block_read(
    before: Seq<Transfer>,
    after: Seq<Transfer>,
    start: u8,
    n: nat,
) -> bool {
    &&& after.len() == before.len() + 1
    &&& after.drop_last() == before
    &&& after.last() matches Transfer::WriteRead { sent, received, .. }
    &&& after.last().address() == ADDR
    &&& after.last()->sent == seq![start]
    &&& after.last()->received.len() == n
}

/// `r` reports the transfer `t`: `value` where it succeeded, the bus's error
/// where it did not.
pub open spec fn reports<T>(t: Transfer, r: Result<T, Error>, value: T) -> bool {
    if t.succeeded() {
        r == Ok::<T, Error>(value)
    } else {
        fails_with(r, t)
    }
}

/// `r` reports the read `t` of a date or a time: its bus error where it
/// failed, else `value` where `valid` holds, and invalid data where not.
pub open spec fn reports_checked<T>(
    t: Transfer,
    r: Result<T, Error>,
    valid: bool,
    value: T,
) -> bool {
    if !t.succeeded() {
        fails_with(r, t)
    } else if valid {
        r == Ok::<T, Error>(value)
    } else {
        r matches Err(e) && e is InvalidInputData
    }
}

/// A call rejected its arguments before any transfer.
pub open spec fn rejected<T>(
    before: Seq<Transfer>,
    after: Seq<Transfer>,
    r: Result<T, Error>,
) -> bool {
    &&& after == before
    &&& r matches Err(e) && e is InvalidInputData
}

/// The write into register `reg` that makes the bits of `mask` in `current`
/// all set (`high`) or all clear; none where they already are.
pub open spec fn bit_update(reg: u8, current: u8, mask: u8, high: bool) -> Option<Seq<u8>> {
    if high {
        if current & mask == 0 { Some(seq![reg, current | mask]) } else { None }
    } else {
        if current & mask != 0 { Some(seq![reg, current & !mask]) } else { None }
    }
}

/// A flag setter that reads `reg` and succeeds in reading it writes nothing
/// where the bits of `mask` already are as wanted, and writes once otherwise:
/// the log grows by the read alone, or by the read and one write.
pub proof fn lemma_flag_write_only_when_needed(
    before: Seq<Transfer>,
    after: Seq<Transfer>,
    reg: u8,
    mask: u8,
    high: bool,
    r: Result<(), Error>,
)
    requires
        read_then_maybe_write(
            before,
            after,
            reg,
            bit_update(reg, first_new(before, after).read_byte(), mask, high),
            r,
        ),
        first_new(before, after).succeeded(),
    ensures
        ({
            let current = first_new(before, after).read_byte();
            let already = if high { current & mask != 0 } else { current & mask == 0 };
            &&& already ==> after.len() == before.len() + 1 && r is Ok
            &&& !already ==> after.len() == before.len() + 2 && after.last() is Write
        }),
{
}

impl<I2C> Ds1307<I2C> where I2C: I2c {
    /// One write transfer of `bytes`.
    pub(crate) fn write_bytes(&mut self, bytes: &[u8]) -> (r: Result<(), Error>)
        ensures
            one_write(old(self).transfers(), final(self).transfers(), bytes@, r),
    {
        let ghost before = self.log@;
        let address: u8 = ADDR;
        let res = i2c_write(&mut self.i2c, address, bytes);
        self.log = Ghost(self.log@.push(Transfer::Write { address, bytes: bytes@, outcome: res }));
        assert(self.log@.drop_last() =~= before);
        match res {
            Ok(()) => Ok(()),
            Err(e) => Err(Error::I2C(e)),
        }
    }

    /// One transfer that writes `bytes` and then fills `read`.
    pub(crate) fn write_read_bytes(&mut self, bytes: &[u8], read: &mut [u8]) -> (r: Result<
        (),
        Error,
    >)
        ensures
            final(read)@.len() == old(read)@.len(),
            final(self).transfers() == old(self).transfers().push(
                Transfer::WriteRead {
                    address: ADDR,
                    sent: bytes@,
                    received: final(read)@,
                    outcome: final(self).transfers().last().outcome(),
                },
            ),
            r == final(self).transfers().last().result(),
    {
        let address: u8 = ADDR;
        let res = i2c_write_read(&mut self.i2c, address, bytes, read);
        self.log = Ghost(
            self.log@.push(
                Transfer::WriteRead { address, sent: bytes@, received: read@, outcome: res },
            ),
        );
        match res {
            Ok(()) => Ok(()),
            Err(e) => Err(Error::I2C(e)),
        }
    }

    /// Write `data` into register `register`.
    pub(crate) fn write_register(&mut self, register: u8, data: u8) -> (r: Result<(), Error>)
        ensures
            one_write(old(self).transfers(), final(self).transfers(), seq![register, data], r),
    {
        let payload: [u8; 2] = [register, data];
        let r = self.write_bytes(&payload);
        assert(payload@ == seq![register, data]);
        r
    }

    /// Read register `register`.
    pub(crate) fn read_register(&mut self, register: u8) -> (r: Result<u8, Error>)
        ensures
            one_read(old(self).transfers(), final(self).transfers(), register),
            reports(final(self).transfers().last(), r, final(self).transfers().last().read_byte()),
    {
        let sent: [u8; 1] = [register];
        let mut data: [u8; 1] = [0];
        let res = self.write_read_bytes(&sent, &mut data);
        assert(sent@ == seq![register]);
        assert(final(self).transfers().drop_last() == old(self).transfers());
        match res {
            Ok(()) => Ok(data[0]),
            Err(e) => Err(e),
        }
    }

    /// Whether any bit of `bitmask` is set in register `address`.
    pub(crate) fn register_bit_flag_high(&mut self, address: u8, bitmask: u8) -> (r: Result<
        bool,
        Error,
    >)
        ensures
            one_read(old(self).transfers(), final(self).transfers(), address),
            reports(
                final(self).transfers().last(),
                r,
                final(self).transfers().last().read_byte() & bitmask != 0,
            ),
    {
        let data = self.read_register(address)?;
        Ok((data & bitmask) != 0)
    }

    /// Set the bits of `bitmask` in register `address`; no write where they
    /// are already set.
    pub(crate) fn set_register_bit_flag(&mut self, address: u8, bitmask: u8) -> (r: Result<
        (),
        Error,
    >)
        ensures
            read_then_maybe_write(
                old(self).transfers(),
                final(self).transfers(),
                address,
                bit_update(
                    address,
                    first_new(old(self).transfers(), final(self).transfers()).read_byte(),
                    bitmask,
                    true,
                ),
                r,
            ),
    {
        let ghost before = self.transfers();
        let res = self.read_register(address);
        let ghost mid = self.transfers();
        assert(mid.take(before.len() as int) =~= before);
        match res {
            Err(e) => Err(e),
            Ok(data) => {
                if (data & bitmask) == 0 {
                    let r = self.write_register(address, data | bitmask);
                    assert(self.transfers().take(before.len() as int) =~= before);
                    assert(first_new(before, self.transfers()) == mid.last());
                    r
                } else {
                    Ok(())
                }
            },
        }
    }

    /// Clear the bits of `bitmask` in register `address`; no write where they
    /// are already clear.
    pub(crate) fn clear_register_bit_flag(&mut self, address: u8, bitmask: u8) -> (r: Result<
        (),
        Error,
    >)
        ensures
            read_then_maybe_write(
                old(self).transfers(),
                final(self).transfers(),
                address,
                bit_update(
                    address,
                    first_new(old(self).transfers(), final(self).transfers()).read_byte(),
                    bitmask,
                    false,
                ),
                r,
            ),
    {
        let ghost before = self.transfers();
        let res = self.read_register(address);
        let ghost mid = self.transfers();
        assert(mid.take(before.len() as int) =~= before);
        match res {
            Err(e) => Err(e),
            Ok(data) => {
                if (data & bitmask) != 0 {
                    let r = self.write_register(address, data & !bitmask);
                    assert(self.transfers().take(before.len() as int) =~= before);
                    assert(first_new(before, self.transfers()) == mid.last());
                    r
                } else {
                    Ok(())
                }
            },
        }
    }
}

} // verus!
