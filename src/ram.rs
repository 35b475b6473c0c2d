//! The chip's 56 bytes of battery-backed user RAM.
use vstd::prelude::*;
use embedded_hal::i2c::I2c;
use crate::register_access::{one_write, rejected, Register, ADDR};
use crate::{Ds1307, Error, Transfer};

verus! {

/// The number of bytes of user RAM.
pub const RAM_BYTE_COUNT: usize = 56;

/// Whether `len` bytes from `offset` on lie within the user RAM.
pub open spec fn ram_span_valid(offset: u8, len: nat) -> bool {
    offset < RAM_BYTE_COUNT && offset + len <= RAM_BYTE_COUNT
}

impl<I2C> Ds1307<I2C> where I2C: I2c {
    /// Read `data.len()` bytes of user RAM from `address_offset` on, in one
    /// transfer. Offsets run from 0 to 55; an empty `data` needs no transfer.
    pub fn read_ram(&mut self, address_offset: u8, data: &mut [u8]) -> (r: Result<(), Error>)
        ensures
            final(data)@.len() == old(data)@.len(),
            old(data)@.len() == 0 ==> r is Ok && final(self).transfers() == old(
                self,
            ).transfers(),
            old(data)@.len() > 0 && !ram_span_valid(address_offset, old(data)@.len()) ==> rejected(
                old(self).transfers(),
                final(self).transfers(),
                r,
            ) && final(data)@ == old(data)@,
            old(data)@.len() > 0 && ram_span_valid(address_offset, old(data)@.len()) ==> {
                &&& final(self).transfers() == old(self).transfers().push(
                    Transfer::WriteRead {
                        address: ADDR,
                        sent: seq![(Register::RAM_BEGIN + address_offset) as u8],
                        received: final(data)@,
                        outcome: final(self).transfers().last().outcome(),
                    },
                )
                &&& r == final(self).transfers().last().result()
            },
    {
        if data.len() == 0 {
            return Ok(());
        }
        self.check_ram_parameters(address_offset, data.len())?;
        let sent: [u8; 1] = [Register::RAM_BEGIN + address_offset];
        let r = self.write_read_bytes(&sent, data);
        assert(sent@ == seq![(Register::RAM_BEGIN + address_offset) as u8]);
        r
    }

    /// Write `data` into user RAM from `address_offset` on, in one transfer.
    /// Offsets run from 0 to 55; an empty `data` needs no transfer.
    pub fn write_ram(&mut self, address_offset: u8, data: &[u8]) -> (r: Result<(), Error>)
        ensures
            data@.len() == 0 ==> r is Ok && final(self).transfers() == old(self).transfers(),
            data@.len() > 0 && !ram_span_valid(address_offset, data@.len()) ==> rejected(
                old(self).transfers(),
                final(self).transfers(),
                r,
            ),
            data@.len() > 0 && ram_span_valid(address_offset, data@.len()) ==> one_write(
                old(self).transfers(),
                final(self).transfers(),
                seq![(Register::RAM_BEGIN + address_offset) as u8] + data@,
                r,
            ),
    {
        if data.len() == 0 {
            return Ok(());
        }
        self.check_ram_parameters(address_offset, data.len())?;
        let mut payload: Vec<u8> = Vec::new();
        payload.push(Register::RAM_BEGIN + address_offset);
        let mut i: usize = 0;
        while i < data.len()
            invariant
                i <= data@.len(),
                payload@ == seq![(Register::RAM_BEGIN + address_offset) as u8] + data@.take(
                    i as int,
                ),
            decreases data@.len() - i,
        {
            payload.push(data[i]);
            i = i + 1;
            assert(payload@ =~= seq![(Register::RAM_BEGIN + address_offset) as u8] + data@.take(
                i as int,
            ));
        }
        assert(data@.take(data@.len() as int) =~= data@);
        self.write_bytes(payload.as_slice())
    }

    /// Whether `len` bytes from `address_offset` on lie within the user RAM.
    fn check_ram_parameters(&self, address_offset: u8, len: usize) -> (r: Result<(), Error>)
        ensures
            r is Ok == ram_span_valid(address_offset, len as nat),
            r matches Err(e) ==> e is InvalidInputData,
    {
        if address_offset as usize >= RAM_BYTE_COUNT
            || len > RAM_BYTE_COUNT - address_offset as usize {
            return Err(Error::InvalidInputData);
        }
        Ok(())
    }
}

} // verus!
