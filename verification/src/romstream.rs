//! Streaming ROM reader: a finite sequence of bytes covering the whole ROM,
//! auto-advancing the ROM bank at 16 KiB boundaries.
//!
//! Bank 0 is the fixed home bank, read directly at `0x0000..0x4000` with no
//! bank-select call; banks from 1 up are read through the switchable window
//! at `0x4000..0x8000` under their bank-local offset.  The sequence is not
//! restartable mid-stream — bank state is stateful hardware — so a fresh
//! pass needs a fresh reader.
use vstd::prelude::*;

use crate::cart::{
    active_ram_bank, active_rom_bank, at_reset, bus_read, bus_write, cart_wf, ram_accessible,
    rom_geometry_ok, Cartridge, CartModel,
};
use crate::driver::{selected_ram_bank, rom_bank_width, MbcDriver};
use crate::header::{has_ram_banking, parse_header, CartridgeHeader, MbcType};
use crate::MbcError;

verus! {

/// The streaming reader: the driver it reads through, the total ROM byte
/// count, and the cursor over `[0, total)`.
pub struct MbcReader {
    pub drv: MbcDriver,
    pub total: usize,
    pub cursor: usize,
}

impl MbcReader {
    /// Well-formedness: the driver is sound, the total is the ROM image
    /// size, the cursor has not run past the end, and the ROM fits the
    /// family's bank registers.
    pub open spec fn inv(self) -> bool {
        &&& self.drv.inv()
        &&& self.total == self.drv.cart@.rom.len()
        &&& self.cursor <= self.total
        &&& rom_geometry_ok(self.drv.mbc, self.total as int)
    }

    /// Total ROM byte count the stream will deliver.
    pub fn size(&self) -> (n: usize)
        ensures
            n == self.total,
    {
        self.total
    }

    /// Progress snippet: the ROM bank the driver currently has selected.
    /// Rendering it for a console is the caller's concern.
    pub fn status(&self) -> (b: u16)
        ensures
            b == self.drv.state.rom_bank,
    {
        self.drv.state.rom_bank
    }

    /// Fills `buf` with the next bytes of the ROM and returns how many were
    /// written: the buffer's length, or less at the end of the stream.  The
    /// result is 0 exactly when the whole ROM has already been delivered (or
    /// the buffer is empty), and stays 0 on every later call.  On a
    /// single-bank cartridge no bank-select sequence is ever issued.
    pub fn read(&mut self, buf: &mut Vec<u8>) -> (r: Result<usize, MbcError>)
        requires
            old(self).inv(),
        ensures
            r is Ok,
            final(self).inv(),
            ({
                let n = r->Ok_0 as int;
                &&& n == if old(buf)@.len() as int <= old(self).total - old(self).cursor {
                    old(buf)@.len() as int
                } else {
                    old(self).total - old(self).cursor
                }
                &&& final(self).cursor == old(self).cursor + n
                &&& forall|j: int|
                    0 <= j < n ==> final(buf)@[j] == old(self).drv.cart@.rom[old(self).cursor + j]
                &&& forall|j: int| n <= j < old(buf)@.len() ==> final(buf)@[j] == old(buf)@[j]
            }),
            (r->Ok_0 == 0) <==> (old(self).cursor == old(self).total || old(buf)@.len() == 0),
            final(buf)@.len() == old(buf)@.len(),
            final(self).total == old(self).total,
            final(self).drv.mbc == old(self).drv.mbc,
            final(self).drv.cart@.rom == old(self).drv.cart@.rom,
            final(self).drv.cart@.ram == old(self).drv.cart@.ram,
            final(self).drv.cart@.ram_enabled == old(self).drv.cart@.ram_enabled,
            final(self).drv.cart@.waits == old(self).drv.cart@.waits,
            final(self).drv.state.ram_enabled == old(self).drv.state.ram_enabled,
            final(self).drv.ram_selects@ == old(self).drv.ram_selects@,
            final(self).drv.enables@ == old(self).drv.enables@,
            final(self).drv.disables@ == old(self).drv.disables@,
            final(self).drv.cart@.reads == old(self).drv.cart@.reads + r->Ok_0,
            (old(self).drv.mbc is RomOnly) ==> final(self).drv.rom_selects@
                == old(self).drv.rom_selects@,
            (old(self).total <= 0x8000 && old(self).drv.state.rom_bank == 1) ==> (final(
                self).drv.rom_selects@ == old(self).drv.rom_selects@
                && final(self).drv.state.rom_bank == 1),
    {
        let ghost pre = *self;
        let ghost pre_buf = buf@;
        let want = buf.len();
        let avail = self.total - self.cursor;
        let n = if want < avail {
            want
        } else {
            avail
        };
        let mut i: usize = 0;
        let mut cur = self.cursor;
        while i < n
            invariant
                self.drv.inv(),
                self.total == self.drv.cart@.rom.len(),
                rom_geometry_ok(self.drv.mbc, self.total as int),
                i <= n,
                cur == pre.cursor + i,
                pre.cursor + n <= self.total,
                n <= pre_buf.len(),
                self.total == pre.total,
                self.cursor == pre.cursor,
                self.drv.mbc == pre.drv.mbc,
                self.drv.cart@.rom == pre.drv.cart@.rom,
                self.drv.cart@.ram == pre.drv.cart@.ram,
                self.drv.cart@.ram_enabled == pre.drv.cart@.ram_enabled,
                self.drv.cart@.waits == pre.drv.cart@.waits,
                self.drv.state.ram_enabled == pre.drv.state.ram_enabled,
                self.drv.ram_selects@ == pre.drv.ram_selects@,
                self.drv.enables@ == pre.drv.enables@,
                self.drv.disables@ == pre.drv.disables@,
                self.drv.cart@.reads == pre.drv.cart@.reads + i,
                (pre.drv.mbc is RomOnly) ==> self.drv.rom_selects@ == pre.drv.rom_selects@,
                (pre.total <= 0x8000 && pre.drv.state.rom_bank == 1) ==> (self.drv.rom_selects@
                    == pre.drv.rom_selects@ && self.drv.state.rom_bank == 1),
                buf@.len() == pre_buf.len(),
                forall|j: int| 0 <= j < i ==> buf@[j] == pre.drv.cart@.rom[pre.cursor + j],
                forall|j: int| i <= j < pre_buf.len() ==> buf@[j] == pre_buf[j],
            decreases n - i,
        {
            let bank = cur / 0x4000;
            proof {
                assert(cur < self.total);
                assert(self.total as int <= rom_bank_width(self.drv.mbc) * 0x4000);
                assert(cur / 0x4000 < rom_bank_width(self.drv.mbc)) by (nonlinear_arith)
                    requires
                        0 <= cur,
                        (cur as int) < rom_bank_width(self.drv.mbc) * 0x4000,
                ;
            }
            if bank != 0 && self.drv.state.rom_bank as usize != bank {
                match self.drv.select_rom_bank(bank as u16) {
                    Ok(()) => {},
                    Err(e) => {
                        return Err(e);
                    },
                }
            }
            let a: u16 = if bank == 0 {
                cur as u16
            } else {
                proof {
                    assert(bank != 0 ==> active_rom_bank(self.drv.cart@) == bank as int);
                }
                (0x4000 + (cur % 0x4000)) as u16
            };
            self.drv.set_addr(a);
            let b = match self.drv.read_byte() {
                Ok(b) => b,
                Err(e) => {
                    return Err(e);
                },
            };
            proof {
                if bank != 0 {
                    assert(active_rom_bank(self.drv.cart@) * 0x4000 + (a - 0x4000) == cur as int);
                }
                assert(b == pre.drv.cart@.rom[cur as int]);
            }
            buf.set(i, b);
            i = i + 1;
            cur = cur + 1;
        }
        self.cursor = cur;
        Ok(n)
    }

    /// Pass-through to the driver: issue the family's RAM-enable sequence.
    pub fn enable_ram(&mut self, t: MbcType) -> (r: Result<(), MbcError>)
        requires
            old(self).inv(),
            t == old(self).drv.mbc,
        ensures
            r is Ok,
            final(self).inv(),
            final(self).drv.state.ram_enabled,
            ram_accessible(final(self).drv.cart@),
            final(self).total == old(self).total,
            final(self).cursor == old(self).cursor,
            final(self).drv.mbc == old(self).drv.mbc,
            final(self).drv.cart@.rom == old(self).drv.cart@.rom,
            final(self).drv.cart@.ram == old(self).drv.cart@.ram,
            final(self).drv.cart@.waits == old(self).drv.cart@.waits,
            active_rom_bank(final(self).drv.cart@) == active_rom_bank(old(self).drv.cart@),
            active_ram_bank(final(self).drv.cart@) == active_ram_bank(old(self).drv.cart@),
            final(self).drv.state.rom_bank == old(self).drv.state.rom_bank,
            final(self).drv.state.ram_bank == old(self).drv.state.ram_bank,
            final(self).drv.rom_selects@ == old(self).drv.rom_selects@,
            final(self).drv.ram_selects@ == old(self).drv.ram_selects@,
            final(self).drv.cart@.reads == old(self).drv.cart@.reads,
            final(self).drv.enables@ == old(self).drv.enables@ + if old(
                self).drv.mbc is RomOnly {
                0int
            } else {
                1int
            },
            final(self).drv.disables@ == old(self).drv.disables@,
    {
        self.drv.enable_ram(t)
    }

    /// Pass-through to the driver: issue the family's RAM-disable sequence.
    pub fn disable_ram(&mut self, t: MbcType) -> (r: Result<(), MbcError>)
        requires
            old(self).inv(),
            t == old(self).drv.mbc,
        ensures
            r is Ok,
            final(self).inv(),
            !final(self).drv.state.ram_enabled,
            !final(self).drv.cart@.ram_enabled,
            final(self).total == old(self).total,
            final(self).cursor == old(self).cursor,
            final(self).drv.mbc == old(self).drv.mbc,
            final(self).drv.cart@.rom == old(self).drv.cart@.rom,
            final(self).drv.cart@.ram == old(self).drv.cart@.ram,
            final(self).drv.cart@.waits == old(self).drv.cart@.waits,
            active_rom_bank(final(self).drv.cart@) == active_rom_bank(old(self).drv.cart@),
            active_ram_bank(final(self).drv.cart@) == active_ram_bank(old(self).drv.cart@),
            final(self).drv.state.rom_bank == old(self).drv.state.rom_bank,
            final(self).drv.state.ram_bank == old(self).drv.state.ram_bank,
            final(self).drv.rom_selects@ == old(self).drv.rom_selects@,
            final(self).drv.ram_selects@ == old(self).drv.ram_selects@,
            final(self).drv.cart@.reads == old(self).drv.cart@.reads,
            final(self).drv.enables@ == old(self).drv.enables@,
            final(self).drv.disables@ == old(self).drv.disables@ + if old(
                self).drv.mbc is RomOnly {
                0int
            } else {
                1int
            },
    {
        self.drv.disable_ram(t)
    }

    /// Pass-through to the driver: select a RAM bank; `Unsupported` for
    /// families without RAM banking.
    pub fn select_ram_bank(&mut self, n: u8) -> (r: Result<(), MbcError>)
        requires
            old(self).inv(),
        ensures
            final(self).inv(),
            has_ram_banking(old(self).drv.mbc) ==> r is Ok && active_ram_bank(
                final(self).drv.cart@) == selected_ram_bank(old(self).drv.mbc, n),
            !has_ram_banking(old(self).drv.mbc) ==> r == Err::<(), MbcError>(
                MbcError::Unsupported) && *final(self) == *old(self),
            final(self).total == old(self).total,
            final(self).cursor == old(self).cursor,
            final(self).drv.mbc == old(self).drv.mbc,
            final(self).drv.cart@.rom == old(self).drv.cart@.rom,
            final(self).drv.cart@.ram == old(self).drv.cart@.ram,
            final(self).drv.cart@.ram_enabled == old(self).drv.cart@.ram_enabled,
            final(self).drv.cart@.waits == old(self).drv.cart@.waits,
            final(self).drv.state.ram_enabled == old(self).drv.state.ram_enabled,
            final(self).drv.rom_selects@ == old(self).drv.rom_selects@,
            final(self).drv.cart@.reads == old(self).drv.cart@.reads,
            final(self).drv.enables@ == old(self).drv.enables@,
            final(self).drv.disables@ == old(self).drv.disables@,
    {
        self.drv.select_ram_bank(n)
    }

    /// Pass-through to the adapter: latch an address within the currently
    /// selected bank.
    pub fn set_addr(&mut self, a: u16)
        requires
            old(self).inv(),
        ensures
            final(self).inv(),
            final(self).drv.cart@ == (CartModel { addr: a, ..old(self).drv.cart@ }),
            final(self).total == old(self).total,
            final(self).cursor == old(self).cursor,
            final(self).drv.mbc == old(self).drv.mbc,
            final(self).drv.state == old(self).drv.state,
            final(self).drv.rom_selects@ == old(self).drv.rom_selects@,
            final(self).drv.ram_selects@ == old(self).drv.ram_selects@,
            final(self).drv.enables@ == old(self).drv.enables@,
            final(self).drv.disables@ == old(self).drv.disables@,
    {
        self.drv.set_addr(a);
    }

    /// Pass-through to the adapter: read the byte at the current address.
    pub fn read_byte(&mut self) -> (r: Result<u8, MbcError>)
        requires
            old(self).inv(),
        ensures
            r == Ok::<u8, MbcError>(bus_read(old(self).drv.cart@)),
            final(self).inv(),
            final(self).drv.cart@ == (CartModel {
                reads: old(self).drv.cart@.reads + 1,
                ..old(self).drv.cart@
            }),
            final(self).total == old(self).total,
            final(self).cursor == old(self).cursor,
            final(self).drv.mbc == old(self).drv.mbc,
            final(self).drv.state == old(self).drv.state,
            final(self).drv.rom_selects@ == old(self).drv.rom_selects@,
            final(self).drv.ram_selects@ == old(self).drv.ram_selects@,
            final(self).drv.enables@ == old(self).drv.enables@,
            final(self).drv.disables@ == old(self).drv.disables@,
    {
        self.drv.read_byte()
    }

    /// Pass-through to the adapter: write a byte at the current address,
    /// admitted only in the RAM data window — control registers belong to
    /// the driver alone.
    pub fn write_byte(&mut self, v: u8) -> (r: Result<(), MbcError>)
        requires
            old(self).inv(),
            0xA000 <= old(self).drv.cart@.addr < 0xC000,
        ensures
            r is Ok,
            final(self).inv(),
            final(self).drv.cart@ == bus_write(old(self).drv.cart@, v),
            final(self).total == old(self).total,
            final(self).cursor == old(self).cursor,
            final(self).drv.mbc == old(self).drv.mbc,
            final(self).drv.state == old(self).drv.state,
            final(self).drv.rom_selects@ == old(self).drv.rom_selects@,
            final(self).drv.ram_selects@ == old(self).drv.ram_selects@,
            final(self).drv.enables@ == old(self).drv.enables@,
            final(self).drv.disables@ == old(self).drv.disables@,
    {
        self.drv.write_byte(v)
    }
}

/// Opens a streaming session on a well-formed cartridge fresh out of reset:
/// parses the header off the bus, then hands both the reader and the header
/// back.  The header provably describes the cartridge: its controller type,
/// ROM size and RAM size are the board's own.
pub fn make_rom_reader(cart: Cartridge) -> (r: Result<(MbcReader, CartridgeHeader), MbcError>)
    requires
        cart_wf(cart@),
        at_reset(cart@),
    ensures
        r is Ok,
        ({
            let (reader, h) = r->Ok_0;
            &&& reader.inv()
            &&& reader.cursor == 0
            &&& reader.total == cart@.rom.len()
            &&& reader.drv.mbc == cart@.mbc
            &&& reader.drv.cart@.rom == cart@.rom
            &&& reader.drv.cart@.ram == cart@.ram
            &&& reader.drv.cart@.mbc == cart@.mbc
            &&& reader.drv.cart@.waits == cart@.waits
            &&& reader.drv.state.rom_bank == 1
            &&& reader.drv.state.ram_bank == 0
            &&& !reader.drv.state.ram_enabled
            &&& reader.drv.rom_selects@ == 0
            &&& reader.drv.ram_selects@ == 0
            &&& reader.drv.enables@ == 0
            &&& reader.drv.disables@ == 0
            &&& h.mbc_type == cart@.mbc
            &&& h.rom_size == cart@.rom.len()
            &&& h.ram_size == cart@.ram.len()
            &&& h.title@ == cart@.rom.subrange(0x134, 0x144)
            &&& h.wf()
        }),
{
    let mut cart = cart;
    let h = match parse_header(&mut cart) {
        Ok(h) => h,
        Err(e) => {
            return Err(e);
        },
    };
    let mbc = h.mbc_type;
    let drv = MbcDriver::new(cart, mbc);
    let total = h.rom_size;
    Ok((MbcReader { drv, total, cursor: 0 }, h))
}

} // verus!
