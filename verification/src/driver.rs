//! The MBC protocol driver: single owner of all bank-control register
//! writes.
//!
//! The driver owns the link and the mutable session state (current ROM bank,
//! current RAM bank, RAM-enabled flag), and is the only component that may
//! touch control registers: its `write_byte` pass-through is restricted to
//! the RAM data window, so readers and writers can never issue a bank-select
//! write themselves.  Every operation's contract states the effect on the
//! cartridge model, so the mirrored [`DriverState`] provably tracks the
//! hardware registers.
use vstd::prelude::*;

use crate::cart::{
    active_ram_bank, active_rom_bank, at_reset, bus_read, bus_write, ram_accessible, Cartridge,
    CartModel,
};
use crate::header::{
    has_ram_banking, is_mbc1_family, is_mbc2_family, is_mbc3_family, is_mbc5_family, is_rom_only,
    mbc1_family, mbc2_family, mbc3_family, mbc5_family, supports_ram_banking, MbcType,
};
use crate::MbcError;

verus! {

/// Mutable session state, exclusively owned by the driver and provably equal
/// to the bank the cartridge's registers actually select.
pub struct DriverState {
    pub rom_bank: u16,
    pub ram_bank: u8,
    pub ram_enabled: bool,
}

/// The bank the switchable ROM window shows after the driver is asked for
/// bank `n`.  Bank 0 is illegal for the switchable region — hardware maps it
/// to bank 1 — so the driver substitutes 1 silently, and the request is
/// masked to the family's register width.
pub open spec fn selected_rom_bank(t: MbcType, n: u16) -> int {
    if t is RomOnly {
        1
    } else {
        let masked = (n as int) % rom_bank_width(t);
        if masked == 0 {
            1
        } else {
            masked
        }
    }
}

/// How many ROM banks the family's registers can address.
pub open spec fn rom_bank_width(t: MbcType) -> int {
    if mbc1_family(t) {
        128
    } else if mbc2_family(t) {
        16
    } else if mbc3_family(t) {
        128
    } else if mbc5_family(t) {
        512
    } else {
        2
    }
}

/// The RAM bank selected when the driver is asked for bank `n`, masked to
/// the family's register width.
pub open spec fn selected_ram_bank(t: MbcType, n: u8) -> int {
    if mbc1_family(t) || mbc3_family(t) {
        (n as int) % 4
    } else if mbc5_family(t) {
        (n as int) % 16
    } else {
        0
    }
}

/// The MBC protocol driver.  `mbc` is the controller family the session was
/// opened with; the ghost counters record how many ROM bank-select, RAM
/// bank-select, RAM-enable and RAM-disable sequences have been issued on the
/// bus.
pub struct MbcDriver {
    pub cart: Cartridge,
    pub mbc: MbcType,
    pub state: DriverState,
    pub rom_selects: Ghost<nat>,
    pub ram_selects: Ghost<nat>,
    pub enables: Ghost<nat>,
    pub disables: Ghost<nat>,
}

impl MbcDriver {
    /// Well-formedness: the driver knows the controller actually present,
    /// its mirrored state equals what the registers select, and the
    /// registers hold only values their width admits.
    pub open spec fn inv(self) -> bool {
        &&& self.mbc == self.cart@.mbc
        &&& self.state.rom_bank as int == active_rom_bank(self.cart@)
        &&& self.state.ram_bank as int == active_ram_bank(self.cart@)
        &&& if self.cart@.mbc is RomOnly {
            !self.cart@.ram_enabled
        } else {
            self.state.ram_enabled == self.cart@.ram_enabled
        }
        &&& mbc1_family(self.mbc) ==> self.cart@.bank_low < 32 && self.cart@.bank_hi < 4
            && self.cart@.mode < 2
        &&& mbc2_family(self.mbc) ==> self.cart@.bank_low < 16
        &&& mbc3_family(self.mbc) ==> self.cart@.bank_low < 128 && self.cart@.ram_bank < 4
        &&& mbc5_family(self.mbc) ==> self.cart@.bank_hi < 2 && self.cart@.ram_bank < 16
    }

    /// Opens a session on a link whose registers are in their reset state.
    /// The caller names the controller family the header reported, which
    /// must be the one actually present.
    pub fn new(cart: Cartridge, mbc: MbcType) -> (d: MbcDriver)
        requires
            at_reset(cart@),
            mbc == cart@.mbc,
        ensures
            d.inv(),
            d.cart@ == cart@,
            d.mbc == mbc,
            d.state.rom_bank == 1,
            d.state.ram_bank == 0,
            !d.state.ram_enabled,
            d.rom_selects@ == 0,
            d.ram_selects@ == 0,
            d.enables@ == 0,
            d.disables@ == 0,
    {
        MbcDriver {
            cart,
            mbc,
            state: DriverState { rom_bank: 1, ram_bank: 0, ram_enabled: false },
            rom_selects: Ghost(0),
            ram_selects: Ghost(0),
            enables: Ghost(0),
            disables: Ghost(0),
        }
    }

    /// Issues the RAM-enable sequence of the controller family: value `0x0A`
    /// to address `0x0000` (whose address bit 8 is clear, as MBC2 demands).
    /// Successfully does nothing on a ROM-only board.
    pub fn enable_ram(&mut self, t: MbcType) -> (r: Result<(), MbcError>)
        requires
            old(self).inv(),
            t == old(self).mbc,
        ensures
            r is Ok,
            final(self).inv(),
            final(self).mbc == old(self).mbc,
            final(self).state.ram_enabled,
            ram_accessible(final(self).cart@),
            final(self).cart@.mbc == old(self).cart@.mbc,
            final(self).cart@.rom == old(self).cart@.rom,
            final(self).cart@.ram == old(self).cart@.ram,
            final(self).cart@.waits == old(self).cart@.waits,
            active_rom_bank(final(self).cart@) == active_rom_bank(old(self).cart@),
            active_ram_bank(final(self).cart@) == active_ram_bank(old(self).cart@),
            final(self).state.rom_bank == old(self).state.rom_bank,
            final(self).state.ram_bank == old(self).state.ram_bank,
            final(self).rom_selects@ == old(self).rom_selects@,
            final(self).ram_selects@ == old(self).ram_selects@,
            final(self).cart@.reads == old(self).cart@.reads,
            final(self).enables@ == old(self).enables@ + if old(self).mbc is RomOnly {
                0int
            } else {
                1int
            },
            final(self).disables@ == old(self).disables@,
    {
        if !is_rom_only(t) {
            self.cart.set_addr(0x0000);
            self.cart.write_byte(0x0A);
            let ghost c = self.enables@;
            self.enables = Ghost(c + 1);
        }
        self.state.ram_enabled = true;
        Ok(())
    }

    /// Issues the symmetric RAM-disable sequence: value `0x00` to address
    /// `0x0000`.  Successfully does nothing on a ROM-only board.
    pub fn disable_ram(&mut self, t: MbcType) -> (r: Result<(), MbcError>)
        requires
            old(self).inv(),
            t == old(self).mbc,
        ensures
            r is Ok,
            final(self).inv(),
            final(self).mbc == old(self).mbc,
            !final(self).state.ram_enabled,
            !final(self).cart@.ram_enabled,
            final(self).cart@.mbc == old(self).cart@.mbc,
            final(self).cart@.rom == old(self).cart@.rom,
            final(self).cart@.ram == old(self).cart@.ram,
            final(self).cart@.waits == old(self).cart@.waits,
            active_rom_bank(final(self).cart@) == active_rom_bank(old(self).cart@),
            active_ram_bank(final(self).cart@) == active_ram_bank(old(self).cart@),
            final(self).state.rom_bank == old(self).state.rom_bank,
            final(self).state.ram_bank == old(self).state.ram_bank,
            final(self).rom_selects@ == old(self).rom_selects@,
            final(self).ram_selects@ == old(self).ram_selects@,
            final(self).cart@.reads == old(self).cart@.reads,
            final(self).enables@ == old(self).enables@,
            final(self).disables@ == old(self).disables@ + if old(self).mbc is RomOnly {
                0int
            } else {
                1int
            },
    {
        if !is_rom_only(t) {
            self.cart.set_addr(0x0000);
            self.cart.write_byte(0x00);
            let ghost c = self.disables@;
            self.disables = Ghost(c + 1);
        }
        self.state.ram_enabled = false;
        Ok(())
    }

    /// Selects logical ROM bank `n` for the switchable window, issuing the
    /// write sequence of the controller family.  A request for bank 0 is
    /// silently served as bank 1.  On MBC1 the full sequence is issued:
    /// banking mode to ROM, the two high bits to the shared secondary
    /// register, the five low bits to the ROM-bank register — which parks
    /// the RAM window back at bank 0.
    #[verifier::rlimit(30)]
    pub fn select_rom_bank(&mut self, n: u16) -> (r: Result<(), MbcError>)
        requires
            old(self).inv(),
        ensures
            r is Ok,
            final(self).inv(),
            final(self).mbc == old(self).mbc,
            final(self).state.rom_bank as int == selected_rom_bank(old(self).mbc, n),
            active_rom_bank(final(self).cart@) == selected_rom_bank(old(self).mbc, n),
            final(self).cart@.mbc == old(self).cart@.mbc,
            final(self).cart@.rom == old(self).cart@.rom,
            final(self).cart@.ram == old(self).cart@.ram,
            final(self).cart@.ram_enabled == old(self).cart@.ram_enabled,
            final(self).cart@.waits == old(self).cart@.waits,
            final(self).state.ram_enabled == old(self).state.ram_enabled,
            mbc1_family(old(self).mbc) ==> final(self).state.ram_bank == 0,
            !mbc1_family(old(self).mbc) ==> final(self).state.ram_bank == old(
                self,
            ).state.ram_bank && active_ram_bank(final(self).cart@) == active_ram_bank(
                old(self).cart@,
            ),
            final(self).rom_selects@ == old(self).rom_selects@ + if old(self).mbc is RomOnly {
                0int
            } else {
                1int
            },
            final(self).ram_selects@ == old(self).ram_selects@,
            final(self).cart@.reads == old(self).cart@.reads,
            final(self).enables@ == old(self).enables@,
            final(self).disables@ == old(self).disables@,
    {
        if is_rom_only(self.mbc) {
            return Ok(());
        }
        if is_mbc1_family(self.mbc) {
            let nn0 = n % 128;
            let nn = if nn0 == 0 { 1 } else { nn0 };
            self.cart.set_addr(0x6000);
            self.cart.write_byte(0x00);
            self.cart.set_addr(0x4000);
            self.cart.write_byte((nn / 32) as u8);
            self.cart.set_addr(0x2000);
            self.cart.write_byte((nn % 32) as u8);
            self.state.rom_bank = nn;
            self.state.ram_bank = 0;
        } else if is_mbc2_family(self.mbc) {
            let nn0 = n % 16;
            let nn = if nn0 == 0 { 1 } else { nn0 };
            self.cart.set_addr(0x2100);
            self.cart.write_byte(nn as u8);
            self.state.rom_bank = nn;
        } else if is_mbc3_family(self.mbc) {
            let nn0 = n % 128;
            let nn = if nn0 == 0 { 1 } else { nn0 };
            self.cart.set_addr(0x2000);
            self.cart.write_byte(nn as u8);
            self.state.rom_bank = nn;
        } else {
            let nn0 = n % 512;
            let nn = if nn0 == 0 { 1 } else { nn0 };
            self.cart.set_addr(0x2000);
            self.cart.write_byte((nn % 256) as u8);
            self.cart.set_addr(0x3000);
            self.cart.write_byte((nn / 256) as u8);
            self.state.rom_bank = nn;
        }
        let ghost c = self.rom_selects@;
        self.rom_selects = Ghost(c + 1);
        Ok(())
    }

    /// Selects RAM bank `n`, first forcing the MBC1 banking-mode register to
    /// RAM mode as that family requires.  Fails with `Unsupported` — leaving
    /// everything unchanged — for families without RAM banking; callers are
    /// expected to skip the call for those.
    pub fn select_ram_bank(&mut self, n: u8) -> (r: Result<(), MbcError>)
        requires
            old(self).inv(),
        ensures
            final(self).inv(),
            final(self).mbc == old(self).mbc,
            has_ram_banking(old(self).mbc) ==> {
                &&& r is Ok
                &&& final(self).state.ram_bank as int == selected_ram_bank(old(self).mbc, n)
                &&& active_ram_bank(final(self).cart@) == selected_ram_bank(old(self).mbc, n)
                &&& final(self).ram_selects@ == old(self).ram_selects@ + 1
            },
            !has_ram_banking(old(self).mbc) ==> r == Err::<(), MbcError>(MbcError::Unsupported)
                && *final(self) == *old(self),
            final(self).cart@.mbc == old(self).cart@.mbc,
            final(self).cart@.rom == old(self).cart@.rom,
            final(self).cart@.ram == old(self).cart@.ram,
            final(self).cart@.ram_enabled == old(self).cart@.ram_enabled,
            final(self).cart@.waits == old(self).cart@.waits,
            final(self).state.ram_enabled == old(self).state.ram_enabled,
            final(self).rom_selects@ == old(self).rom_selects@,
            final(self).cart@.reads == old(self).cart@.reads,
            final(self).enables@ == old(self).enables@,
            final(self).disables@ == old(self).disables@,
    {
        if is_mbc1_family(self.mbc) {
            self.cart.set_addr(0x6000);
            self.cart.write_byte(0x01);
            self.cart.set_addr(0x4000);
            self.cart.write_byte(n % 4);
            self.state.ram_bank = n % 4;
            self.state.rom_bank = (self.state.rom_bank % 32) + (n as u16 % 4) * 32;
            let ghost c = self.ram_selects@;
            self.ram_selects = Ghost(c + 1);
            Ok(())
        } else if is_mbc3_family(self.mbc) {
            self.cart.set_addr(0x4000);
            self.cart.write_byte(n % 4);
            self.state.ram_bank = n % 4;
            let ghost c = self.ram_selects@;
            self.ram_selects = Ghost(c + 1);
            Ok(())
        } else if is_mbc5_family(self.mbc) {
            self.cart.set_addr(0x4000);
            self.cart.write_byte(n % 16);
            self.state.ram_bank = n % 16;
            let ghost c = self.ram_selects@;
            self.ram_selects = Ghost(c + 1);
            Ok(())
        } else {
            Err(MbcError::Unsupported)
        }
    }

    /// Pass-through to the adapter: latch an address within the currently
    /// selected bank.
    pub fn set_addr(&mut self, a: u16)
        requires
            old(self).inv(),
        ensures
            final(self).inv(),
            final(self).cart@ == (CartModel { addr: a, ..old(self).cart@ }),
            final(self).mbc == old(self).mbc,
            final(self).state == old(self).state,
            final(self).rom_selects@ == old(self).rom_selects@,
            final(self).ram_selects@ == old(self).ram_selects@,
            final(self).enables@ == old(self).enables@,
            final(self).disables@ == old(self).disables@,
    {
        self.cart.set_addr(a);
    }

    /// Pass-through to the adapter: read the byte at the current address.
    pub fn read_byte(&mut self) -> (r: Result<u8, MbcError>)
        requires
            old(self).inv(),
        ensures
            r == Ok::<u8, MbcError>(bus_read(old(self).cart@)),
            final(self).inv(),
            final(self).cart@ == (CartModel { reads: old(self).cart@.reads + 1, ..old(
                self).cart@ }),
            final(self).mbc == old(self).mbc,
            final(self).state == old(self).state,
            final(self).rom_selects@ == old(self).rom_selects@,
            final(self).ram_selects@ == old(self).ram_selects@,
            final(self).enables@ == old(self).enables@,
            final(self).disables@ == old(self).disables@,
    {
        Ok(self.cart.read_byte())
    }

    /// Pass-through to the adapter: write a byte at the current address.
    /// Only the RAM data window is admitted — bank-control registers belong
    /// to the driver alone.
    pub fn write_byte(&mut self, v: u8) -> (r: Result<(), MbcError>)
        requires
            old(self).inv(),
            0xA000 <= old(self).cart@.addr < 0xC000,
        ensures
            r is Ok,
            final(self).inv(),
            final(self).cart@ == bus_write(old(self).cart@, v),
            final(self).mbc == old(self).mbc,
            final(self).state == old(self).state,
            final(self).rom_selects@ == old(self).rom_selects@,
            final(self).ram_selects@ == old(self).ram_selects@,
            final(self).enables@ == old(self).enables@,
            final(self).disables@ == old(self).disables@,
    {
        self.cart.write_byte(v);
        Ok(())
    }

    /// One named settle delay on the link, required before and after each
    /// RAM data write on slow cartridge RAM.
    pub fn wait_settle(&mut self)
        requires
            old(self).inv(),
        ensures
            final(self).inv(),
            final(self).cart@ == (CartModel { waits: old(self).cart@.waits + 1, ..old(self).cart@ }),
            final(self).mbc == old(self).mbc,
            final(self).state == old(self).state,
            final(self).rom_selects@ == old(self).rom_selects@,
            final(self).ram_selects@ == old(self).ram_selects@,
            final(self).enables@ == old(self).enables@,
            final(self).disables@ == old(self).disables@,
    {
        self.cart.settle();
    }
}

} // verus!
