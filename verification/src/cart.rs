//! A register-accurate model of the address/data link to an MBC cartridge.
//!
//! The physical adapter exposes three primitives against a 16-bit address
//! space: set the current address, read a byte, write a byte.  What those
//! primitives do is decided by the cartridge's Memory Bank Controller, and
//! [`Cartridge`] models exactly that: control-register writes below `0x8000`
//! move the bank registers of the detected controller family, reads below
//! `0x8000` go to the fixed or switchable ROM window, and accesses in
//! `0xA000..0xC000` reach the currently selected RAM bank when RAM is
//! enabled.  Every protocol operation of the driver is verified against this
//! model, expressed by the ghost state [`CartModel`].
use vstd::prelude::*;

use crate::header::{
    header_ram_size, mbc1_family, mbc2_family, mbc3_family, mbc5_family, mbc_of_code,
    rom_size_of_code, MbcType,
};

verus! {

/// The mathematical state of the link: the images behind the controller and
/// the controller's own registers.
///
/// `waits` counts the settle delays issued so far; the timing discipline of
/// slow cartridge RAM is stated over it.
pub ghost struct CartModel {
    pub mbc: MbcType,
    pub rom: Seq<u8>,
    pub ram: Seq<u8>,
    /// Low ROM-bank register (5 bits on MBC1, 4 on MBC2, 7 on MBC3, 8 on MBC5).
    pub bank_low: u8,
    /// Secondary register: the shared 2-bit register on MBC1, the ninth ROM
    /// bank bit on MBC5.
    pub bank_hi: u8,
    /// Dedicated RAM-bank register (MBC3 and MBC5).
    pub ram_bank: u8,
    /// MBC1 banking-mode register: 0 = ROM mode, 1 = RAM mode.
    pub mode: u8,
    pub ram_enabled: bool,
    /// The adapter's current address.
    pub addr: u16,
    /// How many byte reads have been issued on the link.
    pub reads: nat,
    /// How many settle delays have been issued on the link.
    pub waits: nat,
}

/// The ROM bank visible in the switchable window `0x4000..0x8000`.
pub open spec fn active_rom_bank(m: CartModel) -> int {
    if m.mbc is RomOnly {
        1
    } else if mbc1_family(m.mbc) {
        m.bank_hi as int * 32 + m.bank_low as int
    } else if mbc2_family(m.mbc) || mbc3_family(m.mbc) {
        m.bank_low as int
    } else {
        m.bank_hi as int * 256 + m.bank_low as int
    }
}

/// The RAM bank visible in the window `0xA000..0xC000`.  On MBC1 the shared
/// secondary register supplies it, but only in RAM banking mode; ROM-only
/// boards and MBC2 always expose their single bank.
pub open spec fn active_ram_bank(m: CartModel) -> int {
    if mbc1_family(m.mbc) {
        if m.mode == 1 {
            m.bank_hi as int
        } else {
            0
        }
    } else if mbc3_family(m.mbc) || mbc5_family(m.mbc) {
        m.ram_bank as int
    } else {
        0
    }
}

/// Whether an access in `0xA000..0xC000` reaches the RAM.  ROM-only boards
/// have no enable gate; every other family requires the enable sequence.
pub open spec fn ram_accessible(m: CartModel) -> bool {
    m.mbc is RomOnly || m.ram_enabled
}

/// The linear RAM image index behind the current address.
pub open spec fn ram_index(m: CartModel) -> int {
    active_ram_bank(m) * 0x2000 + (m.addr - 0xA000)
}

/// How a control-register write (address below `0x8000`) moves the bank
/// registers, per controller family.  ROM-only boards ignore control writes.
pub open spec fn ctrl_write(m: CartModel, v: u8) -> CartModel {
    let a = m.addr;
    if mbc1_family(m.mbc) {
        if a < 0x2000 {
            CartModel { ram_enabled: v % 16 == 0x0A, ..m }
        } else if a < 0x4000 {
            CartModel { bank_low: v % 32, ..m }
        } else if a < 0x6000 {
            CartModel { bank_hi: v % 4, ..m }
        } else {
            CartModel { mode: v % 2, ..m }
        }
    } else if mbc2_family(m.mbc) {
        if a < 0x4000 {
            if (a / 0x100) % 2 == 0 {
                CartModel { ram_enabled: v % 16 == 0x0A, ..m }
            } else {
                CartModel { bank_low: v % 16, ..m }
            }
        } else {
            m
        }
    } else if mbc3_family(m.mbc) {
        if a < 0x2000 {
            CartModel { ram_enabled: v % 16 == 0x0A, ..m }
        } else if a < 0x4000 {
            CartModel { bank_low: v % 128, ..m }
        } else if a < 0x6000 {
            CartModel { ram_bank: v % 4, ..m }
        } else {
            m
        }
    } else if mbc5_family(m.mbc) {
        if a < 0x2000 {
            CartModel { ram_enabled: v % 16 == 0x0A, ..m }
        } else if a < 0x3000 {
            CartModel { bank_low: v, ..m }
        } else if a < 0x4000 {
            CartModel { bank_hi: v % 2, ..m }
        } else if a < 0x6000 {
            CartModel { ram_bank: v % 16, ..m }
        } else {
            m
        }
    } else {
        m
    }
}

/// The full effect of a byte write at the current address: control registers
/// below `0x8000`, the selected RAM bank in `0xA000..0xC000` (when enabled
/// and backed), nothing anywhere else.
pub open spec fn bus_write(m: CartModel, v: u8) -> CartModel {
    if m.addr < 0x8000 {
        ctrl_write(m, v)
    } else if 0xA000 <= m.addr && m.addr < 0xC000 && ram_accessible(m) && 0 <= ram_index(m)
        && ram_index(m) < m.ram.len() {
        CartModel { ram: m.ram.update(ram_index(m), v), ..m }
    } else {
        m
    }
}

/// The byte a read at the current address returns.  Unmapped or disabled
/// regions read as `0xFF`, as an open bus does.
pub open spec fn bus_read(m: CartModel) -> u8 {
    let a = m.addr as int;
    if a < 0x4000 {
        if a < m.rom.len() {
            m.rom[a]
        } else {
            0xFF
        }
    } else if a < 0x8000 {
        let idx = active_rom_bank(m) * 0x4000 + (a - 0x4000);
        if 0 <= idx && idx < m.rom.len() {
            m.rom[idx]
        } else {
            0xFF
        }
    } else if 0xA000 <= a && a < 0xC000 && ram_accessible(m) {
        let idx = ram_index(m);
        if 0 <= idx && idx < m.ram.len() {
            m.ram[idx]
        } else {
            0xFF
        }
    } else {
        0xFF
    }
}

/// Geometry a real board of the family can carry: the ROM must fit the
/// family's ROM-bank register width.
pub open spec fn rom_geometry_ok(t: MbcType, n: int) -> bool {
    if t is RomOnly {
        n <= 0x8000
    } else if mbc1_family(t) {
        n <= 0x200000
    } else if mbc2_family(t) {
        n <= 0x40000
    } else if mbc3_family(t) {
        n <= 0x200000
    } else {
        n <= 0x800000
    }
}

/// Geometry a real board of the family can carry: the RAM must fit the
/// family's RAM-bank register width (a single bank where there is no RAM
/// banking).
pub open spec fn ram_geometry_ok(t: MbcType, n: int) -> bool {
    if mbc1_family(t) || mbc3_family(t) {
        n <= 0x8000
    } else if mbc5_family(t) {
        n <= 0x20000
    } else {
        n <= 0x2000
    }
}

/// A well-formed cartridge: the header region exists, the size bytes agree
/// with the images behind the controller, the controller-type byte names the
/// controller actually present, and both images fit the family's registers.
pub open spec fn cart_wf(m: CartModel) -> bool {
    &&& m.rom.len() >= 0x150
    &&& m.rom.len() == rom_size_of_code(m.rom[0x148])
    &&& m.ram.len() == header_ram_size(m.rom[0x147], m.rom[0x149])
    &&& m.mbc == mbc_of_code(m.rom[0x147])
    &&& rom_geometry_ok(m.mbc, m.rom.len() as int)
    &&& ram_geometry_ok(m.mbc, m.ram.len() as int)
}

/// The registers as they stand when a session begins: home bank selected,
/// RAM disabled, ROM banking mode.
pub open spec fn at_reset(m: CartModel) -> bool {
    &&& m.bank_low == 1
    &&& m.bank_hi == 0
    &&& m.ram_bank == 0
    &&& m.mode == 0
    &&& !m.ram_enabled
}

/// The modeled link: a cartridge of a given controller family behind the
/// adapter's three primitives.
pub struct Cartridge {
    mbc: MbcType,
    rom: Vec<u8>,
    ram: Vec<u8>,
    bank_low: u8,
    bank_hi: u8,
    ram_bank: u8,
    mode: u8,
    ram_enabled: bool,
    addr: u16,
    reads: Ghost<nat>,
    waits: Ghost<nat>,
}

impl View for Cartridge {
    type V = CartModel;

    closed spec fn view(&self) -> CartModel {
        CartModel {
            mbc: self.mbc,
            rom: self.rom@,
            ram: self.ram@,
            bank_low: self.bank_low,
            bank_hi: self.bank_hi,
            ram_bank: self.ram_bank,
            mode: self.mode,
            ram_enabled: self.ram_enabled,
            addr: self.addr,
            reads: self.reads@,
            waits: self.waits@,
        }
    }
}

impl Cartridge {
    /// A cartridge fresh out of reset: home bank selected, RAM disabled.
    pub fn new(mbc: MbcType, rom: Vec<u8>, ram: Vec<u8>) -> (c: Cartridge)
        ensures
            c@ == (CartModel {
                mbc,
                rom: rom@,
                ram: ram@,
                bank_low: 1,
                bank_hi: 0,
                ram_bank: 0,
                mode: 0,
                ram_enabled: false,
                addr: 0,
                reads: 0,
                waits: 0,
            }),
    {
        Cartridge {
            mbc,
            rom,
            ram,
            bank_low: 1,
            bank_hi: 0,
            ram_bank: 0,
            mode: 0,
            ram_enabled: false,
            addr: 0,
            reads: Ghost(0),
            waits: Ghost(0),
        }
    }

    /// The controller family soldered on the board.
    pub fn mbc_type(&self) -> (t: MbcType)
        ensures
            t == self@.mbc,
    {
        self.mbc
    }

    /// Size of the ROM image behind the controller.
    pub fn rom_len(&self) -> (n: usize)
        ensures
            n == self@.rom.len(),
    {
        self.rom.len()
    }

    /// Size of the RAM behind the controller.
    pub fn ram_len(&self) -> (n: usize)
        ensures
            n == self@.ram.len(),
    {
        self.ram.len()
    }

    /// Whether the header bytes agree with the board: decides [`cart_wf`] at
    /// run time, so an unverified caller can test it before starting a
    /// session.
    pub fn well_formed(&self) -> (b: bool)
        ensures
            b == cart_wf(self@),
    {
        if self.rom.len() < 0x150 {
            return false;
        }
        let rom_ok = self.rom.len() == crate::header::decode_rom_size(self.rom[0x148]);
        let ram_ok = self.ram.len() == crate::header::decode_header_ram_size(
            self.rom[0x147],
            self.rom[0x149],
        );
        let mbc_ok = self.mbc == crate::header::decode_mbc(self.rom[0x147]);
        let geom_ok = self.rom_geometry_check() && self.ram_geometry_check();
        rom_ok && ram_ok && mbc_ok && geom_ok
    }

    fn rom_geometry_check(&self) -> (b: bool)
        ensures
            b == rom_geometry_ok(self@.mbc, self@.rom.len() as int),
    {
        let n = self.rom.len();
        if crate::header::is_rom_only(self.mbc) {
            n <= 0x8000
        } else if crate::header::is_mbc1_family(self.mbc) {
            n <= 0x200000
        } else if crate::header::is_mbc2_family(self.mbc) {
            n <= 0x40000
        } else if crate::header::is_mbc3_family(self.mbc) {
            n <= 0x200000
        } else {
            n <= 0x800000
        }
    }

    fn ram_geometry_check(&self) -> (b: bool)
        ensures
            b == ram_geometry_ok(self@.mbc, self@.ram.len() as int),
    {
        let n = self.ram.len();
        if crate::header::is_mbc1_family(self.mbc) || crate::header::is_mbc3_family(self.mbc) {
            n <= 0x8000
        } else if crate::header::is_mbc5_family(self.mbc) {
            n <= 0x20000
        } else {
            n <= 0x2000
        }
    }

    /// Latches the adapter's current address.
    pub fn set_addr(&mut self, a: u16)
        ensures
            final(self)@ == (CartModel { addr: a, ..old(self)@ }),
    {
        self.addr = a;
    }

    /// Reads the byte the cartridge drives at the current address.
    pub fn read_byte(&mut self) -> (b: u8)
        ensures
            b == bus_read(old(self)@),
            final(self)@ == (CartModel { reads: old(self)@.reads + 1, ..old(self)@ }),
    {
        let ghost n = self.reads@;
        self.reads = Ghost(n + 1);
        let a = self.addr;
        if a < 0x4000 {
            if (a as usize) < self.rom.len() {
                self.rom[a as usize]
            } else {
                0xFF
            }
        } else if a < 0x8000 {
            let bank = self.cur_rom_bank();
            let idx = bank * 0x4000 + (a as usize - 0x4000);
            if idx < self.rom.len() {
                self.rom[idx]
            } else {
                0xFF
            }
        } else if 0xA000 <= a && a < 0xC000 {
            if crate::header::is_rom_only(self.mbc) || self.ram_enabled {
                let idx = self.cur_ram_bank() as usize * 0x2000 + (a as usize - 0xA000);
                if idx < self.ram.len() {
                    self.ram[idx]
                } else {
                    0xFF
                }
            } else {
                0xFF
            }
        } else {
            0xFF
        }
    }

    /// Writes a byte at the current address: a control-register write below
    /// `0x8000`, a RAM write in `0xA000..0xC000`.
    pub fn write_byte(&mut self, v: u8)
        ensures
            final(self)@ == bus_write(old(self)@, v),
    {
        let a = self.addr;
        if a < 0x8000 {
            if crate::header::is_mbc1_family(self.mbc) {
                if a < 0x2000 {
                    self.ram_enabled = v % 16 == 0x0A;
                } else if a < 0x4000 {
                    self.bank_low = v % 32;
                } else if a < 0x6000 {
                    self.bank_hi = v % 4;
                } else {
                    self.mode = v % 2;
                }
            } else if crate::header::is_mbc2_family(self.mbc) {
                if a < 0x4000 {
                    if (a / 0x100) % 2 == 0 {
                        self.ram_enabled = v % 16 == 0x0A;
                    } else {
                        self.bank_low = v % 16;
                    }
                }
            } else if crate::header::is_mbc3_family(self.mbc) {
                if a < 0x2000 {
                    self.ram_enabled = v % 16 == 0x0A;
                } else if a < 0x4000 {
                    self.bank_low = v % 128;
                } else if a < 0x6000 {
                    self.ram_bank = v % 4;
                }
            } else if crate::header::is_mbc5_family(self.mbc) {
                if a < 0x2000 {
                    self.ram_enabled = v % 16 == 0x0A;
                } else if a < 0x3000 {
                    self.bank_low = v;
                } else if a < 0x4000 {
                    self.bank_hi = v % 2;
                } else if a < 0x6000 {
                    self.ram_bank = v % 16;
                }
            }
        } else if 0xA000 <= a && a < 0xC000 {
            if crate::header::is_rom_only(self.mbc) || self.ram_enabled {
                let idx = self.cur_ram_bank() as usize * 0x2000 + (a as usize - 0xA000);
                if idx < self.ram.len() {
                    self.ram.set(idx, v);
                }
            }
        }
    }

    /// One hardware settle delay on the link, bracketing slow RAM accesses.
    /// The model only accounts for it; a physical adapter spends the time.
    pub fn settle(&mut self)
        ensures
            final(self)@ == (CartModel { waits: old(self)@.waits + 1, ..old(self)@ }),
    {
        let ghost w = self.waits@;
        self.waits = Ghost(w + 1);
    }

    fn cur_rom_bank(&self) -> (b: usize)
        ensures
            b == active_rom_bank(self@),
    {
        if crate::header::is_rom_only(self.mbc) {
            1
        } else if crate::header::is_mbc1_family(self.mbc) {
            self.bank_hi as usize * 32 + self.bank_low as usize
        } else if crate::header::is_mbc2_family(self.mbc) || crate::header::is_mbc3_family(
            self.mbc,
        ) {
            self.bank_low as usize
        } else {
            self.bank_hi as usize * 256 + self.bank_low as usize
        }
    }

    fn cur_ram_bank(&self) -> (b: u8)
        ensures
            b as int == active_ram_bank(self@),
    {
        if crate::header::is_mbc1_family(self.mbc) {
            if self.mode == 1 {
                self.bank_hi
            } else {
                0
            }
        } else if crate::header::is_mbc3_family(self.mbc) || crate::header::is_mbc5_family(
            self.mbc,
        ) {
            self.ram_bank
        } else {
            0
        }
    }
}

} // verus!
