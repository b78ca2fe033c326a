//! Cartridge header parsing: title, controller type, ROM size, RAM size.
//!
//! The header region occupies cartridge addresses `0x0100..0x0150`.  Within
//! it (as offsets from `0x0100`): the title at `0x34..0x44`, the controller
//! type byte at `0x47`, the ROM-size code at `0x48` and the RAM-size code at
//! `0x49`.  Decoding is deliberately permissive: an unrecognized controller
//! byte falls back to `RomOnly` and unknown size codes fall back to the
//! smallest ROM (32 KiB) or to no RAM, because misreads are common with
//! imperfect hardware contact and must never abort a session.  A board
//! decoded as `RomOnly` — by its genuine code or by the fallback — always
//! reports no RAM, so no flow ever drives the RAM window of an unidentified
//! controller.
use vstd::prelude::*;

use crate::cart::{CartModel, Cartridge};
use crate::MbcError;

verus! {

/// The closed set of supported Memory Bank Controller families.
///
/// The variant determines which bank-switching rule set applies; it is fixed
/// once parsed from the header and never changes for a session.
#[derive(Clone, Copy, Debug, PartialEq, Eq, Structural)]
pub enum MbcType {
    RomOnly,
    Mbc1,
    Mbc1Ram,
    Mbc1RamBattery,
    Mbc2,
    Mbc2Battery,
    Mbc3,
    Mbc3Ram,
    Mbc3RamBattery,
    Mbc5,
    Mbc5Ram,
    Mbc5RamBattery,
}

/// The MBC1 controller family (5-bit low ROM register, shared 2-bit
/// secondary register, banking-mode register).
pub open spec fn mbc1_family(t: MbcType) -> bool {
    t is Mbc1 || t is Mbc1Ram || t is Mbc1RamBattery
}

/// The MBC2 controller family (single 4-bit ROM register selected by address
/// bit 8, fixed built-in RAM).
pub open spec fn mbc2_family(t: MbcType) -> bool {
    t is Mbc2 || t is Mbc2Battery
}

/// The MBC3 controller family (7-bit ROM register, 2-bit RAM register).
pub open spec fn mbc3_family(t: MbcType) -> bool {
    t is Mbc3 || t is Mbc3Ram || t is Mbc3RamBattery
}

/// The MBC5 controller family (9-bit ROM register pair, 4-bit RAM register).
pub open spec fn mbc5_family(t: MbcType) -> bool {
    t is Mbc5 || t is Mbc5Ram || t is Mbc5RamBattery
}

/// Families whose RAM window can be switched between several banks.
/// ROM-only boards and MBC2 (whose RAM is a single built-in array) have no
/// RAM banking.
pub open spec fn has_ram_banking(t: MbcType) -> bool {
    mbc1_family(t) || mbc3_family(t) || mbc5_family(t)
}

/// Decides whether a cartridge has no controller at all.
pub fn is_rom_only(t: MbcType) -> (b: bool)
    ensures
        b == (t is RomOnly),
{
    matches!(t, MbcType::RomOnly)
}

/// Decides membership in the MBC1 family.
pub fn is_mbc1_family(t: MbcType) -> (b: bool)
    ensures
        b == mbc1_family(t),
{
    matches!(t, MbcType::Mbc1 | MbcType::Mbc1Ram | MbcType::Mbc1RamBattery)
}

/// Decides membership in the MBC2 family.
pub fn is_mbc2_family(t: MbcType) -> (b: bool)
    ensures
        b == mbc2_family(t),
{
    matches!(t, MbcType::Mbc2 | MbcType::Mbc2Battery)
}

/// Decides membership in the MBC3 family.
pub fn is_mbc3_family(t: MbcType) -> (b: bool)
    ensures
        b == mbc3_family(t),
{
    matches!(t, MbcType::Mbc3 | MbcType::Mbc3Ram | MbcType::Mbc3RamBattery)
}

/// Decides membership in the MBC5 family.
pub fn is_mbc5_family(t: MbcType) -> (b: bool)
    ensures
        b == mbc5_family(t),
{
    matches!(t, MbcType::Mbc5 | MbcType::Mbc5Ram | MbcType::Mbc5RamBattery)
}

/// Decides whether the family can switch between several RAM banks.
pub fn supports_ram_banking(t: MbcType) -> (b: bool)
    ensures
        b == has_ram_banking(t),
{
    is_mbc1_family(t) || is_mbc3_family(t) || is_mbc5_family(t)
}

/// Controller type decoded from the header byte at offset `0x47`.
/// Unrecognized bytes fall back to `RomOnly` rather than failing.
pub open spec fn mbc_of_code(b: u8) -> MbcType {
    if b == 0x01 {
        MbcType::Mbc1
    } else if b == 0x02 {
        MbcType::Mbc1Ram
    } else if b == 0x03 {
        MbcType::Mbc1RamBattery
    } else if b == 0x05 {
        MbcType::Mbc2
    } else if b == 0x06 {
        MbcType::Mbc2Battery
    } else if b == 0x11 {
        MbcType::Mbc3
    } else if b == 0x12 {
        MbcType::Mbc3Ram
    } else if b == 0x13 {
        MbcType::Mbc3RamBattery
    } else if b == 0x19 {
        MbcType::Mbc5
    } else if b == 0x1A {
        MbcType::Mbc5Ram
    } else if b == 0x1B {
        MbcType::Mbc5RamBattery
    } else {
        MbcType::RomOnly
    }
}

/// ROM byte count decoded from the size code at offset `0x48`: code 0 is
/// 32 KiB and each further code doubles it, up to code 8 (8 MiB).
/// Codes beyond the table fall back to the smallest ROM.
pub open spec fn rom_size_of_code(b: u8) -> nat {
    if b == 1 {
        0x10000nat
    } else if b == 2 {
        0x20000nat
    } else if b == 3 {
        0x40000nat
    } else if b == 4 {
        0x80000nat
    } else if b == 5 {
        0x100000nat
    } else if b == 6 {
        0x200000nat
    } else if b == 7 {
        0x400000nat
    } else if b == 8 {
        0x800000nat
    } else {
        0x8000nat
    }
}

/// The RAM byte count a parsed header reports.  A board that decodes to
/// `RomOnly` — the genuine code `0x00` as well as the defensive fallback for
/// an unrecognized controller byte — reports no RAM, whatever the RAM-size
/// byte holds: with no identified controller there is no known enable
/// sequence, so its RAM window must never be driven.
pub open spec fn header_ram_size(mbc_code: u8, ram_code: u8) -> nat {
    if mbc_of_code(mbc_code) is RomOnly {
        0nat
    } else {
        ram_size_of_code(ram_code)
    }
}

/// RAM byte count decoded from the size code at offset `0x49`.
/// Codes not in the table map to no RAM.
pub open spec fn ram_size_of_code(b: u8) -> nat {
    if b == 2 {
        0x2000nat
    } else if b == 3 {
        0x8000nat
    } else if b == 4 {
        0x20000nat
    } else if b == 5 {
        0x10000nat
    } else {
        0nat
    }
}

/// The fixed cartridge header, parsed once per session.
///
/// `title` always holds exactly 16 bytes, taken verbatim from the cartridge
/// (a non-text title is tolerated; rendering is the caller's concern).
pub struct CartridgeHeader {
    pub title: Vec<u8>,
    pub mbc_type: MbcType,
    pub rom_size: usize,
    pub ram_size: usize,
}

impl CartridgeHeader {
    /// A parsed header: 16-byte title, sizes drawn from the fixed tables.
    pub open spec fn wf(self) -> bool {
        &&& self.title@.len() == 16
        &&& self.rom_size % 0x4000 == 0
        &&& self.ram_size % 0x2000 == 0
    }
}

/// Decodes the 0x50-byte header region read from cartridge addresses
/// `0x0100..0x0150`.
pub fn parse_header_bytes(bytes: &Vec<u8>) -> (h: CartridgeHeader)
    requires
        bytes@.len() == 0x50,
    ensures
        h.title@ == bytes@.subrange(0x34, 0x44),
        h.mbc_type == mbc_of_code(bytes@[0x47]),
        h.rom_size == rom_size_of_code(bytes@[0x48]),
        h.ram_size == header_ram_size(bytes@[0x47], bytes@[0x49]),
        h.mbc_type is RomOnly ==> h.ram_size == 0,
        h.wf(),
{
    let mut title: Vec<u8> = Vec::new();
    let mut i: usize = 0x34;
    while i < 0x44
        invariant
            0x34 <= i <= 0x44,
            bytes@.len() == 0x50,
            title@ == bytes@.subrange(0x34, i as int),
        decreases 0x44 - i,
    {
        title.push(bytes[i]);
        i = i + 1;
    }
    let mbc_type = decode_mbc(bytes[0x47]);
    let rom_size = decode_rom_size(bytes[0x48]);
    let ram_size = decode_header_ram_size(bytes[0x47], bytes[0x49]);
    proof {
        assert(title@ =~= bytes@.subrange(0x34, 0x44));
    }
    CartridgeHeader { title, mbc_type, rom_size, ram_size }
}

/// Reads the header region `0x0100..0x0150` off the cartridge in one pass
/// and decodes it.  Only the adapter's address latch moves; nothing else on
/// the link changes.
pub fn parse_header(cart: &mut Cartridge) -> (r: Result<CartridgeHeader, MbcError>)
    requires
        old(cart)@.rom.len() >= 0x150,
    ensures
        r is Ok,
        r->Ok_0.title@ == old(cart)@.rom.subrange(0x134, 0x144),
        r->Ok_0.mbc_type == mbc_of_code(old(cart)@.rom[0x147]),
        r->Ok_0.rom_size == rom_size_of_code(old(cart)@.rom[0x148]),
        r->Ok_0.ram_size == header_ram_size(old(cart)@.rom[0x147], old(cart)@.rom[0x149]),
        r->Ok_0.mbc_type is RomOnly ==> r->Ok_0.ram_size == 0,
        r->Ok_0.wf(),
        final(cart)@ == (CartModel {
            addr: 0x14F,
            reads: old(cart)@.reads + 0x50,
            ..old(cart)@
        }),
{
    let mut region: Vec<u8> = Vec::new();
    let mut i: usize = 0x100;
    while i < 0x150
        invariant
            0x100 <= i <= 0x150,
            old(cart)@.rom.len() >= 0x150,
            cart@ == (CartModel { addr: cart@.addr, reads: cart@.reads, ..old(cart)@ }),
            cart@.reads == old(cart)@.reads + (i - 0x100),
            i > 0x100 ==> cart@.addr == i - 1,
            region@ == old(cart)@.rom.subrange(0x100, i as int),
        decreases 0x150 - i,
    {
        cart.set_addr(i as u16);
        let b = cart.read_byte();
        region.push(b);
        proof {
            assert(region@ =~= old(cart)@.rom.subrange(0x100, i + 1));
        }
        i = i + 1;
    }
    let h = parse_header_bytes(&region);
    proof {
        assert(h.title@ =~= old(cart)@.rom.subrange(0x134, 0x144));
        assert(region@[0x47] == old(cart)@.rom[0x147]);
        assert(region@[0x48] == old(cart)@.rom[0x148]);
        assert(region@[0x49] == old(cart)@.rom[0x149]);
    }
    Ok(h)
}

/// Looks the controller-type byte up in the fixed table.
pub fn decode_mbc(b: u8) -> (t: MbcType)
    ensures
        t == mbc_of_code(b),
{
    match b {
        0x01 => MbcType::Mbc1,
        0x02 => MbcType::Mbc1Ram,
        0x03 => MbcType::Mbc1RamBattery,
        0x05 => MbcType::Mbc2,
        0x06 => MbcType::Mbc2Battery,
        0x11 => MbcType::Mbc3,
        0x12 => MbcType::Mbc3Ram,
        0x13 => MbcType::Mbc3RamBattery,
        0x19 => MbcType::Mbc5,
        0x1A => MbcType::Mbc5Ram,
        0x1B => MbcType::Mbc5RamBattery,
        _ => MbcType::RomOnly,
    }
}

/// Looks the ROM-size code up in the fixed doubling table.
pub fn decode_rom_size(b: u8) -> (n: usize)
    ensures
        n == rom_size_of_code(b),
        n % 0x4000 == 0,
        0x8000 <= n <= 0x800000,
{
    match b {
        1 => 0x10000,
        2 => 0x20000,
        3 => 0x40000,
        4 => 0x80000,
        5 => 0x100000,
        6 => 0x200000,
        7 => 0x400000,
        8 => 0x800000,
        _ => 0x8000,
    }
}

/// The RAM byte count a header with these two bytes reports: the fixed
/// table, except that a board decoded as ROM-only reports no RAM.
pub fn decode_header_ram_size(mbc_code: u8, ram_code: u8) -> (n: usize)
    ensures
        n == header_ram_size(mbc_code, ram_code),
        n % 0x2000 == 0,
        n <= 0x20000,
{
    if is_rom_only(decode_mbc(mbc_code)) {
        0
    } else {
        decode_ram_size(ram_code)
    }
}

/// Looks the RAM-size code up in the fixed table.
pub fn decode_ram_size(b: u8) -> (n: usize)
    ensures
        n == ram_size_of_code(b),
        n % 0x2000 == 0,
        n <= 0x20000,
{
    match b {
        2 => 0x2000,
        3 => 0x8000,
        4 => 0x20000,
        5 => 0x10000,
        _ => 0,
    }
}

} // verus!
