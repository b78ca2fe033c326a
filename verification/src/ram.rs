//! RAM accessor: full dump and full restore over 8 KiB banks.
//!
//! Both flows bracket every data access between the RAM enable and disable
//! sequences.  A dump walks `ram_size / 0x2000` banks in bank-major,
//! address-ascending order and emits exactly `ram_size` bytes.  A restore
//! writes the input image back under the hardware timing discipline — one
//! settle delay before and one after every data byte — padding everything
//! past the end of a short input with `0xFF`, so the byte count written is
//! always exactly `ram_size`.  A cartridge that reports no RAM makes the
//! restore a successful no-op.
use vstd::prelude::*;

use crate::cart::{active_ram_bank, ram_accessible, ram_geometry_ok};
use crate::driver::{selected_ram_bank, MbcDriver};
use crate::header::{has_ram_banking, is_mbc2_family, mbc2_family, supports_ram_banking, CartridgeHeader};
use crate::MbcError;

verus! {

/// The image a restore leaves in RAM: the input, padded with `0xFF` past the
/// input's end, cut to the RAM's size.
pub open spec fn padded_image(data: Seq<u8>, n: nat) -> Seq<u8> {
    Seq::new(n, |i: int| if i < data.len() { data[i] } else { 0xFFu8 })
}

/// What dump and restore ask of the session: the header describes the board
/// the driver is driving, the sizes are in the family's geometry, and — for
/// a banking family with a single bank, where the select call is skipped —
/// the RAM window already shows bank 0.
pub open spec fn ram_session_ok(drv: MbcDriver, h: CartridgeHeader) -> bool {
    &&& drv.inv()
    &&& h.mbc_type == drv.mbc
    &&& h.ram_size == drv.cart@.ram.len()
    &&& h.ram_size % 0x2000 == 0
    &&& ram_geometry_ok(drv.mbc, h.ram_size as int)
    &&& (has_ram_banking(drv.mbc) && h.ram_size == 0x2000) ==> drv.state.ram_bank == 0
}

/// Reads the whole cartridge RAM: enable, walk every bank in ascending
/// order reading `0xA000..0xC000`, disable.  The result is exactly the RAM
/// image, `ram_size` bytes in bank-major, address-ascending order.  On a
/// board without RAM banking, or with a single bank, no bank-select
/// sequence is issued.
pub fn dump_ram(drv: &mut MbcDriver, h: &CartridgeHeader) -> (r: Result<Vec<u8>, MbcError>)
    requires
        ram_session_ok(*old(drv), *h),
    ensures
        r is Ok,
        r->Ok_0@ == old(drv).cart@.ram,
        r->Ok_0@.len() == h.ram_size,
        final(drv).inv(),
        final(drv).mbc == old(drv).mbc,
        final(drv).cart@.rom == old(drv).cart@.rom,
        final(drv).cart@.ram == old(drv).cart@.ram,
        final(drv).cart@.mbc == old(drv).cart@.mbc,
        final(drv).cart@.waits == old(drv).cart@.waits,
        !final(drv).state.ram_enabled,
        !final(drv).cart@.ram_enabled,
        final(drv).rom_selects@ == old(drv).rom_selects@,
        final(drv).cart@.reads == old(drv).cart@.reads + h.ram_size,
        final(drv).enables@ == old(drv).enables@ + if old(drv).mbc is RomOnly {
            0int
        } else {
            1int
        },
        final(drv).disables@ == old(drv).disables@ + if old(drv).mbc is RomOnly {
            0int
        } else {
            1int
        },
        (!has_ram_banking(old(drv).mbc) || h.ram_size <= 0x2000) ==> final(drv).ram_selects@
            == old(drv).ram_selects@ && final(drv).state.ram_bank == old(drv).state.ram_bank
            && active_ram_bank(final(drv).cart@) == active_ram_bank(old(drv).cart@),
    {
    let t = h.mbc_type;
    match drv.enable_ram(t) {
        Ok(()) => {},
        Err(e) => {
            return Err(e);
        },
    }
    let ghost pre = *old(drv);
    let num_banks = h.ram_size / 0x2000;
    let banked = supports_ram_banking(t) && num_banks > 1;
    let mut out: Vec<u8> = Vec::new();
    let mut bank: usize = 0;
    while bank < num_banks
        invariant
            drv.inv(),
            drv.mbc == pre.mbc,
            drv.mbc == h.mbc_type,
            drv.cart@.rom == pre.cart@.rom,
            drv.cart@.ram == pre.cart@.ram,
            drv.cart@.waits == pre.cart@.waits,
            drv.rom_selects@ == pre.rom_selects@,
            ram_accessible(drv.cart@),
            drv.state.ram_enabled,
            h.ram_size == drv.cart@.ram.len(),
            num_banks == h.ram_size / 0x2000,
            h.ram_size % 0x2000 == 0,
            ram_geometry_ok(drv.mbc, h.ram_size as int),
            banked == (has_ram_banking(drv.mbc) && num_banks > 1),
            bank <= num_banks,
            drv.cart@.reads == pre.cart@.reads + bank * 0x2000,
            drv.enables@ == pre.enables@ + if pre.mbc is RomOnly {
                0int
            } else {
                1int
            },
            drv.disables@ == pre.disables@,
            (!banked && num_banks > 0) ==> active_ram_bank(drv.cart@) == 0,
            !banked ==> drv.ram_selects@ == pre.ram_selects@ && drv.state.ram_bank
                == pre.state.ram_bank && active_ram_bank(drv.cart@) == active_ram_bank(pre.cart@),
            out@.len() == bank * 0x2000,
            out@ == drv.cart@.ram.subrange(0, bank as int * 0x2000),
        decreases num_banks - bank,
    {
        if banked {
            proof {
                assert(num_banks <= 16);
                assert(selected_ram_bank(drv.mbc, bank as u8) == bank as int);
            }
            match drv.select_ram_bank(bank as u8) {
                Ok(()) => {},
                Err(e) => {
                    return Err(e);
                },
            }
        }
        let base = bank * 0x2000;
        let mut off: usize = 0;
        while off < 0x2000
            invariant
                drv.inv(),
                drv.mbc == pre.mbc,
                drv.mbc == h.mbc_type,
                drv.cart@.rom == pre.cart@.rom,
                drv.cart@.ram == pre.cart@.ram,
                drv.cart@.waits == pre.cart@.waits,
                drv.rom_selects@ == pre.rom_selects@,
                ram_accessible(drv.cart@),
                drv.state.ram_enabled,
                h.ram_size == drv.cart@.ram.len(),
                num_banks == h.ram_size / 0x2000,
                h.ram_size % 0x2000 == 0,
                ram_geometry_ok(drv.mbc, h.ram_size as int),
                banked == (has_ram_banking(drv.mbc) && num_banks > 1),
                bank < num_banks,
                base == bank * 0x2000,
                off <= 0x2000,
                drv.cart@.reads == pre.cart@.reads + base + off,
                drv.enables@ == pre.enables@ + if pre.mbc is RomOnly {
                    0int
                } else {
                    1int
                },
                drv.disables@ == pre.disables@,
                active_ram_bank(drv.cart@) == bank as int,
                !banked ==> drv.ram_selects@ == pre.ram_selects@ && drv.state.ram_bank
                    == pre.state.ram_bank && active_ram_bank(drv.cart@) == active_ram_bank(
                    pre.cart@),
                out@.len() == base + off,
                out@ == drv.cart@.ram.subrange(0, base + off),
            decreases 0x2000 - off,
        {
            proof {
                assert(base + off < h.ram_size) by (nonlinear_arith)
                    requires
                        base == bank * 0x2000,
                        bank < num_banks,
                        off < 0x2000,
                        num_banks == h.ram_size / 0x2000,
                        h.ram_size % 0x2000 == 0,
                        h.ram_size >= 0,
                ;
            }
            let a: u16 = (0xA000 + off) as u16;
            drv.set_addr(a);
            let b = match drv.read_byte() {
                Ok(b) => b,
                Err(e) => {
                    return Err(e);
                },
            };
            proof {
                assert(b == drv.cart@.ram[base + off]);
            }
            out.push(b);
            proof {
                assert(out@ =~= drv.cart@.ram.subrange(0, base + off + 1));
            }
            off = off + 1;
        }
        bank = bank + 1;
    }
    match drv.disable_ram(t) {
        Ok(()) => {},
        Err(e) => {
            return Err(e);
        },
    }
    proof {
        assert(out@ =~= drv.cart@.ram);
    }
    Ok(out)
}

/// Writes a RAM image back to the cartridge: the MBC2 pre-write quirk fix
/// where that family needs it, enable, walk every bank writing
/// `0xA000..0xC000` under the settle-delay discipline, disable.  Exactly
/// `ram_size` data bytes are written — input bytes as far as the input
/// reaches, `0xFF` from there on — between exactly `2 * ram_size` settle
/// delays.  A cartridge that reports no RAM makes this a successful no-op.
pub fn restore_ram(drv: &mut MbcDriver, h: &CartridgeHeader, data: &Vec<u8>) -> (r: Result<
    (),
    MbcError,
>)
    requires
        ram_session_ok(*old(drv), *h),
    ensures
        r is Ok,
        final(drv).cart@.ram == padded_image(data@, h.ram_size as nat),
        final(drv).inv(),
        final(drv).mbc == old(drv).mbc,
        final(drv).cart@.rom == old(drv).cart@.rom,
        final(drv).cart@.mbc == old(drv).cart@.mbc,
        final(drv).cart@.ram.len() == old(drv).cart@.ram.len(),
        final(drv).cart@.waits == old(drv).cart@.waits + 2 * h.ram_size,
        final(drv).rom_selects@ == old(drv).rom_selects@,
        h.ram_size == 0 ==> *final(drv) == *old(drv),
        h.ram_size > 0 ==> !final(drv).state.ram_enabled && !final(drv).cart@.ram_enabled,
        h.ram_size > 0 ==> final(drv).cart@.reads == old(drv).cart@.reads + if mbc2_family(
            old(drv).mbc,
        ) {
            1int
        } else {
            0int
        },
        h.ram_size > 0 ==> final(drv).enables@ == old(drv).enables@ + if old(
            drv,
        ).mbc is RomOnly {
            0int
        } else {
            1int
        },
        h.ram_size > 0 ==> final(drv).disables@ == old(drv).disables@ + if old(
            drv,
        ).mbc is RomOnly {
            0int
        } else {
            1int
        },
        (!has_ram_banking(old(drv).mbc) || h.ram_size <= 0x2000) ==> final(drv).ram_selects@
            == old(drv).ram_selects@ && final(drv).state.ram_bank == old(drv).state.ram_bank
            && active_ram_bank(final(drv).cart@) == active_ram_bank(old(drv).cart@),
    {
    if h.ram_size == 0 {
        proof {
            assert(padded_image(data@, 0) =~= old(drv).cart@.ram);
        }
        return Ok(());
    }
    let t = h.mbc_type;
    // A known hardware quirk: MBC2 boards accept data writes only after one
    // throwaway read at 0x0134.
    if is_mbc2_family(t) {
        drv.set_addr(0x0134);
        let _thrown: u8 = match drv.read_byte() {
            Ok(b) => b,
            Err(e) => {
                return Err(e);
            },
        };
    }
    match drv.enable_ram(t) {
        Ok(()) => {},
        Err(e) => {
            return Err(e);
        },
    }
    let ghost pre = *old(drv);
    let ghost target = padded_image(data@, h.ram_size as nat);
    let num_banks = h.ram_size / 0x2000;
    let banked = supports_ram_banking(t) && num_banks > 1;
    let mut bank: usize = 0;
    while bank < num_banks
        invariant
            drv.inv(),
            drv.mbc == pre.mbc,
            drv.mbc == h.mbc_type,
            drv.cart@.rom == pre.cart@.rom,
            drv.cart@.ram.len() == pre.cart@.ram.len(),
            drv.cart@.waits == pre.cart@.waits + 2 * (bank * 0x2000),
            drv.rom_selects@ == pre.rom_selects@,
            ram_accessible(drv.cart@),
            drv.state.ram_enabled,
            h.ram_size == drv.cart@.ram.len(),
            num_banks == h.ram_size / 0x2000,
            h.ram_size % 0x2000 == 0,
            ram_geometry_ok(drv.mbc, h.ram_size as int),
            banked == (has_ram_banking(drv.mbc) && num_banks > 1),
            bank <= num_banks,
            drv.cart@.reads == pre.cart@.reads + if mbc2_family(pre.mbc) {
                1int
            } else {
                0int
            },
            drv.enables@ == pre.enables@ + if pre.mbc is RomOnly {
                0int
            } else {
                1int
            },
            drv.disables@ == pre.disables@,
            (!banked && num_banks > 0) ==> active_ram_bank(drv.cart@) == 0,
            !banked ==> drv.ram_selects@ == pre.ram_selects@ && drv.state.ram_bank
                == pre.state.ram_bank && active_ram_bank(drv.cart@) == active_ram_bank(pre.cart@),
            target == padded_image(data@, h.ram_size as nat),
            forall|j: int| 0 <= j < bank * 0x2000 ==> drv.cart@.ram[j] == target[j],
        decreases num_banks - bank,
    {
        if banked {
            proof {
                assert(num_banks <= 16);
                assert(selected_ram_bank(drv.mbc, bank as u8) == bank as int);
            }
            match drv.select_ram_bank(bank as u8) {
                Ok(()) => {},
                Err(e) => {
                    return Err(e);
                },
            }
        }
        let base = bank * 0x2000;
        let mut off: usize = 0;
        while off < 0x2000
            invariant
                drv.inv(),
                drv.mbc == pre.mbc,
                drv.mbc == h.mbc_type,
                drv.cart@.rom == pre.cart@.rom,
                drv.cart@.ram.len() == pre.cart@.ram.len(),
                drv.cart@.waits == pre.cart@.waits + 2 * (base + off),
                drv.rom_selects@ == pre.rom_selects@,
                ram_accessible(drv.cart@),
                drv.state.ram_enabled,
                h.ram_size == drv.cart@.ram.len(),
                num_banks == h.ram_size / 0x2000,
                h.ram_size % 0x2000 == 0,
                ram_geometry_ok(drv.mbc, h.ram_size as int),
                banked == (has_ram_banking(drv.mbc) && num_banks > 1),
                bank < num_banks,
                base == bank * 0x2000,
                off <= 0x2000,
                drv.cart@.reads == pre.cart@.reads + if mbc2_family(pre.mbc) {
                    1int
                } else {
                    0int
                },
                drv.enables@ == pre.enables@ + if pre.mbc is RomOnly {
                    0int
                } else {
                    1int
                },
                drv.disables@ == pre.disables@,
                active_ram_bank(drv.cart@) == bank as int,
                !banked ==> drv.ram_selects@ == pre.ram_selects@ && drv.state.ram_bank
                    == pre.state.ram_bank && active_ram_bank(drv.cart@) == active_ram_bank(
                    pre.cart@),
                target == padded_image(data@, h.ram_size as nat),
                forall|j: int| 0 <= j < base + off ==> drv.cart@.ram[j] == target[j],
            decreases 0x2000 - off,
        {
            proof {
                assert(base + off < h.ram_size) by (nonlinear_arith)
                    requires
                        base == bank * 0x2000,
                        bank < num_banks,
                        off < 0x2000,
                        num_banks == h.ram_size / 0x2000,
                        h.ram_size % 0x2000 == 0,
                        h.ram_size >= 0,
                ;
            }
            let idx = base + off;
            let a: u16 = (0xA000 + off) as u16;
            drv.set_addr(a);
            drv.wait_settle();
            let v: u8 = if idx < data.len() {
                data[idx]
            } else {
                0xFF
            };
            match drv.write_byte(v) {
                Ok(()) => {},
                Err(e) => {
                    return Err(e);
                },
            }
            drv.wait_settle();
            off = off + 1;
        }
        bank = bank + 1;
    }
    match drv.disable_ram(t) {
        Ok(()) => {},
        Err(e) => {
            return Err(e);
        },
    }
    proof {
        assert(drv.cart@.ram =~= target);
    }
    Ok(())
}

} // verus!
