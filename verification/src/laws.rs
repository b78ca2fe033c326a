//! Laws relating the protocol operations, stated over the same spec
//! functions their contracts use.
use vstd::prelude::*;

use crate::driver::selected_rom_bank;
use crate::header::MbcType;
use crate::ram::padded_image;

verus! {

/// Law: a restore followed by a dump is the identity on the image.  A
/// restore leaves `padded_image(data, n)` in RAM and a dump returns the RAM
/// verbatim, so when the input covers the whole RAM the bytes that come back
/// are exactly the bytes that went in.
pub proof fn lemma_ram_round_trip(data: Seq<u8>, n: nat)
    requires
        data.len() == n,
    ensures
        padded_image(data, n) == data,
{
    assert(padded_image(data, n) =~= data);
}

/// Law: `n / 0x2000` bank iterations write back exactly `n` bytes, and when
/// the input is at least that long the image written is exactly the input's
/// first `n` bytes — no padding byte appears.
pub proof fn lemma_restore_writes_input_prefix(data: Seq<u8>, n: nat)
    requires
        data.len() >= n,
    ensures
        padded_image(data, n).len() == n,
        padded_image(data, n) == data.subrange(0, n as int),
{
    assert(padded_image(data, n) =~= data.subrange(0, n as int));
}

/// Law: a short input is padded — every position at or past the input's end
/// is written as `0xFF`, and the byte count written still equals `n`.
pub proof fn lemma_restore_pads_short_input(data: Seq<u8>, n: nat)
    ensures
        padded_image(data, n).len() == n,
        forall|j: int|
            data.len() <= j < n ==> padded_image(data, n)[j] == 0xFFu8,
        forall|j: int|
            0 <= j < n && j < data.len() ==> padded_image(data, n)[j] == data[j],
{
}

/// Law: asking any controller family for ROM bank 0 selects bank 1 on the
/// bus — the hardware substitution rule for the switchable region.
pub proof fn lemma_rom_bank_zero_selects_one(t: MbcType)
    ensures
        selected_rom_bank(t, 0) == 1,
{
}

} // verus!
