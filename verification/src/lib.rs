//! Memory Bank Controller (MBC) protocol driver and banked streaming I/O
//! engine for Game Boy cartridges.
//!
//! The crate parses a cartridge header, selects the bank-switching scheme for
//! the detected controller family, and drives sequential ROM reads and RAM
//! reads/writes across multiple addressable banks, respecting the
//! controller-specific register semantics.  The physical address/data link is
//! represented by [`cart::Cartridge`], a register-accurate model of an MBC
//! cartridge behind the adapter's three primitives (`set_addr`, `read_byte`,
//! `write_byte`); every protocol operation is verified against that model.
use vstd::prelude::*;

pub mod cart;
pub mod driver;
pub mod header;
pub mod laws;
pub mod ram;
pub mod romstream;

verus! {

/// Errors surfaced by the protocol driver.
///
/// `Bus` stands for a failure of the physical link; `Unsupported` is returned
/// when a bank operation is requested for a controller family that does not
/// support it.
#[derive(Clone, Copy, Debug, PartialEq, Eq, Structural)]
pub enum MbcError {
    Bus,
    Unsupported,
}

} // verus!
