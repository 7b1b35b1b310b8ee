//! Cartridge mappers: what the INES loader hands a cartridge, and the CPU
//! address map each mapper implements.
use vstd::prelude::*;
use crate::memory::Memory;

mod mapper000;

pub use mapper000::{nrom_read, nrom_write, overlay, Mapper000, NromView};

verus! {

/// Interface used to load data into a mapper by the INES loader. None of
/// these calls is a bus transaction.
pub trait Mapper: Memory {
    /// Sets the PRG ROM data; its length is a multiple of 16 KiB.
    fn load_prg_rom(&mut self, prg_rom: &[u8])
        ensures
            final(self).log() == old(self).log(),
    ;

    /// Sets the CHR ROM data; its length is a multiple of 8 KiB.
    fn load_chr_rom(&mut self, chr_rom: &[u8])
        ensures
            final(self).log() == old(self).log(),
    ;

    /// Tells the mapper how much PRG RAM the INES file asked for.
    fn set_ram_size(&mut self, size: u16)
        ensures
            final(self).log() == old(self).log(),
    ;

    /// Overwrites a PRG ROM cell with no other effect (no bank switching);
    /// a debugging aid, e.g. to force the reset vector.
    fn overwrite_prg_rom(&mut self, addr: u16, val: u8)
        ensures
            final(self).log() == old(self).log(),
    ;
}

} // verus!
