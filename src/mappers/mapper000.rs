//! NROM, INES mapper 0: 16 or 32 KiB of PRG ROM at 0x8000, the 16 KiB kind
//! mirrored up to 0xFFFF; 8 KiB of CHR ROM; no bank switching.
use vstd::prelude::*;
use crate::mappers::Mapper;
use crate::memory::{BusOp, Memory};

verus! {

pub struct Mapper000 {
    cpu_ram: [u8; 0x800],
    prg_rom: [u8; 0x8000],
    prg_rom_mask: u16,
    chr_rom: [u8; 0x2000],
    log: Ghost<Seq<BusOp>>,
}

/// The contents of an NROM cartridge and of the console RAM.
pub struct NromView {
    pub ram: Seq<u8>,
    pub prg: Seq<u8>,
    pub mask: u16,
    pub chr: Seq<u8>,
}

impl View for Mapper000 {
    type V = NromView;

    closed spec fn view(&self) -> NromView {
        NromView { ram: self.cpu_ram@, prg: self.prg_rom@, mask: self.prg_rom_mask, chr: self.chr_rom@ }
    }
}

/// What a CPU read of `addr` returns: RAM below 0x2000 (2 KiB mirrored),
/// PRG ROM from 0x8000 through the mask, 0 in between.
pub open spec fn nrom_read(m: NromView, addr: u16) -> u8 {
    if addr < 0x2000 {
        m.ram[(addr % 0x800) as int]
    } else if addr >= 0x8000 {
        m.prg[(addr & m.mask) as int]
    } else {
        0
    }
}

/// A CPU write lands in RAM below 0x2000 and is ignored elsewhere.
pub open spec fn nrom_write(m: NromView, addr: u16, val: u8) -> NromView {
    if addr < 0x2000 {
        NromView { ram: m.ram.update((addr % 0x800) as int, val), ..m }
    } else {
        m
    }
}

/// `src` copied over the start of `dst`, as far as `dst` reaches.
pub open spec fn overlay(dst: Seq<u8>, src: Seq<u8>) -> Seq<u8> {
    Seq::new(dst.len(), |i: int| if i < src.len() { src[i] } else { dst[i] })
}

proof fn lemma_masked(a: u16, m: u16)
    ensures
        a & m <= m,
{
    assert(a & m <= m) by (bit_vector);
}

impl Mapper000 {
    #[verifier::type_invariant]
    spec fn inv(&self) -> bool {
        self.prg_rom_mask <= 0x7FFF
    }

    pub fn new() -> (r: Mapper000)
        ensures
            r@ == (NromView {
                ram: Seq::new(0x800, |i: int| 0u8),
                prg: Seq::new(0x8000, |i: int| 0u8),
                mask: 0,
                chr: Seq::new(0x2000, |i: int| 0u8),
            }),
            r.log() == Seq::<BusOp>::empty(),
    {
        let cpu_ram = [0u8; 0x800];
        let prg_rom = [0u8; 0x8000];
        let chr_rom = [0u8; 0x2000];
        assert(cpu_ram@ =~= Seq::new(0x800, |i: int| 0u8));
        assert(prg_rom@ =~= Seq::new(0x8000, |i: int| 0u8));
        assert(chr_rom@ =~= Seq::new(0x2000, |i: int| 0u8));
        Mapper000 { cpu_ram, prg_rom, prg_rom_mask: 0, chr_rom, log: Ghost(Seq::empty()) }
    }

    /// Copies as much of `src` as fits over the start of a ROM array.
    fn copy_prefix<const N: usize>(dst: &mut [u8; N], src: &[u8])
        ensures
            final(dst)@ == overlay(old(dst)@, src@),
    {
        let n = if src.len() < N { src.len() } else { N };
        let mut i: usize = 0;
        while i < n
            invariant
                n <= N,
                n <= src@.len(),
                n == N || n == src@.len(),
                i <= n,
                dst@.len() == N,
                old(dst)@.len() == N,
                forall|j: int| 0 <= j < N ==> #[trigger] dst@[j] == if j < i { src@[j] } else { old(dst)@[j] },
            decreases n - i,
        {
            dst[i] = src[i];
            i = i + 1;
        }
        assert(dst@ =~= overlay(old(dst)@, src@));
    }
}

impl Mapper for Mapper000 {
    /// Copies up to 32 KiB; a ROM of at most 16 KiB is mirrored.
    fn load_prg_rom(&mut self, prg_rom: &[u8])
        ensures
            final(self)@ == (NromView {
                prg: overlay(old(self)@.prg, prg_rom@),
                mask: if prg_rom@.len() <= 0x4000 { 0x3FFFu16 } else { 0x7FFFu16 },
                ..old(self)@
            }),
    {
        proof {
            use_type_invariant(&*self);
        }
        let mut rom = self.prg_rom;
        Self::copy_prefix(&mut rom, prg_rom);
        self.prg_rom = rom;
        self.prg_rom_mask = if prg_rom.len() <= 0x4000 { 0x3FFF } else { 0x7FFF };
    }

    /// Copies up to 8 KiB.
    fn load_chr_rom(&mut self, chr_rom: &[u8])
        ensures
            final(self)@ == (NromView { chr: overlay(old(self)@.chr, chr_rom@), ..old(self)@ }),
    {
        proof {
            use_type_invariant(&*self);
        }
        let mut rom = self.chr_rom;
        Self::copy_prefix(&mut rom, chr_rom);
        self.chr_rom = rom;
    }

    /// NROM has no PRG RAM to size.
    fn set_ram_size(&mut self, size: u16)
        ensures
            final(self)@ == old(self)@,
    {
    }

    fn overwrite_prg_rom(&mut self, addr: u16, val: u8)
        ensures
            final(self)@ == (NromView {
                prg: old(self)@.prg.update((addr & old(self)@.mask) as int, val),
                ..old(self)@
            }),
    {
        proof {
            use_type_invariant(&*self);
            lemma_masked(addr, self.prg_rom_mask);
        }
        self.prg_rom[(addr & self.prg_rom_mask) as usize] = val;
    }
}

impl Memory for Mapper000 {
    closed spec fn log(&self) -> Seq<BusOp> {
        self.log@
    }

    fn cpu_load8(&mut self, addr: u16) -> (r: u8)
        ensures
            r == nrom_read(old(self)@, addr),
            final(self)@ == old(self)@,
    {
        proof {
            use_type_invariant(&*self);
            lemma_masked(addr, self.prg_rom_mask);
        }
        let r = if addr < 0x2000 {
            self.cpu_ram[(addr % 0x800) as usize]
        } else if addr >= 0x8000 {
            self.prg_rom[(addr & self.prg_rom_mask) as usize]
        } else {
            0
        };
        self.log = Ghost(self.log@.push(BusOp::read(addr, r)));
        r
    }

    fn cpu_store8(&mut self, addr: u16, val: u8)
        ensures
            final(self)@ == nrom_write(old(self)@, addr, val),
    {
        proof {
            use_type_invariant(&*self);
        }
        if addr < 0x2000 {
            self.cpu_ram[(addr % 0x800) as usize] = val;
        }
        self.log = Ghost(self.log@.push(BusOp::store(addr, val)));
    }
}

} // verus!
