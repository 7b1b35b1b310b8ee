//! The INES cartridge format: a 16-byte header, then the PRG ROM, then the
//! CHR ROM.
use vstd::prelude::*;
use crate::mappers::{overlay, Mapper, Mapper000, NromView};
use crate::memory::{BusOp, Memory};

verus! {

/// Why a byte string is not a cartridge this crate can load.
#[derive(Clone, Copy, Debug, PartialEq, Eq, Structural)]
pub enum InesError {
    /// Bytes 0 to 3 are not `"NES"` followed by 0x1A.
    BadMagic,
    /// The file ends before the ROM sizes in bytes 4 and 5 say it should.
    Truncated,
    /// The mapper id of bytes 6 and 7 names no mapper this crate has.
    UnknownMapper(u8),
}

/// What the header says.
#[derive(Clone, Copy, Debug, PartialEq, Eq, Structural)]
pub struct InesHeader {
    /// PRG ROM length in bytes: byte 4 in units of 16 KiB.
    pub prg_rom_size: usize,
    /// CHR ROM length in bytes: byte 5 in units of 8 KiB.
    pub chr_rom_size: usize,
    /// The upper nibble of byte 6, with the upper nibble of byte 7 above it.
    pub mapper_id: u8,
}

pub open spec fn has_magic(d: Seq<u8>) -> bool {
    &&& d.len() >= 4
    &&& d[0] == 0x4E && d[1] == 0x45 && d[2] == 0x53 && d[3] == 0x1A
}

pub open spec fn mapper_id_of(b6: u8, b7: u8) -> u8 {
    (b6 / 16 + b7 / 16 * 16) as u8
}

/// The header of `d`, for a `d` that has the magic and at least 16 bytes.
pub open spec fn header_of(d: Seq<u8>) -> InesHeader {
    InesHeader {
        prg_rom_size: (d[4] * 0x4000) as usize,
        chr_rom_size: (d[5] * 0x2000) as usize,
        mapper_id: mapper_id_of(d[6], d[7]),
    }
}

/// The header and the two ROMs fit in `d`.
pub open spec fn complete(d: Seq<u8>) -> bool {
    d.len() >= 16 && d.len() >= 16 + d[4] * 0x4000 + d[5] * 0x2000
}

/// Reads the header of an INES file, and checks that the file holds the
/// ROMs it announces.
pub fn parse_ines_header(data: &[u8]) -> (r: Result<InesHeader, InesError>)
    ensures
        !has_magic(data@) <==> r == Err::<InesHeader, InesError>(InesError::BadMagic),
        has_magic(data@) && !complete(data@) <==> r == Err::<InesHeader, InesError>(InesError::Truncated),
        has_magic(data@) && complete(data@) <==> r == Ok::<InesHeader, InesError>(header_of(data@)),
{
    if data.len() < 4 || data[0] != 0x4E || data[1] != 0x45 || data[2] != 0x53 || data[3] != 0x1A {
        return Err(InesError::BadMagic);
    }
    if data.len() < 16 {
        return Err(InesError::Truncated);
    }
    let prg_rom_size = data[4] as usize * 0x4000;
    let chr_rom_size = data[5] as usize * 0x2000;
    if data.len() - 16 < prg_rom_size || data.len() - 16 - prg_rom_size < chr_rom_size {
        return Err(InesError::Truncated);
    }
    let mapper_id = data[6] / 16 + data[7] / 16 * 16;
    Ok(InesHeader { prg_rom_size, chr_rom_size, mapper_id })
}

/// A fresh mapper of the given INES id; only NROM (id 0) exists.
pub fn create_mapper(id: u8) -> (r: Result<Mapper000, InesError>)
    ensures
        id == 0 <==> r is Ok,
        id != 0 ==> r == Err::<Mapper000, InesError>(InesError::UnknownMapper(id)),
        r matches Ok(m) ==> m@ == (NromView {
            ram: Seq::new(0x800, |i: int| 0u8),
            prg: Seq::new(0x8000, |i: int| 0u8),
            mask: 0,
            chr: Seq::new(0x2000, |i: int| 0u8),
        }) && m.log() == Seq::<BusOp>::empty(),
{
    if id == 0 {
        Ok(Mapper000::new())
    } else {
        Err(InesError::UnknownMapper(id))
    }
}

/// Reads an INES file into a fresh mapper: its PRG ROM and its CHR ROM.
pub fn load_ines(data: &[u8]) -> (r: Result<Mapper000, InesError>)
    ensures
        !has_magic(data@) ==> r == Err::<Mapper000, InesError>(InesError::BadMagic),
        has_magic(data@) && !complete(data@) ==> r == Err::<Mapper000, InesError>(InesError::Truncated),
        has_magic(data@) && complete(data@) && header_of(data@).mapper_id != 0 ==> r
            == Err::<Mapper000, InesError>(InesError::UnknownMapper(header_of(data@).mapper_id)),
        r is Ok <==> has_magic(data@) && complete(data@) && header_of(data@).mapper_id == 0,
        r matches Ok(m) ==> ({
            let h = header_of(data@);
            let prg = data@.subrange(16, 16 + h.prg_rom_size);
            let chr = data@.subrange(16 + h.prg_rom_size, 16 + h.prg_rom_size + h.chr_rom_size);
            &&& m@ == (NromView {
                ram: Seq::new(0x800, |i: int| 0u8),
                prg: overlay(Seq::new(0x8000, |i: int| 0u8), prg),
                mask: if h.prg_rom_size <= 0x4000 { 0x3FFFu16 } else { 0x7FFFu16 },
                chr: overlay(Seq::new(0x2000, |i: int| 0u8), chr),
            })
            &&& m.log() == Seq::<BusOp>::empty()
        }),
{
    let header = parse_ines_header(data)?;
    let mut mapper = create_mapper(header.mapper_id)?;
    let prg_end = 16 + header.prg_rom_size;
    let chr_end = prg_end + header.chr_rom_size;
    mapper.load_prg_rom(&data[16..prg_end]);
    mapper.load_chr_rom(&data[prg_end..chr_end]);
    Ok(mapper)
}

} // verus!
