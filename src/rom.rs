//! Reader for cartridge images: a 16-byte header, an optional 512-byte
//! trainer, then the program banks and the graphics banks.
use vstd::prelude::*;

verus! {

/// The four bytes every image starts with.
pub const NES_TAG: [u8; 4] = [0x4E, 0x45, 0x53, 0x1A];
pub const HEADER_SIZE: usize = 16;
pub const TRAINER_SIZE: usize = 512;
pub const PRG_BANK_SIZE: usize = 16384;
pub const CHR_BANK_SIZE: usize = 8192;
pub const PRG_RAM_UNIT: usize = 8192;

#[derive(Clone, Copy, Debug, PartialEq, Eq, Structural)]
pub enum Mirroring {
    Horizontal,
    Vertical,
    FourScreen,
}

/// Why an image was refused.
#[derive(Clone, Copy, Debug, PartialEq, Eq, Structural)]
pub enum RomError {
    /// The data is shorter than the header; holds the data's length.
    HeaderSize(usize),
    /// The data does not start with the image tag.
    BadTag,
    /// The header announces the extended format, which is not supported.
    UnsupportedFormat,
    /// The header announces more bank bytes than the data holds.
    Truncated { expected: usize, actual: usize },
}

/// What the 16-byte header says.
#[derive(Clone, Copy, Debug)]
pub struct RomHeader {
    pub prg_banks: usize,
    pub chr_banks: usize,
    pub prg_ram_size: usize,
    pub mapper_number: u8,
    pub mirroring: Mirroring,
    pub contains_prg_ram: bool,
    pub contains_trainer: bool,
}

/// The header a 16-byte sequence describes, once its checks have passed.
pub open spec fn header_of(h: Seq<u8>) -> RomHeader {
    RomHeader {
        prg_banks: h[4] as usize,
        chr_banks: h[5] as usize,
        prg_ram_size: h[8] as usize,
        mapper_number: mapper_of(h[6], h[7]),
        mirroring: mirroring_of(h[6]),
        contains_prg_ram: h[6] & 0b0000_0010 != 0,
        contains_trainer: has_trainer(h[6]),
    }
}

/// The error a header gets, if any, checked in order.
pub open spec fn header_error(h: Seq<u8>) -> Option<RomError> {
    if h.len() != HEADER_SIZE {
        Some(RomError::HeaderSize(h.len() as usize))
    } else if h.subrange(0, 4) != NES_TAG@ {
        Some(RomError::BadTag)
    } else if h[7] & 0x0F != 0 {
        Some(RomError::UnsupportedFormat)
    } else {
        None
    }
}

/// Checks and decodes a header: its size, its tag, and that it is not of
/// the extended format.
pub fn parse_header(header: &[u8]) -> (r: Result<RomHeader, RomError>)
    ensures
        match header_error(header@) {
            Some(e) => r == Err::<RomHeader, RomError>(e),
            None => r == Ok::<RomHeader, RomError>(header_of(header@)),
        },
{
    if header.len() != HEADER_SIZE {
        return Err(RomError::HeaderSize(header.len()));
    }
    if !(header[0] == NES_TAG[0] && header[1] == NES_TAG[1] && header[2] == NES_TAG[2] && header[3] == NES_TAG[3]) {
        assert(header@.subrange(0, 4) != NES_TAG@) by {
            if header@.subrange(0, 4) == NES_TAG@ {
                assert(header@.subrange(0, 4)[0] == header@[0]);
                assert(header@.subrange(0, 4)[1] == header@[1]);
                assert(header@.subrange(0, 4)[2] == header@[2]);
                assert(header@.subrange(0, 4)[3] == header@[3]);
            }
        }
        return Err(RomError::BadTag);
    }
    assert(header@.subrange(0, 4) =~= NES_TAG@);
    if header[7] & 0x0F != 0 {
        return Err(RomError::UnsupportedFormat);
    }
    let flags = header[6];
    let mirroring = if flags & 0b0000_1000 != 0 {
        Mirroring::FourScreen
    } else if flags & 0b0000_0001 != 0 {
        Mirroring::Vertical
    } else {
        Mirroring::Horizontal
    };
    Ok(RomHeader {
        prg_banks: header[4] as usize,
        chr_banks: header[5] as usize,
        prg_ram_size: header[8] as usize,
        mapper_number: ((flags & 0xF0) >> 4u8) | (header[7] & 0xF0),
        mirroring,
        contains_prg_ram: flags & 0b0000_0010 != 0,
        contains_trainer: flags & 0b0000_0100 != 0,
    })
}

/// A loaded cartridge: program bytes, graphics bytes, mapper and mirroring.
pub struct Rom {
    pub prg: Vec<u8>,
    pub chr: Vec<u8>,
    pub mapper: u8,
    pub mirroring: Mirroring,
}

/// The mapper number: high nibble of byte 6 low, high nibble of byte 7 high.
pub open spec fn mapper_of(b6: u8, b7: u8) -> u8 {
    ((b6 & 0xF0) >> 4u8) | (b7 & 0xF0)
}

/// Mirroring from the flags of byte 6.
pub open spec fn mirroring_of(b6: u8) -> Mirroring {
    if b6 & 0b0000_1000 != 0 {
        Mirroring::FourScreen
    } else if b6 & 0b0000_0001 != 0 {
        Mirroring::Vertical
    } else {
        Mirroring::Horizontal
    }
}

pub open spec fn has_trainer(b6: u8) -> bool {
    b6 & 0b0000_0100 != 0
}

/// Where the program banks start.
pub open spec fn prg_start_of(data: Seq<u8>) -> int {
    HEADER_SIZE + if has_trainer(data[6]) { TRAINER_SIZE as int } else { 0 }
}

/// Where the program banks end and the graphics banks start.
pub open spec fn prg_end_of(data: Seq<u8>) -> int {
    prg_start_of(data) + data[4] * PRG_BANK_SIZE
}

/// Where the graphics banks end.
pub open spec fn chr_end_of(data: Seq<u8>) -> int {
    prg_end_of(data) + data[5] * CHR_BANK_SIZE
}

/// The error an image gets, if any, checked in order.
pub open spec fn rom_error(data: Seq<u8>) -> Option<RomError> {
    if data.len() < HEADER_SIZE {
        Some(RomError::HeaderSize(data.len() as usize))
    } else if data.subrange(0, 4) != NES_TAG@ {
        Some(RomError::BadTag)
    } else if data[7] & 0x0F != 0 {
        Some(RomError::UnsupportedFormat)
    } else if data.len() < chr_end_of(data) {
        Some(RomError::Truncated { expected: chr_end_of(data) as usize, actual: data.len() as usize })
    } else {
        None
    }
}

/// Copies `data[start..end]`.
fn copy_range(data: &Vec<u8>, start: usize, end: usize) -> (r: Vec<u8>)
    requires
        start <= end <= data.len(),
    ensures
        r@ == data@.subrange(start as int, end as int),
{
    let mut r: Vec<u8> = Vec::new();
    let mut i: usize = start;
    while i < end
        invariant
            start <= i <= end <= data.len(),
            r@ == data@.subrange(start as int, i as int),
        decreases end - i,
    {
        r.push(data[i]);
        i = i + 1;
    }
    r
}

impl Rom {
    /// An image with no program and no graphics bytes.
    pub fn empty() -> (r: Rom)
        ensures
            r.prg@.len() == 0,
            r.chr@.len() == 0,
            r.mapper == 0,
            r.mirroring == Mirroring::Horizontal,
    {
        Rom { prg: Vec::new(), chr: Vec::new(), mapper: 0, mirroring: Mirroring::Horizontal }
    }

    /// Parses an image; refuses a short header, a wrong tag, the extended
    /// header format, and data shorter than the banks the header announces.
    pub fn from(data: Vec<u8>) -> (r: Result<Rom, RomError>)
        ensures
            match rom_error(data@) {
                Some(e) => r == Err::<Rom, RomError>(e),
                None => r is Ok && ({
                    let rom = r->Ok_0;
                    &&& rom.prg@ == data@.subrange(prg_start_of(data@), prg_end_of(data@))
                    &&& rom.chr@ == data@.subrange(prg_end_of(data@), chr_end_of(data@))
                    &&& rom.mapper == mapper_of(data@[6], data@[7])
                    &&& rom.mirroring == mirroring_of(data@[6])
                }),
            },
    {
        if data.len() < HEADER_SIZE {
            return Err(RomError::HeaderSize(data.len()));
        }
        let first = copy_range(&data, 0, HEADER_SIZE);
        assert(first@.subrange(0, 4) =~= data@.subrange(0, 4));
        let header = match parse_header(first.as_slice()) {
            Ok(h) => h,
            Err(e) => {
                return Err(e);
            },
        };
        let prg_start: usize = if header.contains_trainer { HEADER_SIZE + TRAINER_SIZE } else { HEADER_SIZE };
        let prg_end: usize = prg_start + header.prg_banks * PRG_BANK_SIZE;
        let chr_end: usize = prg_end + header.chr_banks * CHR_BANK_SIZE;
        if data.len() < chr_end {
            return Err(RomError::Truncated { expected: chr_end, actual: data.len() });
        }
        Ok(Rom {
            prg: copy_range(&data, prg_start, prg_end),
            chr: copy_range(&data, prg_end, chr_end),
            mapper: header.mapper_number,
            mirroring: header.mirroring,
        })
    }
}

} // verus!
