//! The 64 KiB bus: mirrored RAM, a mirrored window of I/O registers and a
//! read-only program window backed by the cartridge image.
use vstd::prelude::*;
use crate::rom::Rom;

verus! {

pub const RAM_START: u16 = 0x0000;
pub const RAM_END: u16 = 0xFFFF;
pub const RAM_MIRROR_END: u16 = 0x1FFF;
pub const PPU_START: u16 = 0x2000;
pub const PPU_MIRROR_END: u16 = 0x3FFF;
pub const PRG_ROM_START: u16 = 0x8000;
/// Size of one program bank; a single bank is mirrored over the window.
pub const PRG_BANK_LEN: usize = 0x4000;
/// Size of the program window.
pub const PRG_WINDOW_LEN: usize = 0x8000;
/// Number of bytes behind the bus.
pub const BUS_SIZE: usize = 0x10000;
/// Address of the 16-bit reset vector.
pub const RESET_VECTOR: u16 = 0xFFFC;

/// Error of a bus write.
#[derive(Clone, Copy, Debug, PartialEq, Eq, Structural)]
pub enum BusError {
    /// A write into the program window, at the given address.
    ReadOnly(u16),
}

/// What the bus holds: the backing bytes, indexed by unmirrored address, and
/// the program image.
pub struct MemoryView {
    pub ram: Seq<u8>,
    pub prg: Seq<u8>,
}

/// The backing index an address below the program window lands on.
pub open spec fn unmirrored(pos: u16) -> int {
    if pos <= RAM_MIRROR_END {
        (pos & 0x07FF) as int
    } else if pos <= PPU_MIRROR_END {
        (pos & 0x2007) as int
    } else {
        pos as int
    }
}

/// The address after `pos`, wrapping at the top of the address space.
pub open spec fn next_addr(pos: u16) -> u16 {
    ((pos + 1) % 0x10000) as u16
}

/// A 16-bit value from its low and high bytes.
pub open spec fn le16(lsb: u8, msb: u8) -> u16 {
    (lsb + 256 * msb) as u16
}

/// Index into the program image for an address of the program window; a
/// single 16 KiB bank is repeated over the whole window.
pub open spec fn prg_index(prg_len: int, pos: u16) -> int {
    let offset = pos - PRG_ROM_START;
    if prg_len == PRG_BANK_LEN && offset >= PRG_BANK_LEN {
        offset - PRG_BANK_LEN
    } else {
        offset
    }
}

impl MemoryView {
    pub open spec fn wf(self) -> bool {
        self.ram.len() == BUS_SIZE
    }

    /// The byte a read at `pos` returns; program-window addresses past the
    /// end of the image read as zero.
    pub open spec fn read(self, pos: u16) -> u8 {
        if pos >= PRG_ROM_START {
            let i = prg_index(self.prg.len() as int, pos);
            if i < self.prg.len() {
                self.prg[i]
            } else {
                0
            }
        } else {
            self.ram[unmirrored(pos)]
        }
    }

    pub open spec fn read_u16(self, pos: u16) -> u16 {
        le16(self.read(pos), self.read(next_addr(pos)))
    }

    /// The bus after writing `data` at `pos` (an address below the window).
    pub open spec fn write(self, pos: u16, data: u8) -> MemoryView {
        MemoryView { ram: self.ram.update(unmirrored(pos), data), prg: self.prg }
    }

    /// The bus after writing `data` little-endian at `pos` and the next address.
    pub open spec fn write_u16(self, pos: u16, data: u16) -> MemoryView {
        self.write(pos, (data % 256) as u8).write(next_addr(pos), (data / 256) as u8)
    }

    /// `self` is what loading `program` at `start` makes of the bus `before`:
    /// the backing bytes below the program window and the window's view
    /// show the program from `start` on, the reset vector holds `start`,
    /// everything else is as before, and the image is a full 32 KiB.
    pub open spec fn loaded(self, before: MemoryView, start: u16, program: Seq<u8>) -> bool {
        &&& self.prg.len() == PRG_WINDOW_LEN
        &&& forall|i: int|
            0 <= i < PRG_ROM_START ==> #[trigger] self.ram[i] == if start <= i < start + program.len() {
                program[i - start]
            } else {
                before.ram[i]
            }
        &&& forall|i: int| PRG_ROM_START <= i < BUS_SIZE ==> #[trigger] self.ram[i] == before.ram[i]
        &&& forall|a: u16|
            PRG_ROM_START <= a && a != RESET_VECTOR && a != RESET_VECTOR + 1 ==> #[trigger] self.read(a) == if start
                <= a < start + program.len() {
                program[a - start]
            } else {
                before.read(a)
            }
        &&& self.read_u16(RESET_VECTOR) == start
    }

    /// A write at `pos` is refused exactly in the program window.
    pub open spec fn writable(pos: u16) -> bool {
        pos < PRG_ROM_START
    }
}

/// Within the RAM range, an address lands on the backing byte its low eleven
/// bits select.
pub proof fn lemma_unmirrored_ram(pos: u16)
    requires
        pos <= RAM_MIRROR_END,
    ensures
        unmirrored(pos) == pos % 0x800,
{
    assert(pos & 0x07FF == pos % 0x800) by (bit_vector);
}

/// RAM is mirrored every 2 KiB: a byte written at one address of the RAM
/// range is read back at every address that agrees with it modulo 0x800.
pub proof fn lemma_ram_mirroring(m: MemoryView, written: u16, read: u16, data: u8)
    requires
        m.wf(),
        written <= RAM_MIRROR_END,
        read <= RAM_MIRROR_END,
        written % 0x800 == read % 0x800,
    ensures
        m.write(written, data).read(read) == data,
{
    lemma_unmirrored_ram(written);
    lemma_unmirrored_ram(read);
}

/// The bus: `memory` holds the backing bytes, `rom` the cartridge image.
pub struct Memory {
    pub memory: Vec<u8>,
    pub rom: Rom,
}

impl View for Memory {
    type V = MemoryView;

    open spec fn view(&self) -> MemoryView {
        MemoryView { ram: self.memory@, prg: self.rom.prg@ }
    }
}

impl Memory {
    pub open spec fn wf(&self) -> bool {
        self@.wf()
    }

    /// A bus of zeroes with an empty image.
    pub fn new() -> (r: Memory)
        ensures
            r.wf(),
            forall|i: int| 0 <= i < BUS_SIZE ==> #[trigger] r@.ram[i] == 0,
            r@.prg.len() == 0,
    {
        let mut memory: Vec<u8> = Vec::new();
        let mut i: usize = 0;
        while i < BUS_SIZE
            invariant
                i <= BUS_SIZE,
                memory@.len() == i,
                forall|j: int| 0 <= j < i ==> #[trigger] memory@[j] == 0,
            decreases BUS_SIZE - i,
        {
            memory.push(0);
            i = i + 1;
        }
        Memory { memory, rom: Rom::empty() }
    }

    /// Replaces the cartridge image.
    pub fn load_rom(&mut self, rom: Rom)
        requires
            old(self).wf(),
        ensures
            final(self).wf(),
            final(self)@.ram == old(self)@.ram,
            final(self)@.prg == rom.prg@,
    {
        self.rom = rom;
    }

    fn unmirrored_addr(&self, pos: u16) -> (r: usize)
        ensures
            r == unmirrored(pos),
            r < BUS_SIZE,
    {
        let addr = if pos <= RAM_MIRROR_END {
            pos & 0b0111_1111_1111
        } else if pos <= PPU_MIRROR_END {
            pos & 0b0010_0000_0000_0111
        } else {
            pos
        };
        addr as usize
    }

    fn rom_read(&self, pos: u16) -> (r: u8)
        requires
            pos >= PRG_ROM_START,
        ensures
            r == self@.read(pos),
    {
        let offset: usize = (pos - PRG_ROM_START) as usize;
        let len = self.rom.prg.len();
        let index: usize = if len == PRG_BANK_LEN && offset >= PRG_BANK_LEN {
            offset - PRG_BANK_LEN
        } else {
            offset
        };
        if index < len {
            self.rom.prg[index]
        } else {
            0
        }
    }

    pub fn read(&self, pos: u16) -> (r: u8)
        requires
            self.wf(),
        ensures
            r == self@.read(pos),
    {
        if pos >= PRG_ROM_START {
            self.rom_read(pos)
        } else {
            self.memory[self.unmirrored_addr(pos)]
        }
    }

    /// Writes a byte; the program window is read-only.
    pub fn write(&mut self, pos: u16, data: u8) -> (r: Result<(), BusError>)
        requires
            old(self).wf(),
        ensures
            final(self).wf(),
            MemoryView::writable(pos) ==> r is Ok && final(self)@ == old(self)@.write(pos, data),
            !MemoryView::writable(pos) ==> r == Err::<(), BusError>(BusError::ReadOnly(pos))
                && final(self)@ == old(self)@,
    {
        if pos >= PRG_ROM_START {
            return Err(BusError::ReadOnly(pos));
        }
        let addr = self.unmirrored_addr(pos);
        self.memory.set(addr, data);
        Ok(())
    }

    /// Reads two bytes, low byte first.
    pub fn read_u16(&self, pos: u16) -> (r: u16)
        requires
            self.wf(),
        ensures
            r == self@.read_u16(pos),
    {
        let lsb = self.read(pos);
        let msb = self.read(pos.wrapping_add(1));
        (msb as u16) * 256 + (lsb as u16)
    }

    /// Writes two bytes, low byte first; refused, with nothing written, when
    /// either address is in the program window.
    pub fn write_u16(&mut self, pos: u16, data: u16) -> (r: Result<(), BusError>)
        requires
            old(self).wf(),
        ensures
            final(self).wf(),
            MemoryView::writable(pos) && MemoryView::writable(next_addr(pos)) ==> r is Ok
                && final(self)@ == old(self)@.write_u16(pos, data),
            !MemoryView::writable(pos) ==> r == Err::<(), BusError>(BusError::ReadOnly(pos))
                && final(self)@ == old(self)@,
            MemoryView::writable(pos) && !MemoryView::writable(next_addr(pos)) ==> r == Err::<(), BusError>(
                BusError::ReadOnly(next_addr(pos)),
            ) && final(self)@ == old(self)@,
    {
        let next = pos.wrapping_add(1);
        if pos >= PRG_ROM_START {
            return Err(BusError::ReadOnly(pos));
        }
        if next >= PRG_ROM_START {
            return Err(BusError::ReadOnly(next));
        }
        let _ = self.write(pos, (data % 256) as u8);
        let _ = self.write(next, (data / 256) as u8);
        Ok(())
    }

    /// Copies `length` backing bytes starting at index `pos`, without
    /// mirroring.
    pub fn read_slice(&self, pos: u16, length: usize) -> (r: Vec<u8>)
        requires
            self.wf(),
            pos + length <= BUS_SIZE,
        ensures
            r@ == self@.ram.subrange(pos as int, pos + length),
    {
        let mut r: Vec<u8> = Vec::new();
        let start: usize = pos as usize;
        let mut i: usize = 0;
        while i < length
            invariant
                self.wf(),
                start == pos,
                start + length <= BUS_SIZE,
                i <= length,
                r@ == self@.ram.subrange(start as int, start + i),
            decreases length - i,
        {
            r.push(self.memory[start + i]);
            i = i + 1;
        }
        r
    }

    /// Copies `data` into the backing bytes starting at index `pos`, without
    /// mirroring; used to load images.
    pub fn write_slice(&mut self, pos: u16, data: &[u8])
        requires
            old(self).wf(),
            pos + data@.len() <= BUS_SIZE,
        ensures
            final(self).wf(),
            final(self)@.prg == old(self)@.prg,
            final(self)@.ram == old(self)@.ram.update_subrange_with(pos as int, data@),
    {
        let start: usize = pos as usize;
        let mut i: usize = 0;
        while i < data.len()
            invariant
                self.wf(),
                start == pos,
                start + data@.len() <= BUS_SIZE,
                i <= data@.len(),
                self@.prg == old(self)@.prg,
                self@.ram == old(self)@.ram.update_subrange_with(start as int, data@.subrange(0, i as int)),
            decreases data@.len() - i,
        {
            self.memory.set(start + i, data[i]);
            i = i + 1;
            assert(self@.ram =~= old(self)@.ram.update_subrange_with(start as int, data@.subrange(0, i as int)));
        }
        assert(data@.subrange(0, data@.len() as int) =~= data@);
    }

    /// Loads `program` so that the bus shows its bytes from address `start`
    /// on, without mirroring, and points the reset vector at `start`.
    /// Bytes below the program window go to the backing bytes; the program
    /// window becomes a full 32 KiB image holding what it showed before,
    /// overlaid with the program's bytes there, then the vector.
    pub fn load_program(&mut self, start: u16, program: &[u8])
        requires
            old(self).wf(),
            start + program@.len() <= BUS_SIZE,
        ensures
            final(self).wf(),
            final(self)@.loaded(old(self)@, start, program@),
    {
        let mut image: Vec<u8> = Vec::new();
        let mut i: usize = 0;
        while i < PRG_WINDOW_LEN
            invariant
                self.wf(),
                *self == *old(self),
                i <= PRG_WINDOW_LEN,
                image@.len() == i,
                forall|j: int| 0 <= j < i ==> #[trigger] image@[j] == self@.read((PRG_ROM_START + j) as u16),
            decreases PRG_WINDOW_LEN - i,
        {
            image.push(self.read((PRG_ROM_START as usize + i) as u16));
            i = i + 1;
        }
        let ghost window = image@;
        let mut k: usize = 0;
        while k < program.len()
            invariant
                self.wf(),
                self@.prg == old(self)@.prg,
                start + program@.len() <= BUS_SIZE,
                k <= program@.len(),
                image@.len() == PRG_WINDOW_LEN,
                window.len() == PRG_WINDOW_LEN,
                forall|j: int| 0 <= j < PRG_WINDOW_LEN ==> #[trigger] window[j] == old(self)@.read((PRG_ROM_START + j) as u16),
                forall|j: int|
                    0 <= j < PRG_WINDOW_LEN ==> #[trigger] image@[j] == if start <= j + PRG_ROM_START < start + k {
                        program@[j + PRG_ROM_START - start]
                    } else {
                        window[j]
                    },
                forall|j: int|
                    0 <= j < BUS_SIZE ==> #[trigger] self@.ram[j] == if start <= j < start + k && j < PRG_ROM_START {
                        program@[j - start]
                    } else {
                        old(self)@.ram[j]
                    },
            decreases program@.len() - k,
        {
            let a: usize = start as usize + k;
            if a >= PRG_ROM_START as usize {
                image.set(a - PRG_ROM_START as usize, program[k]);
            } else {
                self.memory.set(a, program[k]);
            }
            k = k + 1;
        }
        image.set(0x7FFC, (start % 256) as u8);
        image.set(0x7FFD, (start / 256) as u8);
        self.rom.prg = image;
    }
}

} // verus!
