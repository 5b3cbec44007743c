//! The execution engine: fetch, decode, execute, then step past the
//! operand bytes unless the instruction moved the program counter itself.
use vstd::prelude::*;

pub mod memory;
pub mod ops;
pub mod register;

use crate::rom::Rom;
use memory::{BusError, Memory, MemoryView, RESET_VECTOR};
use ops::{Op, add8, add16, encoded_length, operand_address, opcode_length};
use ops::table::{Opcode, OpcodeMap, opcode_entry, opcodes};
use register::{CpuRegisters, STACK_POINTER_START, cleared_flags};

verus! {

/// Where programs are loaded by default: the start of the program window.
pub const ROM_START: u16 = 0x8000;
/// Top of the stack page.
pub const STACK_END: u16 = 0x01FF;
pub const NMI_VECTOR: u16 = 0xFFFA;

/// Why the engine stopped with an error; both are fatal.
#[derive(Clone, Copy, Debug, PartialEq, Eq, Structural)]
pub enum Fault {
    /// The byte at the program counter maps to no instruction.
    UnknownOpcode(u8),
    /// The instruction tried to write into the program window.
    Bus(BusError),
}

/// Registers after a reset: zeroed, stack pointer at its start value, flags
/// cleared, program counter from the reset vector.
pub open spec fn reset_registers(m: MemoryView) -> CpuRegisters {
    CpuRegisters {
        p: cleared_flags(),
        pc: register::Register { value: m.read_u16(RESET_VECTOR) },
        sp: register::Register { value: STACK_POINTER_START },
        a: register::Register { value: 0 },
        x: register::Register { value: 0 },
        y: register::Register { value: 0 },
    }
}

/// One step from registers `r` and bus `m`: the opcode at the program
/// counter is fetched and decoded, the counter advanced past it, and the
/// instruction run; when the instruction left the counter where it was, the
/// counter then moves past the operand bytes.
pub open spec fn step_result(r: CpuRegisters, m: MemoryView) -> Result<(CpuRegisters, MemoryView), Fault> {
    let opcode = m.read(r.pc.value);
    match opcode_entry(opcode) {
        None => Err(Fault::UnknownOpcode(opcode)),
        Some(e) => {
            let r1 = r.with_pc(add16(r.pc.value as int, 1));
            match e.op.effect(e.mode, r1, m) {
                None => Err(Fault::Bus(BusError::ReadOnly(operand_address(e.mode, r1, m)))),
                Some(s) => Ok(
                    (
                        if s.0.pc.value == r1.pc.value {
                            s.0.with_pc(add16(r1.pc.value as int, encoded_length(e.mode) - 1))
                        } else {
                            s.0
                        },
                        s.1,
                    ),
                ),
            }
        },
    }
}

/// The processor: registers, bus and dispatch table.
pub struct Cpu {
    pub registers: CpuRegisters,
    pub memory: Memory,
    pub opcodes: OpcodeMap,
}

impl Cpu {
    pub open spec fn wf(&self) -> bool {
        self.memory.wf() && self.opcodes.wf()
    }

    /// A processor with zeroed registers (stack pointer at its start value),
    /// a bus of zeroes and an empty image.
    pub fn new() -> (r: Cpu)
        ensures
            r.wf(),
            r.registers.p == cleared_flags(),
            r.registers.pc.value == 0,
            r.registers.sp.value == STACK_POINTER_START,
            r.registers.a.value == 0 && r.registers.x.value == 0 && r.registers.y.value == 0,
            forall|i: int| 0 <= i < memory::BUS_SIZE ==> #[trigger] r.memory@.ram[i] == 0,
            r.memory@.prg.len() == 0,
    {
        Cpu { registers: CpuRegisters::new(), memory: Memory::new(), opcodes: opcodes() }
    }

    /// Zeroes the registers, clears the flags, sets the stack pointer to its
    /// start value and loads the program counter from the reset vector.
    pub fn reset(&mut self)
        requires
            old(self).wf(),
        ensures
            final(self).wf(),
            final(self).registers == reset_registers(old(self).memory@),
            final(self).memory@ == old(self).memory@,
    {
        self.registers.a.set(0);
        self.registers.x.set(0);
        self.registers.y.set(0);
        self.registers.sp.set(STACK_POINTER_START);
        self.registers.p.reset();
        let pc = self.memory.read_u16(RESET_VECTOR);
        self.registers.pc.set(pc);
    }

    /// Loads a program at the start of the program window.
    pub fn load(&mut self, program: Vec<u8>)
        requires
            old(self).wf(),
            program@.len() <= 0x8000,
        ensures
            final(self).wf(),
            final(self).registers == old(self).registers,
            final(self).memory@.loaded(old(self).memory@, ROM_START, program@),
    {
        self.load_at(ROM_START, program);
    }

    /// Replaces the cartridge image.
    pub fn load_rom(&mut self, rom: Rom)
        requires
            old(self).wf(),
        ensures
            final(self).wf(),
            final(self).registers == old(self).registers,
            final(self).memory@.ram == old(self).memory@.ram,
            final(self).memory@.prg == rom.prg@,
    {
        self.memory.load_rom(rom);
    }

    /// Loads a program so that the bus shows it from `start_addr` on (see
    /// `Memory::load_program`) and points the reset vector there.
    pub fn load_at(&mut self, start_addr: u16, program: Vec<u8>)
        requires
            old(self).wf(),
            start_addr + program@.len() <= memory::BUS_SIZE,
        ensures
            final(self).wf(),
            final(self).registers == old(self).registers,
            final(self).memory@.loaded(old(self).memory@, start_addr, program@),
    {
        self.memory.load_program(start_addr, program.as_slice());
    }

    /// Runs one instruction. Returns whether the engine is now halted (a
    /// break ran). An unmapped opcode or a write into the program window is
    /// a fault, with registers and bus left as they were.
    pub fn step(&mut self) -> (r: Result<bool, Fault>)
        requires
            old(self).wf(),
        ensures
            final(self).wf(),
            match step_result(old(self).registers, old(self).memory@) {
                Ok(s) => r == Ok::<bool, Fault>(s.0.p.break_state) && final(self).registers == s.0
                    && final(self).memory@ == s.1,
                Err(f) => r == Err::<bool, Fault>(f) && final(self).registers == old(self).registers
                    && final(self).memory@ == old(self).memory@,
            },
    {
        let pc = self.registers.pc.value;
        let opcode = self.memory.read(pc);
        let entry = match self.opcodes.get(opcode) {
            Some(e) => e,
            None => {
                return Err(Fault::UnknownOpcode(opcode));
            },
        };
        proof {
            ops::table::lemma_table_modes_accepted(opcode);
        }
        let next = pc.wrapping_add(1);
        self.registers.pc.set(next);
        match entry.op.call(entry.mode, &mut self.registers, &mut self.memory) {
            Ok(()) => {},
            Err(e) => {
                self.registers.pc.set(pc);
                return Err(Fault::Bus(e));
            },
        }
        if self.registers.pc.value == next {
            let skip = (opcode_length(entry.mode) - 1) as u16;
            self.registers.pc.set(next.wrapping_add(skip));
        }
        Ok(self.registers.p.has_broken())
    }

    /// The entry of the instruction at the program counter and its operand
    /// bytes, for tracing; changes nothing.
    pub fn next_instruction(&self) -> (r: Result<(Opcode, Vec<u8>), Fault>)
        requires
            self.wf(),
        ensures
            ({
                let opcode = self.memory@.read(self.registers.pc.value);
                match opcode_entry(opcode) {
                    None => r == Err::<(Opcode, Vec<u8>), Fault>(Fault::UnknownOpcode(opcode)),
                    Some(e) => r is Ok && r->Ok_0.0 == e && r->Ok_0.1@.len() == encoded_length(e.mode) - 1
                        && forall|i: int|
                        0 <= i < r->Ok_0.1@.len() ==> #[trigger] r->Ok_0.1@[i] == self.memory@.read(
                            add16(self.registers.pc.value + 1, i),
                        ),
                }
            }),
    {
        let pc = self.registers.pc.value;
        let opcode = self.memory.read(pc);
        let entry = match self.opcodes.get(opcode) {
            Some(e) => e,
            None => {
                return Err(Fault::UnknownOpcode(opcode));
            },
        };
        let count = opcode_length(entry.mode) - 1;
        let mut operands: Vec<u8> = Vec::new();
        let mut i: u8 = 0;
        while i < count
            invariant
                self.wf(),
                count == encoded_length(entry.mode) - 1,
                i <= count,
                operands@.len() == i,
                forall|j: int|
                    0 <= j < i ==> #[trigger] operands@[j] == self.memory@.read(add16(pc + 1, j)),
            decreases count - i,
        {
            operands.push(self.memory.read(pc.wrapping_add(1).wrapping_add(i as u16)));
            i = i + 1;
        }
        Ok((entry, operands))
    }
}

/// A break halts the engine. When the byte at the program counter is the
/// break opcode, one step succeeds and records the break; the stack then
/// holds the address after the opcode (high byte first) and below it the
/// flags byte with both reserved bits set, the stack pointer is three lower,
/// and the program counter comes from the break vector.
pub proof fn lemma_break_halts(r: CpuRegisters, m: MemoryView)
    requires
        m.wf(),
        m.read(r.pc.value) == 0x00,
    ensures
        step_result(r, m) matches Ok(s) && {
            let sp = r.sp.value;
            let ret = add16(r.pc.value as int, 1);
            &&& s.0.p.break_state
            &&& s.1.read(ops::stack_slot(sp)) == ret / 256
            &&& s.1.read(ops::stack_slot(add8(sp as int, 255))) == ret % 256
            &&& s.1.read(ops::stack_slot(add8(sp as int, 254))) == ops::stack::pushed_flags(r.p)
            &&& ops::stack::pushed_flags(r.p) & register::BREAK_FLAG == register::BREAK_FLAG
            &&& s.0.sp.value == add8(sp as int, 253)
            &&& s.0.pc.value == s.1.read_u16(ops::flow::BRK_VECTOR)
        },
{
    reveal(ops::table::decoded);
    reveal(<ops::table::Instruction as Op>::effect);
    let sp = r.sp.value;
    let sp1 = register::sp_after_push(sp);
    let sp2 = register::sp_after_push(sp1);
    ops::lemma_stack_slot_unmirrored(sp);
    ops::lemma_stack_slot_unmirrored(sp1);
    ops::lemma_stack_slot_unmirrored(sp2);
    assert(ops::stack_slot(sp) != ops::stack_slot(sp1));
    assert(ops::stack_slot(sp) != ops::stack_slot(sp2));
    assert(ops::stack_slot(sp1) != ops::stack_slot(sp2));
    let f = r.p.packed();
    assert((f | 0x30u8) & 0x30u8 == 0x30u8) by (bit_vector);
}

} // verus!
