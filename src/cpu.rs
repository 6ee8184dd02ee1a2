use vstd::prelude::*;

use crate::address_from_high_low;
use crate::pair_value;
use crate::flags::CPUFlags;
use crate::ram::{cell, stored, image_of, RAM, RAM_SIZE};
use crate::stack::CPUStack;
use crate::interrupts::{CPUInterrupts, interrupt_spec};
use crate::opcodes::{Opcode, opcode_spec, operation_of, execute, execute_spec, build_opcodes_slice};

verus! {

/// `value` reduced modulo 2^16.
pub open spec fn wrap16(value: int) -> u16 {
    (value % 0x10000) as u16
}

/// `value + 1` modulo 2^16.
pub fn increment(value: u16) -> (r: u16)
    ensures
        r == wrap16(value + 1),
{
    value.wrapping_add(1)
}

/// `value - 1` modulo 2^16.
pub fn decrement(value: u16) -> (r: u16)
    ensures
        r == wrap16(value - 1),
{
    value.wrapping_sub(1)
}

/// The low byte of a 16-bit value.
pub open spec fn low_byte(value: u16) -> u8 {
    (value % 256) as u8
}

/// The high byte of a 16-bit value.
pub open spec fn high_byte(value: u16) -> u8 {
    (value / 256) as u8
}

/// The whole machine state as plain values: what every instruction reads and changes.
pub struct CpuState {
    pub a: u8,
    pub b: u8,
    pub c: u8,
    pub d: u8,
    pub e: u8,
    pub h: u8,
    pub l: u8,
    pub program_counter: u16,
    pub stack: CPUStack,
    pub flags: CPUFlags,
    pub in1: u8,
    pub in2: u8,
    pub shift_register: u16,
    pub shift_register_offset: u8,
    pub are_interrupts_enabled: bool,
    pub memory: Seq<u8>,
}

impl CpuState {
    /// Memory has its full size, the shift offset fits in three bits and the stack
    /// pointer lies inside its window.
    pub open spec fn wf(self) -> bool {
        &&& self.memory.len() == RAM_SIZE
        &&& self.shift_register_offset < 8
        &&& self.stack.wf()
    }

    pub open spec fn hl(self) -> u16 {
        pair_value(self.h, self.l)
    }

    pub open spec fn byte_at(self, address: u16) -> u8 {
        cell(self.memory, address)
    }

    pub open spec fn with_byte(self, address: u16, value: u8) -> CpuState {
        CpuState { memory: stored(self.memory, address, value), ..self }
    }

    pub open spec fn with_program_counter(self, address: u16) -> CpuState {
        CpuState { program_counter: address, ..self }
    }

    /// The state after fetching one byte at the program counter, and that byte.
    pub open spec fn fetch_byte(self) -> (CpuState, u8) {
        (
            self.with_program_counter(wrap16(self.program_counter + 1)),
            self.byte_at(self.program_counter),
        )
    }

    /// The state after fetching a little-endian 16-bit operand, and that operand.
    pub open spec fn fetch_address(self) -> (CpuState, u16) {
        let (s1, low) = self.fetch_byte();
        let (s2, high) = s1.fetch_byte();
        (s2, pair_value(high, low))
    }
}

/// The state of a freshly built machine whose memory starts with `rom`.
pub open spec fn initial_state(rom: Seq<u8>) -> CpuState {
    CpuState {
        a: 0,
        b: 0,
        c: 0,
        d: 0,
        e: 0,
        h: 0,
        l: 0,
        program_counter: 0,
        stack: CPUStack::initial(),
        flags: CPUFlags::from_byte_spec(0),
        in1: 0,
        in2: 0,
        shift_register: 0,
        shift_register_offset: 0,
        are_interrupts_enabled: true,
        memory: image_of(rom),
    }
}

/// The processor: registers, flags, stack, input latches, the shift-register
/// peripheral, the interrupt switch and memory.
#[allow(non_snake_case)]
pub struct CPU {
    pub A: u8,
    pub B: u8,
    pub C: u8,
    pub D: u8,
    pub E: u8,
    pub H: u8,
    pub L: u8,
    pub program_counter: u16,
    pub stack: CPUStack,
    pub flags: CPUFlags,
    pub in1: u8,
    pub in2: u8,
    pub shift_register: u16,
    pub shift_register_offset: u8,
    pub are_interrupts_enabled: bool,
    pub ram: RAM,
}

impl View for CPU {
    type V = CpuState;

    open spec fn view(&self) -> CpuState {
        CpuState {
            a: self.A,
            b: self.B,
            c: self.C,
            d: self.D,
            e: self.E,
            h: self.H,
            l: self.L,
            program_counter: self.program_counter,
            stack: self.stack,
            flags: self.flags,
            in1: self.in1,
            in2: self.in2,
            shift_register: self.shift_register,
            shift_register_offset: self.shift_register_offset,
            are_interrupts_enabled: self.are_interrupts_enabled,
            memory: self.ram@,
        }
    }
}

impl CPU {
    pub open spec fn wf(&self) -> bool {
        self@.wf()
    }

    /// The byte at the program counter; the program counter moves past it.
    pub fn next_byte(&mut self) -> (r: u8)
        requires
            old(self).wf(),
        ensures
            final(self).wf(),
            (final(self)@, r) == old(self)@.fetch_byte(),
    {
        let value = self.ram.read(self.program_counter);
        self.program_counter = increment(self.program_counter);
        value
    }

    /// The little-endian 16-bit operand at the program counter; the program counter
    /// moves past it.
    pub fn next_address(&mut self) -> (r: u16)
        requires
            old(self).wf(),
        ensures
            final(self).wf(),
            (final(self)@, r) == old(self)@.fetch_address(),
    {
        let low = self.next_byte();
        let high = self.next_byte();
        address_from_high_low(high, low)
    }
}

/// Cycles each half of a frame runs before its interrupt.
pub const CYCLES_PER_INTERRUPT: u16 = 16600;

/// The state after one instruction, and the cycles it took.
pub open spec fn step_spec(s: CpuState) -> (CpuState, u8) {
    let (fetched, key) = s.fetch_byte();
    let opcode = opcode_spec(key);
    (execute_spec(fetched, opcode.operation), opcode.duration)
}

pub proof fn lemma_durations_positive(key: u8)
    ensures
        opcode_spec(key).duration >= 4,
{
}

/// The state after running instructions from a cycle count of `cycle_count` until the
/// count exceeds the budget of one half frame.
pub open spec fn run_phase(s: CpuState, cycle_count: int) -> CpuState
    decreases cycles_left(cycle_count),
{
    if cycle_count > CYCLES_PER_INTERRUPT {
        s
    } else {
        let (next, duration) = step_spec(s);
        run_phase(next, cycle_count + duration)
    }
}

/// Cycles still to run in a half frame, plus one.
pub open spec fn cycles_left(cycle_count: int) -> nat {
    if cycle_count > CYCLES_PER_INTERRUPT {
        0
    } else {
        (CYCLES_PER_INTERRUPT + 1 - cycle_count) as nat
    }
}

/// One frame: run a half frame and raise interrupt 1, run another and raise interrupt 2.
pub open spec fn frame_spec(s: CpuState) -> CpuState {
    interrupt_spec(run_phase(interrupt_spec(run_phase(s, 0), 1), 0), 2)
}

/// The instruction table, built once and shared by every machine that runs on it.
pub struct CPURunEnvironment {
    opcodes: Vec<Opcode>,
}

impl CPURunEnvironment {
    pub closed spec fn wf(&self) -> bool {
        &&& self.opcodes@.len() == 256
        &&& forall|i: int| 0 <= i < 256 ==> #[trigger] self.opcodes@[i] == opcode_spec(i as u8)
    }
}

impl CPU {
    /// A machine whose memory starts with `rom_bytes`, with every register zero, the
    /// program counter at 0, the stack pointer at the top of memory and interrupts
    /// enabled, together with the instruction table.
    pub fn new(rom_bytes: &[u8]) -> (r: (CPU, CPURunEnvironment))
        ensures
            r.0.wf(),
            r.0@ == initial_state(rom_bytes@),
            r.1.wf(),
    {
        let cpu = CPU {
            A: 0,
            B: 0,
            C: 0,
            D: 0,
            E: 0,
            H: 0,
            L: 0,
            program_counter: 0,
            stack: CPUStack::new(),
            flags: CPUFlags::from_byte(0),
            in1: 0,
            in2: 0,
            shift_register: 0,
            shift_register_offset: 0,
            are_interrupts_enabled: true,
            ram: RAM::new(rom_bytes),
        };
        let opcodes = build_opcodes_slice();
        (cpu, CPURunEnvironment { opcodes })
    }

    /// Fetches, decodes and executes one instruction; returns its cost in cycles.
    pub fn step(&mut self, env: &CPURunEnvironment) -> (r: u8)
        requires
            old(self).wf(),
            env.wf(),
        ensures
            final(self).wf(),
            (final(self)@, r) == step_spec(old(self)@),
    {
        let key = self.next_byte();
        let opcode = env.opcodes[key as usize];
        execute(self, opcode.operation);
        opcode.duration
    }

    /// Runs instructions until more than a half frame of cycles has passed, then raises
    /// interrupt `number`.
    fn run_until_interrupt(&mut self, env: &CPURunEnvironment, number: u16)
        requires
            old(self).wf(),
            env.wf(),
        ensures
            final(self).wf(),
            final(self)@ == interrupt_spec(run_phase(old(self)@, 0), number),
    {
        let ghost target = run_phase(self@, 0);
        let mut cycle_count: u16 = 0;
        while cycle_count <= CYCLES_PER_INTERRUPT
            invariant
                self.wf(),
                env.wf(),
                cycle_count <= CYCLES_PER_INTERRUPT + 18,
                run_phase(self@, cycle_count as int) == target,
            decreases cycles_left(cycle_count as int),
        {
            proof {
                lemma_durations_positive(self@.byte_at(self@.program_counter));
            }
            let duration = self.step(env);
            cycle_count = cycle_count + duration as u16;
        }
        CPUInterrupts::interrupt(self, number);
    }

    /// Runs one frame: two half frames of at least 16600 cycles each, the first ended by
    /// interrupt 1 and the second by interrupt 2.
    pub fn run_until_next_frame(&mut self, env: &CPURunEnvironment)
        requires
            old(self).wf(),
            env.wf(),
        ensures
            final(self).wf(),
            final(self)@ == frame_spec(old(self)@),
    {
        self.run_until_interrupt(env, 1);
        self.run_until_interrupt(env, 2);
    }
}

} // verus!
