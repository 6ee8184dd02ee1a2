use vstd::prelude::*;

use crate::address_from_high_low;
use crate::pair_value;
use crate::cpu::{CPU, CpuState, low_byte, high_byte};
use crate::flags::CPUFlags;

verus! {

/// Every operand an instruction can name: the 8-bit registers, the register pairs, the
/// stack pointer, the program counter, and `RAM`, the byte at the address in H:L.
#[derive(Clone, Copy, PartialEq, Eq, Debug, Structural)]
pub enum CPURegister {
    A,
    B,
    C,
    D,
    E,
    H,
    L,
    PSW,
    BC,
    DE,
    HL,
    StackPointer,
    ProgramCounter,
    RAM,
}

/// The value of `register` in `s`; an 8-bit register reads as its byte, a pair as
/// high byte times 256 plus low byte, PSW as the accumulator over the flag byte.
#[verifier::opaque]
pub open spec fn register_value(s: CpuState, register: CPURegister) -> u16 {
    match register {
        CPURegister::A => s.a as u16,
        CPURegister::B => s.b as u16,
        CPURegister::C => s.c as u16,
        CPURegister::D => s.d as u16,
        CPURegister::E => s.e as u16,
        CPURegister::H => s.h as u16,
        CPURegister::L => s.l as u16,
        CPURegister::PSW => pair_value(s.a, s.flags.byte_spec()),
        CPURegister::BC => pair_value(s.b, s.c),
        CPURegister::DE => pair_value(s.d, s.e),
        CPURegister::HL => pair_value(s.h, s.l),
        CPURegister::StackPointer => s.stack.pointer,
        CPURegister::ProgramCounter => s.program_counter,
        CPURegister::RAM => s.byte_at(s.hl()) as u16,
    }
}

/// `s` after writing `value` to `register`: an 8-bit destination keeps the low byte, a
/// pair takes the high byte into its first register and the low byte into its second,
/// and writing the stack pointer starts a new stack window.
#[verifier::opaque]
pub open spec fn with_register(s: CpuState, register: CPURegister, value: u16) -> CpuState {
    match register {
        CPURegister::A => CpuState { a: low_byte(value), ..s },
        CPURegister::B => CpuState { b: low_byte(value), ..s },
        CPURegister::C => CpuState { c: low_byte(value), ..s },
        CPURegister::D => CpuState { d: low_byte(value), ..s },
        CPURegister::E => CpuState { e: low_byte(value), ..s },
        CPURegister::H => CpuState { h: low_byte(value), ..s },
        CPURegister::L => CpuState { l: low_byte(value), ..s },
        CPURegister::PSW => CpuState {
            a: high_byte(value),
            flags: CPUFlags::from_byte_spec(low_byte(value)),
            ..s
        },
        CPURegister::BC => CpuState { b: high_byte(value), c: low_byte(value), ..s },
        CPURegister::DE => CpuState { d: high_byte(value), e: low_byte(value), ..s },
        CPURegister::HL => CpuState { h: high_byte(value), l: low_byte(value), ..s },
        CPURegister::StackPointer => CpuState { stack: s.stack.with_pointer(value), ..s },
        CPURegister::ProgramCounter => CpuState { program_counter: value, ..s },
        CPURegister::RAM => s.with_byte(s.hl(), low_byte(value)),
    }
}

impl CPU {
    pub fn read_register(&self, register: CPURegister) -> (r: u16)
        requires
            self.wf(),
        ensures
            r == register_value(self@, register),
    {
        proof {
            reveal(register_value);
        }
        match register {
            CPURegister::A => self.A as u16,
            CPURegister::B => self.B as u16,
            CPURegister::C => self.C as u16,
            CPURegister::D => self.D as u16,
            CPURegister::E => self.E as u16,
            CPURegister::H => self.H as u16,
            CPURegister::L => self.L as u16,
            CPURegister::PSW => address_from_high_low(self.A, self.flags.to_byte()),
            CPURegister::BC => address_from_high_low(self.B, self.C),
            CPURegister::DE => address_from_high_low(self.D, self.E),
            CPURegister::HL => address_from_high_low(self.H, self.L),
            CPURegister::StackPointer => self.stack.get_pointer(),
            CPURegister::ProgramCounter => self.program_counter,
            CPURegister::RAM => {
                let address = address_from_high_low(self.H, self.L);
                self.ram.read(address) as u16
            },
        }
    }

    #[verifier::spinoff_prover]
    #[verifier::rlimit(50)]
    pub fn write_register(&mut self, register: CPURegister, value: u16)
        requires
            old(self).wf(),
        ensures
            final(self).wf(),
            final(self)@ == with_register(old(self)@, register, value),
    {
        proof {
            reveal(with_register);
        }
        let high = (value / 256) as u8;
        let low = (value % 256) as u8;
        match register {
            CPURegister::A => {
                self.A = low;
            },
            CPURegister::B => {
                self.B = low;
            },
            CPURegister::C => {
                self.C = low;
            },
            CPURegister::D => {
                self.D = low;
            },
            CPURegister::E => {
                self.E = low;
            },
            CPURegister::H => {
                self.H = low;
            },
            CPURegister::L => {
                self.L = low;
            },
            CPURegister::PSW => {
                self.A = high;
                self.flags = CPUFlags::from_byte(low);
            },
            CPURegister::BC => {
                self.B = high;
                self.C = low;
            },
            CPURegister::DE => {
                self.D = high;
                self.E = low;
            },
            CPURegister::HL => {
                self.H = high;
                self.L = low;
            },
            CPURegister::StackPointer => {
                self.stack.set_pointer(value);
            },
            CPURegister::ProgramCounter => {
                self.program_counter = value;
            },
            CPURegister::RAM => {
                let address = address_from_high_low(self.H, self.L);
                self.ram.write(address, low);
            },
        }
    }
}

} // verus!
