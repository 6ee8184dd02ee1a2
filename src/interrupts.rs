use vstd::prelude::*;

use crate::cpu::{CPU, CpuState, wrap16};
use crate::stack::{CPUStack, push_address_spec};

verus! {

/// The state after raising interrupt `number`: when interrupts are enabled they become
/// disabled, the program counter is pushed and execution moves to `number * 8`; when
/// they are disabled nothing happens.
pub open spec fn interrupt_spec(s: CpuState, number: u16) -> CpuState {
    if s.are_interrupts_enabled {
        push_address_spec(
            CpuState { are_interrupts_enabled: false, ..s },
            s.program_counter,
        ).with_program_counter(wrap16(number * 8))
    } else {
        s
    }
}

pub struct CPUInterrupts {}

impl CPUInterrupts {
    pub fn interrupt(cpu: &mut CPU, number: u16)
        requires
            old(cpu).wf(),
        ensures
            final(cpu).wf(),
            final(cpu)@ == interrupt_spec(old(cpu)@, number),
    {
        if cpu.are_interrupts_enabled {
            cpu.are_interrupts_enabled = false;
            let return_address = cpu.program_counter;
            CPUStack::push_address(cpu, return_address);
            let interrupt_vector = ((number as u32 * 8) % 0x10000) as u16;
            cpu.program_counter = interrupt_vector;
        }
    }
}

} // verus!
