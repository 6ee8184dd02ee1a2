// An emulator for an 8080-family processor and the arcade board around it: memory,
// flags, the stack window, registers, the instruction table and its semantics, the
// interrupt switch, the two-interrupt frame loop, and the frontend seam through which
// the screen is drawn and the input latches are fed.
use vstd::prelude::*;

// Machine state and the frame loop.
pub mod cpu;
// A frontend that draws nowhere and reports no events.
pub mod dummy_frontend;
// The condition-code register.
pub mod flags;
// Input latches, the screen's drawing commands, and the canvas and event-source traits.
pub mod frontend;
// The interrupt switch.
pub mod interrupts;
// The instruction table, what each instruction does, and the handlers that do it.
pub mod opcodes;
// The 64 KiB memory.
pub mod ram;
// Uniform access to registers, register pairs and the byte at H:L.
pub mod registers;
// The stack pointer and its circular window.
pub mod stack;
// A machine together with its frontend.
pub mod system;
// Browser key names.
pub mod web_keys;

verus! {

/// The 16-bit value whose high byte is `high` and low byte is `low`.
pub open spec fn pair_value(high: u8, low: u8) -> u16 {
    (high as int * 256 + low as int) as u16
}

pub fn address_from_high_low(high: u8, low: u8) -> (r: u16)
    ensures
        r == pair_value(high, low),
{
    (high as u16) * 256 + (low as u16)
}

} // verus!
