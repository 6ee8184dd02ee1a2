use vstd::prelude::*;

use crate::cpu::{CPU, CpuState, wrap16, low_byte, high_byte, increment, decrement};
use crate::flags::{CPUFlags, bit_of};
use crate::registers::{CPURegister, register_value, with_register};
use crate::stack::{CPUStack, push_address_spec, pop_address_spec, push_byte_spec, pop_byte_spec};

verus! {

/// The branch conditions: each tests one flag, set or clear.
#[derive(Clone, Copy, PartialEq, Eq, Debug, Structural)]
pub enum Condition {
    NotZero,
    Zero,
    NoCarry,
    Carry,
    Odd,
    Even,
    Positive,
    Negative,
}

impl Condition {
    pub open spec fn holds(self, flags: CPUFlags) -> bool {
        match self {
            Condition::NotZero => !flags.zero,
            Condition::Zero => flags.zero,
            Condition::NoCarry => !flags.carry,
            Condition::Carry => flags.carry,
            Condition::Odd => !flags.even,
            Condition::Even => flags.even,
            Condition::Positive => !flags.negative,
            Condition::Negative => flags.negative,
        }
    }

    pub fn test(&self, flags: &CPUFlags) -> (r: bool)
        ensures
            r == self.holds(*flags),
    {
        match self {
            Condition::NotZero => !flags.zero,
            Condition::Zero => flags.zero,
            Condition::NoCarry => !flags.carry,
            Condition::Carry => flags.carry,
            Condition::Odd => !flags.even,
            Condition::Even => flags.even,
            Condition::Positive => !flags.negative,
            Condition::Negative => flags.negative,
        }
    }
}

/// Instructions that take a one-byte immediate operand.
#[derive(Clone, Copy, PartialEq, Eq, Debug, Structural)]
pub enum ByteOperation {
    Mvi(CPURegister),
    Ani,
    Xri,
    Ori,
    Adi,
    Aci,
    Sui,
    Sbi,
    Cpi,
    Out,
    In,
}

/// Instructions that take a two-byte immediate operand.
#[derive(Clone, Copy, PartialEq, Eq, Debug, Structural)]
pub enum AddressOperation {
    Jmp,
    JmpIf(Condition),
    Call,
    CallIf(Condition),
    Lda,
    Lxi(CPURegister),
    Lhld,
    Sta,
    Shld,
}

/// What one instruction byte does. `Mov(from, to)` copies `from` into `to`.
#[derive(Clone, Copy, PartialEq, Eq, Debug, Structural)]
pub enum Operation {
    Nop,
    Mov(CPURegister, CPURegister),
    Ana(CPURegister),
    Xra(CPURegister),
    Ora(CPURegister),
    Rrc,
    Rar,
    Rlc,
    Ral,
    Inr(CPURegister),
    Inx(CPURegister),
    Dcr(CPURegister),
    Dcx(CPURegister),
    Add(CPURegister),
    Adc(CPURegister),
    Sub(CPURegister),
    Sbb(CPURegister),
    Cmp(CPURegister),
    Push(CPURegister),
    Pop(CPURegister),
    Ret,
    RetIf(Condition),
    Rst(u16),
    Ldax(CPURegister),
    Stax(CPURegister),
    Dad(CPURegister),
    Cma,
    Stc,
    Cmc,
    Pchl,
    Sphl,
    Xchg,
    Xthl,
    Di,
    Ei,
    Daa,
    ReadByteThen(ByteOperation),
    ReadAddressThen(AddressOperation),
}

/// One entry of the instruction table: its byte, what it does and its cost in cycles.
#[derive(Clone, Copy, PartialEq, Eq, Debug, Structural)]
pub struct Opcode {
    pub key: u8,
    pub operation: Operation,
    pub duration: u8,
}

// ---------------------------------------------------------------------------------------
// Flags

/// Number of set bits of `value`.
pub open spec fn ones(value: nat) -> nat
    decreases value,
{
    if value == 0 {
        0
    } else {
        value % 2 + ones(value / 2)
    }
}

/// Parity flag: an even number of set bits.
pub open spec fn even_parity(value: u8) -> bool {
    ones(value as nat) % 2 == 0
}

/// Flags derived from a 16-bit intermediate result: zero, sign and parity from its low
/// byte, carry and auxiliary carry when it does not fit in a byte.
pub open spec fn arithmetic_flags(flags: CPUFlags, value: u16) -> CPUFlags {
    let byte = low_byte(value);
    CPUFlags {
        zero: byte == 0,
        negative: byte > 0x7F,
        even: even_parity(byte),
        carry: value > 0xFF,
        aux_carry: value > 0xFF,
        ..flags
    }
}

/// `flags` with both carry and auxiliary carry set to `carry`.
pub open spec fn with_carry(flags: CPUFlags, carry: bool) -> CPUFlags {
    CPUFlags { carry, aux_carry: carry, ..flags }
}

// ---------------------------------------------------------------------------------------
// Meaning of each instruction

pub open spec fn mov_spec(s: CpuState, from: CPURegister, to: CPURegister) -> CpuState {
    with_register(s, to, register_value(s, from))
}

/// Accumulator replaced by `result`, flags derived from it.
pub open spec fn logic_spec(s: CpuState, result: u8) -> CpuState {
    CpuState { a: result, flags: arithmetic_flags(s.flags, result as u16), ..s }
}

pub open spec fn ani_spec(s: CpuState, value: u8) -> CpuState {
    logic_spec(s, s.a & value)
}

pub open spec fn xri_spec(s: CpuState, value: u8) -> CpuState {
    logic_spec(s, s.a ^ value)
}

pub open spec fn ori_spec(s: CpuState, value: u8) -> CpuState {
    logic_spec(s, s.a | value)
}

/// Rotate right: bit 0 goes to carry and to bit 7.
pub open spec fn rrc_spec(s: CpuState) -> CpuState {
    let out = s.a % 2;
    CpuState {
        a: (out * 128 + s.a / 2) as u8,
        flags: CPUFlags { carry: out == 1, ..s.flags },
        ..s
    }
}

/// Rotate right through carry: bit 0 goes to carry, the old carry to bit 7.
pub open spec fn rar_spec(s: CpuState) -> CpuState {
    CpuState {
        a: (bit_of(s.flags.carry) * 128 + s.a / 2) as u8,
        flags: CPUFlags { carry: s.a % 2 == 1, ..s.flags },
        ..s
    }
}

/// Rotate left: bit 7 goes to carry and to bit 0.
pub open spec fn rlc_spec(s: CpuState) -> CpuState {
    let out = s.a / 128;
    CpuState {
        a: ((s.a % 128) * 2 + out) as u8,
        flags: CPUFlags { carry: out == 1, ..s.flags },
        ..s
    }
}

/// Rotate left through carry: bit 7 goes to carry, the old carry to bit 0.
pub open spec fn ral_spec(s: CpuState) -> CpuState {
    CpuState {
        a: ((s.a % 128) * 2 + bit_of(s.flags.carry)) as u8,
        flags: CPUFlags { carry: s.a / 128 == 1, ..s.flags },
        ..s
    }
}

/// Writes `value` to `target`, derives the flags from it, and sets carry and auxiliary
/// carry to `carry`.
pub open spec fn counted_spec(s: CpuState, target: CPURegister, value: u16, carry: bool) -> CpuState {
    let s1 = with_register(s, target, value);
    CpuState { flags: with_carry(arithmetic_flags(s1.flags, value), carry), ..s1 }
}

pub open spec fn inr_spec(s: CpuState, target: CPURegister) -> CpuState {
    let old_value = register_value(s, target);
    counted_spec(s, target, wrap16(old_value + 1), old_value == 0xFF)
}

pub open spec fn inx_spec(s: CpuState, target: CPURegister) -> CpuState {
    let old_value = register_value(s, target);
    counted_spec(s, target, wrap16(old_value + 1), old_value == 0xFFFF)
}

pub open spec fn dcr_spec(s: CpuState, target: CPURegister) -> CpuState {
    let old_value = register_value(s, target);
    counted_spec(s, target, wrap16(old_value - 1), old_value == 0)
}

pub open spec fn dcx_spec(s: CpuState, target: CPURegister) -> CpuState {
    dcr_spec(s, target)
}

/// Accumulator plus `value` plus `carry_in`; flags from the 9-bit sum.
pub open spec fn adi_spec(s: CpuState, value: u8, carry_in: int) -> CpuState {
    let sum = s.a + value + carry_in;
    CpuState { a: (sum % 256) as u8, flags: arithmetic_flags(s.flags, sum as u16), ..s }
}

/// Flags of accumulator minus `value` minus `borrow_in`: derived from the difference taken
/// modulo 2^16, with carry and auxiliary carry telling whether it left the byte range.
pub open spec fn difference_flags(s: CpuState, value: u8, borrow_in: int) -> CpuState {
    let difference = s.a - value - borrow_in;
    CpuState {
        flags: with_carry(
            arithmetic_flags(s.flags, wrap16(difference)),
            difference < 0 || difference > 0xFF,
        ),
        ..s
    }
}

pub open spec fn sui_spec(s: CpuState, value: u8, borrow_in: int) -> CpuState {
    let difference = s.a - value - borrow_in;
    CpuState { a: low_byte(wrap16(difference)), ..difference_flags(s, value, borrow_in) }
}

pub open spec fn dad_spec(s: CpuState, target: CPURegister) -> CpuState {
    let sum = register_value(s, target) + s.hl();
    counted_spec(s, CPURegister::HL, wrap16(sum), sum > 0xFFFF)
}

pub open spec fn call_spec(s: CpuState, address: u16) -> CpuState {
    push_address_spec(s, s.program_counter).with_program_counter(address)
}

pub open spec fn ret_spec(s: CpuState) -> CpuState {
    let (s1, address) = pop_address_spec(s);
    s1.with_program_counter(address)
}

pub open spec fn pop_spec(s: CpuState, to: CPURegister) -> CpuState {
    let (s1, value) = pop_address_spec(s);
    with_register(s1, to, value)
}

pub open spec fn xthl_spec(s: CpuState) -> CpuState {
    let pointer = s.stack.pointer;
    let next = wrap16(pointer + 1);
    let s1 = s.with_byte(pointer, s.l).with_byte(next, s.h);
    CpuState { l: s.byte_at(pointer), h: s.byte_at(next), ..s1 }
}

/// Decimal adjust: add 6 to the low digit when it is above 9 or auxiliary carry is set,
/// then add 6 to the high digit (as it stands after that) when it is above 9 or carry is
/// set; flags are derived from the adjusted value, so a high digit past 15 sets carry.
pub open spec fn daa_spec(s: CpuState) -> CpuState {
    let adjusted_low = if s.a % 16 > 9 || s.flags.aux_carry {
        s.a + 6
    } else {
        s.a as int
    };
    let high = adjusted_low / 16;
    let adjusted_high = if high > 9 || s.flags.carry {
        high + 6
    } else {
        high
    };
    let result = adjusted_high * 16 + adjusted_low % 16;
    CpuState { a: (result % 256) as u8, flags: arithmetic_flags(s.flags, result as u16), ..s }
}

/// Reading input port `port`: 1 and 2 are the input latches, 3 the shift register seen
/// through its offset; other ports change nothing.
pub open spec fn in_spec(s: CpuState, port: u8) -> CpuState {
    if port == 1 {
        CpuState { a: s.in1, ..s }
    } else if port == 2 {
        CpuState { a: s.in2, ..s }
    } else if port == 3 {
        CpuState {
            a: ((s.shift_register >> ((8 - s.shift_register_offset) as u16)) % 256) as u8,
            ..s
        }
    } else {
        s
    }
}

/// Writing output port `port`: 2 sets the shift offset, 4 shifts the accumulator into the
/// top of the shift register; other ports change nothing.
pub open spec fn out_spec(s: CpuState, port: u8) -> CpuState {
    if port == 2 {
        CpuState { shift_register_offset: s.a % 8, ..s }
    } else if port == 4 {
        CpuState { shift_register: (s.a * 256 + s.shift_register / 256) as u16, ..s }
    } else {
        s
    }
}

pub open spec fn byte_operation_spec(s: CpuState, operation: ByteOperation, value: u8) -> CpuState {
    match operation {
        ByteOperation::Mvi(to) => with_register(s, to, value as u16),
        ByteOperation::Ani => ani_spec(s, value),
        ByteOperation::Xri => xri_spec(s, value),
        ByteOperation::Ori => ori_spec(s, value),
        ByteOperation::Adi => adi_spec(s, value, 0),
        ByteOperation::Aci => adi_spec(s, value, bit_of(s.flags.carry)),
        ByteOperation::Sui => sui_spec(s, value, 0),
        ByteOperation::Sbi => sui_spec(s, value, bit_of(s.flags.carry)),
        ByteOperation::Cpi => difference_flags(s, value, 0),
        ByteOperation::Out => out_spec(s, value),
        ByteOperation::In => in_spec(s, value),
    }
}

pub open spec fn address_operation_spec(
    s: CpuState,
    operation: AddressOperation,
    address: u16,
) -> CpuState {
    match operation {
        AddressOperation::Jmp => s.with_program_counter(address),
        AddressOperation::JmpIf(condition) => if condition.holds(s.flags) {
            s.with_program_counter(address)
        } else {
            s
        },
        AddressOperation::Call => call_spec(s, address),
        AddressOperation::CallIf(condition) => if condition.holds(s.flags) {
            call_spec(s, address)
        } else {
            s
        },
        AddressOperation::Lda => CpuState { a: s.byte_at(address), ..s },
        AddressOperation::Lxi(to) => with_register(s, to, address),
        AddressOperation::Lhld => CpuState {
            l: s.byte_at(address),
            h: s.byte_at(wrap16(address + 1)),
            ..s
        },
        AddressOperation::Sta => s.with_byte(address, s.a),
        AddressOperation::Shld => s.with_byte(address, s.l).with_byte(wrap16(address + 1), s.h),
    }
}

/// The byte an 8-bit operand holds.
pub open spec fn operand(s: CpuState, target: CPURegister) -> u8 {
    low_byte(register_value(s, target))
}

/// The state after executing `operation`; operands are fetched at the program counter.
#[verifier::opaque]
pub open spec fn execute_spec(s: CpuState, operation: Operation) -> CpuState {
    match operation {
        Operation::Nop => s,
        Operation::Mov(from, to) => mov_spec(s, from, to),
        Operation::Ana(target) => ani_spec(s, operand(s, target)),
        Operation::Xra(target) => xri_spec(s, operand(s, target)),
        Operation::Ora(target) => ori_spec(s, operand(s, target)),
        Operation::Rrc => rrc_spec(s),
        Operation::Rar => rar_spec(s),
        Operation::Rlc => rlc_spec(s),
        Operation::Ral => ral_spec(s),
        Operation::Inr(target) => inr_spec(s, target),
        Operation::Inx(target) => inx_spec(s, target),
        Operation::Dcr(target) => dcr_spec(s, target),
        Operation::Dcx(target) => dcx_spec(s, target),
        Operation::Add(target) => adi_spec(s, operand(s, target), 0),
        Operation::Adc(target) => adi_spec(s, operand(s, target), bit_of(s.flags.carry)),
        Operation::Sub(target) => sui_spec(s, operand(s, target), 0),
        Operation::Sbb(target) => sui_spec(s, operand(s, target), bit_of(s.flags.carry)),
        Operation::Cmp(target) => difference_flags(s, operand(s, target), 0),
        Operation::Push(from) => push_address_spec(s, register_value(s, from)),
        Operation::Pop(to) => pop_spec(s, to),
        Operation::Ret => ret_spec(s),
        Operation::RetIf(condition) => if condition.holds(s.flags) {
            ret_spec(s)
        } else {
            s
        },
        Operation::Rst(address) => call_spec(s, address),
        Operation::Ldax(from) => CpuState { a: s.byte_at(register_value(s, from)), ..s },
        Operation::Stax(to) => with_register(s, to, s.a as u16),
        Operation::Dad(target) => dad_spec(s, target),
        Operation::Cma => CpuState { a: (255 - s.a) as u8, ..s },
        Operation::Stc => CpuState { flags: CPUFlags { carry: true, ..s.flags }, ..s },
        Operation::Cmc => CpuState { flags: CPUFlags { carry: !s.flags.carry, ..s.flags }, ..s },
        Operation::Pchl => s.with_program_counter(s.hl()),
        Operation::Sphl => with_register(s, CPURegister::StackPointer, s.hl()),
        Operation::Xchg => {
            let hl = register_value(s, CPURegister::HL);
            let de = register_value(s, CPURegister::DE);
            with_register(with_register(s, CPURegister::HL, de), CPURegister::DE, hl)
        },
        Operation::Xthl => xthl_spec(s),
        Operation::Di => CpuState { are_interrupts_enabled: false, ..s },
        Operation::Ei => CpuState { are_interrupts_enabled: true, ..s },
        Operation::Daa => daa_spec(s),
        Operation::ReadByteThen(op) => {
            let (s1, value) = s.fetch_byte();
            byte_operation_spec(s1, op, value)
        },
        Operation::ReadAddressThen(op) => {
            let (s1, address) = s.fetch_address();
            address_operation_spec(s1, op, address)
        },
    }
}

// ---------------------------------------------------------------------------------------
// The instruction table

/// The register an 8-bit operand field names.
pub open spec fn register_field(code: int) -> CPURegister {
    if code == 0 {
        CPURegister::B
    } else if code == 1 {
        CPURegister::C
    } else if code == 2 {
        CPURegister::D
    } else if code == 3 {
        CPURegister::E
    } else if code == 4 {
        CPURegister::H
    } else if code == 5 {
        CPURegister::L
    } else if code == 6 {
        CPURegister::RAM
    } else {
        CPURegister::A
    }
}

/// The register pair a pair field names, with the stack pointer as the fourth.
pub open spec fn pair_field(code: int) -> CPURegister {
    if code == 0 {
        CPURegister::BC
    } else if code == 1 {
        CPURegister::DE
    } else if code == 2 {
        CPURegister::HL
    } else {
        CPURegister::StackPointer
    }
}

/// The register pair a push or pop names, with PSW as the fourth.
pub open spec fn stack_pair_field(code: int) -> CPURegister {
    if code == 3 {
        CPURegister::PSW
    } else {
        pair_field(code)
    }
}

/// The condition a condition field names.
pub open spec fn condition_field(code: int) -> Condition {
    if code == 0 {
        Condition::NotZero
    } else if code == 1 {
        Condition::Zero
    } else if code == 2 {
        Condition::NoCarry
    } else if code == 3 {
        Condition::Carry
    } else if code == 4 {
        Condition::Odd
    } else if code == 5 {
        Condition::Even
    } else if code == 6 {
        Condition::Positive
    } else {
        Condition::Negative
    }
}

/// The accumulator instruction an operation field names, applied to a register.
pub open spec fn alu_field(code: int, source: CPURegister) -> Operation {
    if code == 0 {
        Operation::Add(source)
    } else if code == 1 {
        Operation::Adc(source)
    } else if code == 2 {
        Operation::Sub(source)
    } else if code == 3 {
        Operation::Sbb(source)
    } else if code == 4 {
        Operation::Ana(source)
    } else if code == 5 {
        Operation::Xra(source)
    } else if code == 6 {
        Operation::Ora(source)
    } else {
        Operation::Cmp(source)
    }
}

/// The accumulator instruction an operation field names, applied to an immediate byte.
pub open spec fn alu_immediate_field(code: int) -> ByteOperation {
    if code == 0 {
        ByteOperation::Adi
    } else if code == 1 {
        ByteOperation::Aci
    } else if code == 2 {
        ByteOperation::Sui
    } else if code == 3 {
        ByteOperation::Sbi
    } else if code == 4 {
        ByteOperation::Ani
    } else if code == 5 {
        ByteOperation::Xri
    } else if code == 6 {
        ByteOperation::Ori
    } else {
        ByteOperation::Cpi
    }
}

/// The instruction set: what each byte does and what it costs. A byte is read as fields
/// `xx yyy zzz`; `yyy` splits further into a pair `pp` and a bit `q`. Unused encodings
/// (and HLT) do nothing for 4 cycles.
pub open spec fn operation_of(key: u8) -> (Operation, u8) {
    let x = key / 64;
    let y = key / 8 % 8;
    let z = key % 8;
    let p = y / 2;
    let q = y % 2;
    if x == 1 {
        if key == 0x76 {
            (Operation::Nop, 4)
        } else {
            (
                Operation::Mov(register_field(z as int), register_field(y as int)),
                if y == 6 || z == 6 { 7 } else { 5 },
            )
        }
    } else if x == 2 {
        (alu_field(y as int, register_field(z as int)), if z == 6 { 7 } else { 4 })
    } else if x == 0 {
        if z == 0 {
            (Operation::Nop, 4)
        } else if z == 1 {
            if q == 0 {
                (Operation::ReadAddressThen(AddressOperation::Lxi(pair_field(p as int))), 10)
            } else {
                (Operation::Dad(pair_field(p as int)), 10)
            }
        } else if z == 2 {
            if p < 2 {
                if q == 0 {
                    (Operation::Stax(pair_field(p as int)), 7)
                } else {
                    (Operation::Ldax(pair_field(p as int)), 7)
                }
            } else if p == 2 {
                if q == 0 {
                    (Operation::ReadAddressThen(AddressOperation::Shld), 16)
                } else {
                    (Operation::ReadAddressThen(AddressOperation::Lhld), 16)
                }
            } else if q == 0 {
                (Operation::ReadAddressThen(AddressOperation::Sta), 13)
            } else {
                (Operation::ReadAddressThen(AddressOperation::Lda), 13)
            }
        } else if z == 3 {
            if q == 0 {
                (Operation::Inx(pair_field(p as int)), 5)
            } else {
                (Operation::Dcx(pair_field(p as int)), 5)
            }
        } else if z == 4 {
            (Operation::Inr(register_field(y as int)), if y == 6 { 10 } else { 5 })
        } else if z == 5 {
            (Operation::Dcr(register_field(y as int)), if y == 6 { 10 } else { 5 })
        } else if z == 6 {
            (
                Operation::ReadByteThen(ByteOperation::Mvi(register_field(y as int))),
                if y == 6 { 10 } else { 7 },
            )
        } else if y == 0 {
            (Operation::Rlc, 4)
        } else if y == 1 {
            (Operation::Rrc, 4)
        } else if y == 2 {
            (Operation::Ral, 4)
        } else if y == 3 {
            (Operation::Rar, 4)
        } else if y == 4 {
            (Operation::Daa, 4)
        } else if y == 5 {
            (Operation::Cma, 4)
        } else if y == 6 {
            (Operation::Stc, 4)
        } else {
            (Operation::Cmc, 4)
        }
    } else {
        if z == 0 {
            (Operation::RetIf(condition_field(y as int)), 8)
        } else if z == 1 {
            if q == 0 {
                (Operation::Pop(stack_pair_field(p as int)), 10)
            } else if p == 0 {
                (Operation::Ret, 11)
            } else if p == 1 {
                (Operation::Nop, 4)
            } else if p == 2 {
                (Operation::Pchl, 5)
            } else {
                (Operation::Sphl, 5)
            }
        } else if z == 2 {
            (Operation::ReadAddressThen(AddressOperation::JmpIf(condition_field(y as int))), 10)
        } else if z == 3 {
            if y == 0 {
                (Operation::ReadAddressThen(AddressOperation::Jmp), 10)
            } else if y == 1 {
                (Operation::Nop, 4)
            } else if y == 2 {
                (Operation::ReadByteThen(ByteOperation::Out), 10)
            } else if y == 3 {
                (Operation::ReadByteThen(ByteOperation::In), 10)
            } else if y == 4 {
                (Operation::Xthl, 18)
            } else if y == 5 {
                (Operation::Xchg, 4)
            } else if y == 6 {
                (Operation::Di, 4)
            } else {
                (Operation::Ei, 4)
            }
        } else if z == 4 {
            (Operation::ReadAddressThen(AddressOperation::CallIf(condition_field(y as int))), 14)
        } else if z == 5 {
            if q == 0 {
                (Operation::Push(stack_pair_field(p as int)), 11)
            } else if p == 0 {
                (Operation::ReadAddressThen(AddressOperation::Call), 17)
            } else {
                (Operation::Nop, 4)
            }
        } else if z == 6 {
            (Operation::ReadByteThen(alu_immediate_field(y as int)), 7)
        } else {
            (Operation::Rst((y * 8) as u16), 10)
        }
    }
}

/// The table entry for `key`.
pub open spec fn opcode_spec(key: u8) -> Opcode {
    Opcode { key, operation: operation_of(key).0, duration: operation_of(key).1 }
}

/// Table entries for the bytes 0x00 to 0x3F.
fn decode_low(key: u8) -> (r: (Operation, u8))
    requires
        0x00 <= key <= 0x3F,
    ensures
        r == operation_of(key),
{
    match key {
        0x00 | 0x08 | 0x10 | 0x18 | 0x20 | 0x28 | 0x30 | 0x38 => (Operation::Nop, 4),
        0x01 => (Operation::ReadAddressThen(AddressOperation::Lxi(CPURegister::BC)), 10),
        0x02 => (Operation::Stax(CPURegister::BC), 7),
        0x03 => (Operation::Inx(CPURegister::BC), 5),
        0x04 => (Operation::Inr(CPURegister::B), 5),
        0x05 => (Operation::Dcr(CPURegister::B), 5),
        0x06 => (Operation::ReadByteThen(ByteOperation::Mvi(CPURegister::B)), 7),
        0x07 => (Operation::Rlc, 4),
        0x09 => (Operation::Dad(CPURegister::BC), 10),
        0x0A => (Operation::Ldax(CPURegister::BC), 7),
        0x0B => (Operation::Dcx(CPURegister::BC), 5),
        0x0C => (Operation::Inr(CPURegister::C), 5),
        0x0D => (Operation::Dcr(CPURegister::C), 5),
        0x0E => (Operation::ReadByteThen(ByteOperation::Mvi(CPURegister::C)), 7),
        0x0F => (Operation::Rrc, 4),
        0x11 => (Operation::ReadAddressThen(AddressOperation::Lxi(CPURegister::DE)), 10),
        0x12 => (Operation::Stax(CPURegister::DE), 7),
        0x13 => (Operation::Inx(CPURegister::DE), 5),
        0x14 => (Operation::Inr(CPURegister::D), 5),
        0x15 => (Operation::Dcr(CPURegister::D), 5),
        0x16 => (Operation::ReadByteThen(ByteOperation::Mvi(CPURegister::D)), 7),
        0x17 => (Operation::Ral, 4),
        0x19 => (Operation::Dad(CPURegister::DE), 10),
        0x1A => (Operation::Ldax(CPURegister::DE), 7),
        0x1B => (Operation::Dcx(CPURegister::DE), 5),
        0x1C => (Operation::Inr(CPURegister::E), 5),
        0x1D => (Operation::Dcr(CPURegister::E), 5),
        0x1E => (Operation::ReadByteThen(ByteOperation::Mvi(CPURegister::E)), 7),
        0x1F => (Operation::Rar, 4),
        0x21 => (Operation::ReadAddressThen(AddressOperation::Lxi(CPURegister::HL)), 10),
        0x22 => (Operation::ReadAddressThen(AddressOperation::Shld), 16),
        0x23 => (Operation::Inx(CPURegister::HL), 5),
        0x24 => (Operation::Inr(CPURegister::H), 5),
        0x25 => (Operation::Dcr(CPURegister::H), 5),
        0x26 => (Operation::ReadByteThen(ByteOperation::Mvi(CPURegister::H)), 7),
        0x27 => (Operation::Daa, 4),
        0x29 => (Operation::Dad(CPURegister::HL), 10),
        0x2A => (Operation::ReadAddressThen(AddressOperation::Lhld), 16),
        0x2B => (Operation::Dcx(CPURegister::HL), 5),
        0x2C => (Operation::Inr(CPURegister::L), 5),
        0x2D => (Operation::Dcr(CPURegister::L), 5),
        0x2E => (Operation::ReadByteThen(ByteOperation::Mvi(CPURegister::L)), 7),
        0x2F => (Operation::Cma, 4),
        0x31 => (Operation::ReadAddressThen(AddressOperation::Lxi(CPURegister::StackPointer)), 10),
        0x32 => (Operation::ReadAddressThen(AddressOperation::Sta), 13),
        0x33 => (Operation::Inx(CPURegister::StackPointer), 5),
        0x34 => (Operation::Inr(CPURegister::RAM), 10),
        0x35 => (Operation::Dcr(CPURegister::RAM), 10),
        0x36 => (Operation::ReadByteThen(ByteOperation::Mvi(CPURegister::RAM)), 10),
        0x37 => (Operation::Stc, 4),
        0x39 => (Operation::Dad(CPURegister::StackPointer), 10),
        0x3A => (Operation::ReadAddressThen(AddressOperation::Lda), 13),
        0x3B => (Operation::Dcx(CPURegister::StackPointer), 5),
        0x3C => (Operation::Inr(CPURegister::A), 5),
        0x3D => (Operation::Dcr(CPURegister::A), 5),
        0x3E => (Operation::ReadByteThen(ByteOperation::Mvi(CPURegister::A)), 7),
        0x3F => (Operation::Cmc, 4),
        _ => (Operation::Nop, 4),
    }
}

/// Table entries for the bytes 0x40 to 0x7F.
fn decode_moves(key: u8) -> (r: (Operation, u8))
    requires
        0x40 <= key <= 0x7F,
    ensures
        r == operation_of(key),
{
    match key {
        0x40 => (Operation::Mov(CPURegister::B, CPURegister::B), 5),
        0x41 => (Operation::Mov(CPURegister::C, CPURegister::B), 5),
        0x42 => (Operation::Mov(CPURegister::D, CPURegister::B), 5),
        0x43 => (Operation::Mov(CPURegister::E, CPURegister::B), 5),
        0x44 => (Operation::Mov(CPURegister::H, CPURegister::B), 5),
        0x45 => (Operation::Mov(CPURegister::L, CPURegister::B), 5),
        0x46 => (Operation::Mov(CPURegister::RAM, CPURegister::B), 7),
        0x47 => (Operation::Mov(CPURegister::A, CPURegister::B), 5),
        0x48 => (Operation::Mov(CPURegister::B, CPURegister::C), 5),
        0x49 => (Operation::Mov(CPURegister::C, CPURegister::C), 5),
        0x4A => (Operation::Mov(CPURegister::D, CPURegister::C), 5),
        0x4B => (Operation::Mov(CPURegister::E, CPURegister::C), 5),
        0x4C => (Operation::Mov(CPURegister::H, CPURegister::C), 5),
        0x4D => (Operation::Mov(CPURegister::L, CPURegister::C), 5),
        0x4E => (Operation::Mov(CPURegister::RAM, CPURegister::C), 7),
        0x4F => (Operation::Mov(CPURegister::A, CPURegister::C), 5),
        0x50 => (Operation::Mov(CPURegister::B, CPURegister::D), 5),
        0x51 => (Operation::Mov(CPURegister::C, CPURegister::D), 5),
        0x52 => (Operation::Mov(CPURegister::D, CPURegister::D), 5),
        0x53 => (Operation::Mov(CPURegister::E, CPURegister::D), 5),
        0x54 => (Operation::Mov(CPURegister::H, CPURegister::D), 5),
        0x55 => (Operation::Mov(CPURegister::L, CPURegister::D), 5),
        0x56 => (Operation::Mov(CPURegister::RAM, CPURegister::D), 7),
        0x57 => (Operation::Mov(CPURegister::A, CPURegister::D), 5),
        0x58 => (Operation::Mov(CPURegister::B, CPURegister::E), 5),
        0x59 => (Operation::Mov(CPURegister::C, CPURegister::E), 5),
        0x5A => (Operation::Mov(CPURegister::D, CPURegister::E), 5),
        0x5B => (Operation::Mov(CPURegister::E, CPURegister::E), 5),
        0x5C => (Operation::Mov(CPURegister::H, CPURegister::E), 5),
        0x5D => (Operation::Mov(CPURegister::L, CPURegister::E), 5),
        0x5E => (Operation::Mov(CPURegister::RAM, CPURegister::E), 7),
        0x5F => (Operation::Mov(CPURegister::A, CPURegister::E), 5),
        0x60 => (Operation::Mov(CPURegister::B, CPURegister::H), 5),
        0x61 => (Operation::Mov(CPURegister::C, CPURegister::H), 5),
        0x62 => (Operation::Mov(CPURegister::D, CPURegister::H), 5),
        0x63 => (Operation::Mov(CPURegister::E, CPURegister::H), 5),
        0x64 => (Operation::Mov(CPURegister::H, CPURegister::H), 5),
        0x65 => (Operation::Mov(CPURegister::L, CPURegister::H), 5),
        0x66 => (Operation::Mov(CPURegister::RAM, CPURegister::H), 7),
        0x67 => (Operation::Mov(CPURegister::A, CPURegister::H), 5),
        0x68 => (Operation::Mov(CPURegister::B, CPURegister::L), 5),
        0x69 => (Operation::Mov(CPURegister::C, CPURegister::L), 5),
        0x6A => (Operation::Mov(CPURegister::D, CPURegister::L), 5),
        0x6B => (Operation::Mov(CPURegister::E, CPURegister::L), 5),
        0x6C => (Operation::Mov(CPURegister::H, CPURegister::L), 5),
        0x6D => (Operation::Mov(CPURegister::L, CPURegister::L), 5),
        0x6E => (Operation::Mov(CPURegister::RAM, CPURegister::L), 7),
        0x6F => (Operation::Mov(CPURegister::A, CPURegister::L), 5),
        0x70 => (Operation::Mov(CPURegister::B, CPURegister::RAM), 7),
        0x71 => (Operation::Mov(CPURegister::C, CPURegister::RAM), 7),
        0x72 => (Operation::Mov(CPURegister::D, CPURegister::RAM), 7),
        0x73 => (Operation::Mov(CPURegister::E, CPURegister::RAM), 7),
        0x74 => (Operation::Mov(CPURegister::H, CPURegister::RAM), 7),
        0x75 => (Operation::Mov(CPURegister::L, CPURegister::RAM), 7),
        0x76 => (Operation::Nop, 4),
        0x77 => (Operation::Mov(CPURegister::A, CPURegister::RAM), 7),
        0x78 => (Operation::Mov(CPURegister::B, CPURegister::A), 5),
        0x79 => (Operation::Mov(CPURegister::C, CPURegister::A), 5),
        0x7A => (Operation::Mov(CPURegister::D, CPURegister::A), 5),
        0x7B => (Operation::Mov(CPURegister::E, CPURegister::A), 5),
        0x7C => (Operation::Mov(CPURegister::H, CPURegister::A), 5),
        0x7D => (Operation::Mov(CPURegister::L, CPURegister::A), 5),
        0x7E => (Operation::Mov(CPURegister::RAM, CPURegister::A), 7),
        0x7F => (Operation::Mov(CPURegister::A, CPURegister::A), 5),
        _ => (Operation::Nop, 4),
    }
}

/// Table entries for the bytes 0x80 to 0xBF.
fn decode_accumulator(key: u8) -> (r: (Operation, u8))
    requires
        0x80 <= key <= 0xBF,
    ensures
        r == operation_of(key),
{
    match key {
        0x80 => (Operation::Add(CPURegister::B), 4),
        0x81 => (Operation::Add(CPURegister::C), 4),
        0x82 => (Operation::Add(CPURegister::D), 4),
        0x83 => (Operation::Add(CPURegister::E), 4),
        0x84 => (Operation::Add(CPURegister::H), 4),
        0x85 => (Operation::Add(CPURegister::L), 4),
        0x86 => (Operation::Add(CPURegister::RAM), 7),
        0x87 => (Operation::Add(CPURegister::A), 4),
        0x88 => (Operation::Adc(CPURegister::B), 4),
        0x89 => (Operation::Adc(CPURegister::C), 4),
        0x8A => (Operation::Adc(CPURegister::D), 4),
        0x8B => (Operation::Adc(CPURegister::E), 4),
        0x8C => (Operation::Adc(CPURegister::H), 4),
        0x8D => (Operation::Adc(CPURegister::L), 4),
        0x8E => (Operation::Adc(CPURegister::RAM), 7),
        0x8F => (Operation::Adc(CPURegister::A), 4),
        0x90 => (Operation::Sub(CPURegister::B), 4),
        0x91 => (Operation::Sub(CPURegister::C), 4),
        0x92 => (Operation::Sub(CPURegister::D), 4),
        0x93 => (Operation::Sub(CPURegister::E), 4),
        0x94 => (Operation::Sub(CPURegister::H), 4),
        0x95 => (Operation::Sub(CPURegister::L), 4),
        0x96 => (Operation::Sub(CPURegister::RAM), 7),
        0x97 => (Operation::Sub(CPURegister::A), 4),
        0x98 => (Operation::Sbb(CPURegister::B), 4),
        0x99 => (Operation::Sbb(CPURegister::C), 4),
        0x9A => (Operation::Sbb(CPURegister::D), 4),
        0x9B => (Operation::Sbb(CPURegister::E), 4),
        0x9C => (Operation::Sbb(CPURegister::H), 4),
        0x9D => (Operation::Sbb(CPURegister::L), 4),
        0x9E => (Operation::Sbb(CPURegister::RAM), 7),
        0x9F => (Operation::Sbb(CPURegister::A), 4),
        0xA0 => (Operation::Ana(CPURegister::B), 4),
        0xA1 => (Operation::Ana(CPURegister::C), 4),
        0xA2 => (Operation::Ana(CPURegister::D), 4),
        0xA3 => (Operation::Ana(CPURegister::E), 4),
        0xA4 => (Operation::Ana(CPURegister::H), 4),
        0xA5 => (Operation::Ana(CPURegister::L), 4),
        0xA6 => (Operation::Ana(CPURegister::RAM), 7),
        0xA7 => (Operation::Ana(CPURegister::A), 4),
        0xA8 => (Operation::Xra(CPURegister::B), 4),
        0xA9 => (Operation::Xra(CPURegister::C), 4),
        0xAA => (Operation::Xra(CPURegister::D), 4),
        0xAB => (Operation::Xra(CPURegister::E), 4),
        0xAC => (Operation::Xra(CPURegister::H), 4),
        0xAD => (Operation::Xra(CPURegister::L), 4),
        0xAE => (Operation::Xra(CPURegister::RAM), 7),
        0xAF => (Operation::Xra(CPURegister::A), 4),
        0xB0 => (Operation::Ora(CPURegister::B), 4),
        0xB1 => (Operation::Ora(CPURegister::C), 4),
        0xB2 => (Operation::Ora(CPURegister::D), 4),
        0xB3 => (Operation::Ora(CPURegister::E), 4),
        0xB4 => (Operation::Ora(CPURegister::H), 4),
        0xB5 => (Operation::Ora(CPURegister::L), 4),
        0xB6 => (Operation::Ora(CPURegister::RAM), 7),
        0xB7 => (Operation::Ora(CPURegister::A), 4),
        0xB8 => (Operation::Cmp(CPURegister::B), 4),
        0xB9 => (Operation::Cmp(CPURegister::C), 4),
        0xBA => (Operation::Cmp(CPURegister::D), 4),
        0xBB => (Operation::Cmp(CPURegister::E), 4),
        0xBC => (Operation::Cmp(CPURegister::H), 4),
        0xBD => (Operation::Cmp(CPURegister::L), 4),
        0xBE => (Operation::Cmp(CPURegister::RAM), 7),
        0xBF => (Operation::Cmp(CPURegister::A), 4),
        _ => (Operation::Nop, 4),
    }
}

/// Table entries for the bytes 0xC0 to 0xFF.
fn decode_high(key: u8) -> (r: (Operation, u8))
    requires
        0xC0 <= key <= 0xFF,
    ensures
        r == operation_of(key),
{
    match key {
        0xC0 => (Operation::RetIf(Condition::NotZero), 8),
        0xC1 => (Operation::Pop(CPURegister::BC), 10),
        0xC2 => (Operation::ReadAddressThen(AddressOperation::JmpIf(Condition::NotZero)), 10),
        0xC3 => (Operation::ReadAddressThen(AddressOperation::Jmp), 10),
        0xC4 => (Operation::ReadAddressThen(AddressOperation::CallIf(Condition::NotZero)), 14),
        0xC5 => (Operation::Push(CPURegister::BC), 11),
        0xC6 => (Operation::ReadByteThen(ByteOperation::Adi), 7),
        0xC7 => (Operation::Rst(0x00), 10),
        0xC8 => (Operation::RetIf(Condition::Zero), 8),
        0xC9 => (Operation::Ret, 11),
        0xCA => (Operation::ReadAddressThen(AddressOperation::JmpIf(Condition::Zero)), 10),
        0xCB | 0xD9 | 0xDD | 0xED | 0xFD => (Operation::Nop, 4),
        0xCC => (Operation::ReadAddressThen(AddressOperation::CallIf(Condition::Zero)), 14),
        0xCD => (Operation::ReadAddressThen(AddressOperation::Call), 17),
        0xCE => (Operation::ReadByteThen(ByteOperation::Aci), 7),
        0xCF => (Operation::Rst(0x08), 10),
        0xD0 => (Operation::RetIf(Condition::NoCarry), 8),
        0xD1 => (Operation::Pop(CPURegister::DE), 10),
        0xD2 => (Operation::ReadAddressThen(AddressOperation::JmpIf(Condition::NoCarry)), 10),
        0xD3 => (Operation::ReadByteThen(ByteOperation::Out), 10),
        0xD4 => (Operation::ReadAddressThen(AddressOperation::CallIf(Condition::NoCarry)), 14),
        0xD5 => (Operation::Push(CPURegister::DE), 11),
        0xD6 => (Operation::ReadByteThen(ByteOperation::Sui), 7),
        0xD7 => (Operation::Rst(0x10), 10),
        0xD8 => (Operation::RetIf(Condition::Carry), 8),
        0xDA => (Operation::ReadAddressThen(AddressOperation::JmpIf(Condition::Carry)), 10),
        0xDB => (Operation::ReadByteThen(ByteOperation::In), 10),
        0xDC => (Operation::ReadAddressThen(AddressOperation::CallIf(Condition::Carry)), 14),
        0xDE => (Operation::ReadByteThen(ByteOperation::Sbi), 7),
        0xDF => (Operation::Rst(0x18), 10),
        0xE0 => (Operation::RetIf(Condition::Odd), 8),
        0xE1 => (Operation::Pop(CPURegister::HL), 10),
        0xE2 => (Operation::ReadAddressThen(AddressOperation::JmpIf(Condition::Odd)), 10),
        0xE3 => (Operation::Xthl, 18),
        0xE4 => (Operation::ReadAddressThen(AddressOperation::CallIf(Condition::Odd)), 14),
        0xE5 => (Operation::Push(CPURegister::HL), 11),
        0xE6 => (Operation::ReadByteThen(ByteOperation::Ani), 7),
        0xE7 => (Operation::Rst(0x20), 10),
        0xE8 => (Operation::RetIf(Condition::Even), 8),
        0xE9 => (Operation::Pchl, 5),
        0xEA => (Operation::ReadAddressThen(AddressOperation::JmpIf(Condition::Even)), 10),
        0xEB => (Operation::Xchg, 4),
        0xEC => (Operation::ReadAddressThen(AddressOperation::CallIf(Condition::Even)), 14),
        0xEE => (Operation::ReadByteThen(ByteOperation::Xri), 7),
        0xEF => (Operation::Rst(0x28), 10),
        0xF0 => (Operation::RetIf(Condition::Positive), 8),
        0xF1 => (Operation::Pop(CPURegister::PSW), 10),
        0xF2 => (Operation::ReadAddressThen(AddressOperation::JmpIf(Condition::Positive)), 10),
        0xF3 => (Operation::Di, 4),
        0xF4 => (Operation::ReadAddressThen(AddressOperation::CallIf(Condition::Positive)), 14),
        0xF5 => (Operation::Push(CPURegister::PSW), 11),
        0xF6 => (Operation::ReadByteThen(ByteOperation::Ori), 7),
        0xF7 => (Operation::Rst(0x30), 10),
        0xF8 => (Operation::RetIf(Condition::Negative), 8),
        0xF9 => (Operation::Sphl, 5),
        0xFA => (Operation::ReadAddressThen(AddressOperation::JmpIf(Condition::Negative)), 10),
        0xFB => (Operation::Ei, 4),
        0xFC => (Operation::ReadAddressThen(AddressOperation::CallIf(Condition::Negative)), 14),
        0xFE => (Operation::ReadByteThen(ByteOperation::Cpi), 7),
        0xFF => (Operation::Rst(0x38), 10),
        _ => (Operation::Nop, 4),
    }
}

/// The table entry for `key`.
pub fn decode(key: u8) -> (r: Opcode)
    ensures
        r == opcode_spec(key),
{
    let (operation, duration) = if key < 0x40 {
        decode_low(key)
    } else if key < 0x80 {
        decode_moves(key)
    } else if key < 0xC0 {
        decode_accumulator(key)
    } else {
        decode_high(key)
    };
    Opcode { key, operation, duration }
}

/// The instruction table, indexed by opcode byte: every byte has exactly one entry, at
/// its own index.
pub fn build_opcodes_slice() -> (r: Vec<Opcode>)
    ensures
        r@.len() == 256,
        forall|i: int| 0 <= i < 256 ==> #[trigger] r@[i] == opcode_spec(i as u8),
{
    let mut opcodes: Vec<Opcode> = Vec::new();
    let mut key: u16 = 0;
    while key < 256
        invariant
            key <= 256,
            opcodes@.len() == key,
            forall|i: int| 0 <= i < key ==> #[trigger] opcodes@[i] == opcode_spec(i as u8),
        decreases 256 - key,
    {
        opcodes.push(decode(key as u8));
        key = key + 1;
    }
    opcodes
}

// ---------------------------------------------------------------------------------------
// Instruction handlers

/// Derives zero, sign, parity, carry and auxiliary carry from a 16-bit intermediate result.
pub fn update_arithmetic_flags(cpu: &mut CPU, value: u16)
    requires
        old(cpu).wf(),
    ensures
        final(cpu).wf(),
        final(cpu)@ == (CpuState { flags: arithmetic_flags(old(cpu)@.flags, value), ..old(cpu)@ }),
{
    let byte = (value % 256) as u8;
    cpu.flags.zero = byte == 0;
    cpu.flags.negative = byte > 0x7F;
    cpu.flags.even = is_even_parity(byte);
    cpu.flags.carry = value > 0xFF;
    cpu.flags.aux_carry = value > 0xFF;
}

pub fn is_even_parity(value: u8) -> (r: bool)
    ensures
        r == even_parity(value),
{
    let mut rest: u8 = value;
    let mut count: u8 = 0;
    while rest > 0
        invariant
            count + ones(rest as nat) == ones(value as nat),
            count + rest <= value,
        decreases rest,
    {
        count = count + rest % 2;
        rest = rest / 2;
    }
    count % 2 == 0
}

/// Sets carry and auxiliary carry to `carry`.
fn set_carry(cpu: &mut CPU, carry: bool)
    requires
        old(cpu).wf(),
    ensures
        final(cpu).wf(),
        final(cpu)@ == (CpuState { flags: with_carry(old(cpu)@.flags, carry), ..old(cpu)@ }),
{
    cpu.flags.aux_carry = carry;
    cpu.flags.carry = carry;
}

pub fn nop(cpu: &mut CPU)
    requires
        old(cpu).wf(),
    ensures
        final(cpu).wf(),
        final(cpu)@ == execute_spec(old(cpu)@, Operation::Nop),
{
    proof {
        reveal(execute_spec);
    }
}

pub fn mov(cpu: &mut CPU, from: CPURegister, to: CPURegister)
    requires
        old(cpu).wf(),
    ensures
        final(cpu).wf(),
        final(cpu)@ == execute_spec(old(cpu)@, Operation::Mov(from, to)),
{
    proof {
        reveal(execute_spec);
    }
    let value = cpu.read_register(from);
    cpu.write_register(to, value);
}

pub fn mvi(cpu: &mut CPU, to: CPURegister, value: u8)
    requires
        old(cpu).wf(),
    ensures
        final(cpu).wf(),
        final(cpu)@ == with_register(old(cpu)@, to, value as u16),
{
    cpu.write_register(to, value as u16);
}

/// The byte held by an 8-bit operand.
fn read_operand(cpu: &CPU, target: CPURegister) -> (r: u8)
    requires
        cpu.wf(),
    ensures
        r == operand(cpu@, target),
{
    (cpu.read_register(target) % 256) as u8
}

pub fn ana(cpu: &mut CPU, target: CPURegister)
    requires
        old(cpu).wf(),
    ensures
        final(cpu).wf(),
        final(cpu)@ == execute_spec(old(cpu)@, Operation::Ana(target)),
{
    proof {
        reveal(execute_spec);
    }
    let value = read_operand(cpu, target);
    ani(cpu, value);
}

pub fn ani(cpu: &mut CPU, value: u8)
    requires
        old(cpu).wf(),
    ensures
        final(cpu).wf(),
        final(cpu)@ == ani_spec(old(cpu)@, value),
{
    let result = cpu.A & value;
    cpu.A = result;
    update_arithmetic_flags(cpu, result as u16);
}

pub fn xra(cpu: &mut CPU, target: CPURegister)
    requires
        old(cpu).wf(),
    ensures
        final(cpu).wf(),
        final(cpu)@ == execute_spec(old(cpu)@, Operation::Xra(target)),
{
    proof {
        reveal(execute_spec);
    }
    let value = read_operand(cpu, target);
    xri(cpu, value);
}

pub fn xri(cpu: &mut CPU, value: u8)
    requires
        old(cpu).wf(),
    ensures
        final(cpu).wf(),
        final(cpu)@ == xri_spec(old(cpu)@, value),
{
    let result = cpu.A ^ value;
    cpu.A = result;
    update_arithmetic_flags(cpu, result as u16);
}

pub fn ora(cpu: &mut CPU, target: CPURegister)
    requires
        old(cpu).wf(),
    ensures
        final(cpu).wf(),
        final(cpu)@ == execute_spec(old(cpu)@, Operation::Ora(target)),
{
    proof {
        reveal(execute_spec);
    }
    let value = read_operand(cpu, target);
    ori(cpu, value);
}

pub fn ori(cpu: &mut CPU, value: u8)
    requires
        old(cpu).wf(),
    ensures
        final(cpu).wf(),
        final(cpu)@ == ori_spec(old(cpu)@, value),
{
    let result = cpu.A | value;
    cpu.A = result;
    update_arithmetic_flags(cpu, result as u16);
}

pub fn rrc(cpu: &mut CPU)
    requires
        old(cpu).wf(),
    ensures
        final(cpu).wf(),
        final(cpu)@ == execute_spec(old(cpu)@, Operation::Rrc),
{
    proof {
        reveal(execute_spec);
    }
    let bit_to_carry = cpu.A % 2;
    cpu.flags.carry = bit_to_carry == 1;
    cpu.A = bit_to_carry * 128 + cpu.A / 2;
}

pub fn rar(cpu: &mut CPU)
    requires
        old(cpu).wf(),
    ensures
        final(cpu).wf(),
        final(cpu)@ == execute_spec(old(cpu)@, Operation::Rar),
{
    proof {
        reveal(execute_spec);
    }
    let bit_to_carry = cpu.A % 2;
    let bit_to_push: u8 = if cpu.flags.carry {
        1
    } else {
        0
    };
    cpu.flags.carry = bit_to_carry == 1;
    cpu.A = bit_to_push * 128 + cpu.A / 2;
}

pub fn rlc(cpu: &mut CPU)
    requires
        old(cpu).wf(),
    ensures
        final(cpu).wf(),
        final(cpu)@ == execute_spec(old(cpu)@, Operation::Rlc),
{
    proof {
        reveal(execute_spec);
    }
    let bit_to_carry = cpu.A / 128;
    cpu.flags.carry = bit_to_carry == 1;
    cpu.A = (cpu.A % 128) * 2 + bit_to_carry;
}

pub fn ral(cpu: &mut CPU)
    requires
        old(cpu).wf(),
    ensures
        final(cpu).wf(),
        final(cpu)@ == execute_spec(old(cpu)@, Operation::Ral),
{
    proof {
        reveal(execute_spec);
    }
    let bit_to_carry = cpu.A / 128;
    let bit_to_push: u8 = if cpu.flags.carry {
        1
    } else {
        0
    };
    cpu.flags.carry = bit_to_carry == 1;
    cpu.A = (cpu.A % 128) * 2 + bit_to_push;
}

/// Writes `value` to `target`, derives the flags from it and sets carry to `carry`.
fn write_counted(cpu: &mut CPU, target: CPURegister, value: u16, carry: bool)
    requires
        old(cpu).wf(),
    ensures
        final(cpu).wf(),
        final(cpu)@ == counted_spec(old(cpu)@, target, value, carry),
{
    cpu.write_register(target, value);
    update_arithmetic_flags(cpu, value);
    set_carry(cpu, carry);
}

pub fn inr(cpu: &mut CPU, target: CPURegister)
    requires
        old(cpu).wf(),
    ensures
        final(cpu).wf(),
        final(cpu)@ == execute_spec(old(cpu)@, Operation::Inr(target)),
{
    proof {
        reveal(execute_spec);
    }
    let old_value = cpu.read_register(target);
    write_counted(cpu, target, increment(old_value), old_value == 0xFF);
}

pub fn inx(cpu: &mut CPU, target: CPURegister)
    requires
        old(cpu).wf(),
    ensures
        final(cpu).wf(),
        final(cpu)@ == execute_spec(old(cpu)@, Operation::Inx(target)),
{
    proof {
        reveal(execute_spec);
    }
    let old_value = cpu.read_register(target);
    write_counted(cpu, target, increment(old_value), old_value == 0xFFFF);
}

pub fn dcr(cpu: &mut CPU, target: CPURegister)
    requires
        old(cpu).wf(),
    ensures
        final(cpu).wf(),
        final(cpu)@ == execute_spec(old(cpu)@, Operation::Dcr(target)),
{
    proof {
        reveal(execute_spec);
    }
    let old_value = cpu.read_register(target);
    write_counted(cpu, target, decrement(old_value), old_value == 0);
}

pub fn dcx(cpu: &mut CPU, target: CPURegister)
    requires
        old(cpu).wf(),
    ensures
        final(cpu).wf(),
        final(cpu)@ == execute_spec(old(cpu)@, Operation::Dcx(target)),
{
    proof {
        reveal(execute_spec);
    }
    dcr(cpu, target);
}

pub fn add(cpu: &mut CPU, target: CPURegister)
    requires
        old(cpu).wf(),
    ensures
        final(cpu).wf(),
        final(cpu)@ == execute_spec(old(cpu)@, Operation::Add(target)),
{
    proof {
        reveal(execute_spec);
    }
    let value = read_operand(cpu, target);
    adi(cpu, value);
}

pub fn adi(cpu: &mut CPU, value: u8)
    requires
        old(cpu).wf(),
    ensures
        final(cpu).wf(),
        final(cpu)@ == adi_spec(old(cpu)@, value, 0),
{
    let sum = cpu.A as u16 + value as u16;
    cpu.A = (sum % 256) as u8;
    update_arithmetic_flags(cpu, sum);
}

pub fn adc(cpu: &mut CPU, target: CPURegister)
    requires
        old(cpu).wf(),
    ensures
        final(cpu).wf(),
        final(cpu)@ == execute_spec(old(cpu)@, Operation::Adc(target)),
{
    proof {
        reveal(execute_spec);
    }
    let value = read_operand(cpu, target);
    aci(cpu, value);
}

pub fn aci(cpu: &mut CPU, value: u8)
    requires
        old(cpu).wf(),
    ensures
        final(cpu).wf(),
        final(cpu)@ == adi_spec(old(cpu)@, value, bit_of(old(cpu)@.flags.carry)),
{
    let carry: u16 = if cpu.flags.carry {
        1
    } else {
        0
    };
    let sum = cpu.A as u16 + value as u16 + carry;
    cpu.A = (sum % 256) as u8;
    update_arithmetic_flags(cpu, sum);
}

/// Flags of accumulator minus `value` minus `borrow`; returns the difference modulo 2^16.
fn subtract(cpu: &mut CPU, value: u8, borrow: u8) -> (r: u16)
    requires
        old(cpu).wf(),
        borrow <= 1,
    ensures
        final(cpu).wf(),
        final(cpu)@ == difference_flags(old(cpu)@, value, borrow as int),
        r == wrap16(old(cpu)@.a - value - borrow),
{
    let difference = (cpu.A as u16).wrapping_sub(value as u16).wrapping_sub(borrow as u16);
    update_arithmetic_flags(cpu, difference);
    set_carry(cpu, difference > 0xFF);
    difference
}

pub fn sub(cpu: &mut CPU, target: CPURegister)
    requires
        old(cpu).wf(),
    ensures
        final(cpu).wf(),
        final(cpu)@ == execute_spec(old(cpu)@, Operation::Sub(target)),
{
    proof {
        reveal(execute_spec);
    }
    let value = read_operand(cpu, target);
    sui(cpu, value);
}

pub fn sui(cpu: &mut CPU, value: u8)
    requires
        old(cpu).wf(),
    ensures
        final(cpu).wf(),
        final(cpu)@ == sui_spec(old(cpu)@, value, 0),
{
    let difference = subtract(cpu, value, 0);
    cpu.A = (difference % 256) as u8;
}

pub fn sbb(cpu: &mut CPU, target: CPURegister)
    requires
        old(cpu).wf(),
    ensures
        final(cpu).wf(),
        final(cpu)@ == execute_spec(old(cpu)@, Operation::Sbb(target)),
{
    proof {
        reveal(execute_spec);
    }
    let value = read_operand(cpu, target);
    sbi(cpu, value);
}

pub fn sbi(cpu: &mut CPU, value: u8)
    requires
        old(cpu).wf(),
    ensures
        final(cpu).wf(),
        final(cpu)@ == sui_spec(old(cpu)@, value, bit_of(old(cpu)@.flags.carry)),
{
    let borrow: u8 = if cpu.flags.carry {
        1
    } else {
        0
    };
    let difference = subtract(cpu, value, borrow);
    cpu.A = (difference % 256) as u8;
}

pub fn cmp(cpu: &mut CPU, target: CPURegister)
    requires
        old(cpu).wf(),
    ensures
        final(cpu).wf(),
        final(cpu)@ == execute_spec(old(cpu)@, Operation::Cmp(target)),
{
    proof {
        reveal(execute_spec);
    }
    let value = read_operand(cpu, target);
    cpi(cpu, value);
}

pub fn cpi(cpu: &mut CPU, value: u8)
    requires
        old(cpu).wf(),
    ensures
        final(cpu).wf(),
        final(cpu)@ == difference_flags(old(cpu)@, value, 0),
{
    subtract(cpu, value, 0);
}

pub fn push(cpu: &mut CPU, from: CPURegister)
    requires
        old(cpu).wf(),
    ensures
        final(cpu).wf(),
        final(cpu)@ == execute_spec(old(cpu)@, Operation::Push(from)),
{
    proof {
        reveal(execute_spec);
    }
    let value = cpu.read_register(from);
    CPUStack::push_address(cpu, value);
}

pub fn pop(cpu: &mut CPU, to: CPURegister)
    requires
        old(cpu).wf(),
    ensures
        final(cpu).wf(),
        final(cpu)@ == execute_spec(old(cpu)@, Operation::Pop(to)),
{
    proof {
        reveal(execute_spec);
    }
    let value = CPUStack::pop_address(cpu);
    cpu.write_register(to, value);
}

pub fn jmp(cpu: &mut CPU, address: u16)
    ensures
        final(cpu)@ == old(cpu)@.with_program_counter(address),
{
    cpu.program_counter = address;
}

pub fn jmp_if(cpu: &mut CPU, condition: Condition, address: u16)
    ensures
        final(cpu)@ == address_operation_spec(old(cpu)@, AddressOperation::JmpIf(condition), address),
{
    if condition.test(&cpu.flags) {
        jmp(cpu, address);
    }
}

pub fn call(cpu: &mut CPU, address: u16)
    requires
        old(cpu).wf(),
    ensures
        final(cpu).wf(),
        final(cpu)@ == call_spec(old(cpu)@, address),
{
    let return_address = cpu.program_counter;
    CPUStack::push_address(cpu, return_address);
    cpu.program_counter = address;
}

pub fn call_if(cpu: &mut CPU, condition: Condition, address: u16)
    requires
        old(cpu).wf(),
    ensures
        final(cpu).wf(),
        final(cpu)@ == address_operation_spec(old(cpu)@, AddressOperation::CallIf(condition), address),
{
    if condition.test(&cpu.flags) {
        call(cpu, address);
    }
}

pub fn ret(cpu: &mut CPU)
    requires
        old(cpu).wf(),
    ensures
        final(cpu).wf(),
        final(cpu)@ == execute_spec(old(cpu)@, Operation::Ret),
{
    proof {
        reveal(execute_spec);
    }
    cpu.program_counter = CPUStack::pop_address(cpu);
}

pub fn ret_if(cpu: &mut CPU, condition: Condition)
    requires
        old(cpu).wf(),
    ensures
        final(cpu).wf(),
        final(cpu)@ == execute_spec(old(cpu)@, Operation::RetIf(condition)),
{
    proof {
        reveal(execute_spec);
    }
    if condition.test(&cpu.flags) {
        ret(cpu);
    }
}

pub fn rst(cpu: &mut CPU, address: u16)
    requires
        old(cpu).wf(),
    ensures
        final(cpu).wf(),
        final(cpu)@ == execute_spec(old(cpu)@, Operation::Rst(address)),
{
    proof {
        reveal(execute_spec);
    }
    call(cpu, address);
}

pub fn lda(cpu: &mut CPU, address: u16)
    requires
        old(cpu).wf(),
    ensures
        final(cpu).wf(),
        final(cpu)@ == address_operation_spec(old(cpu)@, AddressOperation::Lda, address),
{
    cpu.A = cpu.ram.read(address);
}

pub fn ldax(cpu: &mut CPU, from: CPURegister)
    requires
        old(cpu).wf(),
    ensures
        final(cpu).wf(),
        final(cpu)@ == execute_spec(old(cpu)@, Operation::Ldax(from)),
{
    proof {
        reveal(execute_spec);
    }
    let address = cpu.read_register(from);
    cpu.A = cpu.ram.read(address);
}

pub fn lxi(cpu: &mut CPU, to: CPURegister, value: u16)
    requires
        old(cpu).wf(),
    ensures
        final(cpu).wf(),
        final(cpu)@ == with_register(old(cpu)@, to, value),
{
    cpu.write_register(to, value);
}

pub fn lhld(cpu: &mut CPU, address: u16)
    requires
        old(cpu).wf(),
    ensures
        final(cpu).wf(),
        final(cpu)@ == address_operation_spec(old(cpu)@, AddressOperation::Lhld, address),
{
    cpu.L = cpu.ram.read(address);
    cpu.H = cpu.ram.read(increment(address));
}

pub fn sta(cpu: &mut CPU, address: u16)
    requires
        old(cpu).wf(),
    ensures
        final(cpu).wf(),
        final(cpu)@ == old(cpu)@.with_byte(address, old(cpu)@.a),
{
    let value = cpu.A;
    cpu.ram.write(address, value);
}

/// Copies the accumulator into `to`, as the instruction table of this machine defines it.
pub fn stax(cpu: &mut CPU, to: CPURegister)
    requires
        old(cpu).wf(),
    ensures
        final(cpu).wf(),
        final(cpu)@ == execute_spec(old(cpu)@, Operation::Stax(to)),
{
    proof {
        reveal(execute_spec);
    }
    let value = cpu.A as u16;
    cpu.write_register(to, value);
}

pub fn shld(cpu: &mut CPU, address: u16)
    requires
        old(cpu).wf(),
    ensures
        final(cpu).wf(),
        final(cpu)@ == address_operation_spec(old(cpu)@, AddressOperation::Shld, address),
{
    let low = cpu.L;
    let high = cpu.H;
    cpu.ram.write(address, low);
    cpu.ram.write(increment(address), high);
}

pub fn dad(cpu: &mut CPU, target: CPURegister)
    requires
        old(cpu).wf(),
    ensures
        final(cpu).wf(),
        final(cpu)@ == execute_spec(old(cpu)@, Operation::Dad(target)),
{
    proof {
        reveal(execute_spec);
    }
    proof {
        reveal(with_register);
        reveal(register_value);
    }
    let target_value = cpu.read_register(target) as u32;
    let hl_value = cpu.read_register(CPURegister::HL) as u32;
    let sum = hl_value + target_value;
    write_counted(cpu, CPURegister::HL, (sum % 0x10000) as u16, sum > 0xFFFF);
}

pub fn cma(cpu: &mut CPU)
    requires
        old(cpu).wf(),
    ensures
        final(cpu).wf(),
        final(cpu)@ == execute_spec(old(cpu)@, Operation::Cma),
{
    proof {
        reveal(execute_spec);
    }
    cpu.A = 255 - cpu.A;
}

pub fn stc(cpu: &mut CPU)
    requires
        old(cpu).wf(),
    ensures
        final(cpu).wf(),
        final(cpu)@ == execute_spec(old(cpu)@, Operation::Stc),
{
    proof {
        reveal(execute_spec);
    }
    cpu.flags.carry = true;
}

pub fn cmc(cpu: &mut CPU)
    requires
        old(cpu).wf(),
    ensures
        final(cpu).wf(),
        final(cpu)@ == execute_spec(old(cpu)@, Operation::Cmc),
{
    proof {
        reveal(execute_spec);
    }
    cpu.flags.carry = !cpu.flags.carry;
}

pub fn pchl(cpu: &mut CPU)
    requires
        old(cpu).wf(),
    ensures
        final(cpu).wf(),
        final(cpu)@ == execute_spec(old(cpu)@, Operation::Pchl),
{
    proof {
        reveal(execute_spec);
    }
    proof {
        reveal(with_register);
        reveal(register_value);
    }
    let value = cpu.read_register(CPURegister::HL);
    cpu.write_register(CPURegister::ProgramCounter, value);
}

pub fn sphl(cpu: &mut CPU)
    requires
        old(cpu).wf(),
    ensures
        final(cpu).wf(),
        final(cpu)@ == execute_spec(old(cpu)@, Operation::Sphl),
{
    proof {
        reveal(execute_spec);
    }
    proof {
        reveal(with_register);
        reveal(register_value);
    }
    let value = cpu.read_register(CPURegister::HL);
    cpu.write_register(CPURegister::StackPointer, value);
}

pub fn xchg(cpu: &mut CPU)
    requires
        old(cpu).wf(),
    ensures
        final(cpu).wf(),
        final(cpu)@ == execute_spec(old(cpu)@, Operation::Xchg),
{
    proof {
        reveal(execute_spec);
    }
    let hl = cpu.read_register(CPURegister::HL);
    let de = cpu.read_register(CPURegister::DE);
    cpu.write_register(CPURegister::HL, de);
    cpu.write_register(CPURegister::DE, hl);
}

pub fn xthl(cpu: &mut CPU)
    requires
        old(cpu).wf(),
    ensures
        final(cpu).wf(),
        final(cpu)@ == execute_spec(old(cpu)@, Operation::Xthl),
{
    proof {
        reveal(execute_spec);
    }
    let stack_pointer = cpu.stack.get_pointer();
    let next = increment(stack_pointer);
    let stack_first_value = cpu.ram.read(stack_pointer);
    let stack_second_value = cpu.ram.read(next);
    let low = cpu.L;
    let high = cpu.H;
    cpu.ram.write(stack_pointer, low);
    cpu.ram.write(next, high);
    cpu.L = stack_first_value;
    cpu.H = stack_second_value;
}

pub fn di(cpu: &mut CPU)
    requires
        old(cpu).wf(),
    ensures
        final(cpu).wf(),
        final(cpu)@ == execute_spec(old(cpu)@, Operation::Di),
{
    proof {
        reveal(execute_spec);
    }
    cpu.are_interrupts_enabled = false;
}

pub fn ei(cpu: &mut CPU)
    requires
        old(cpu).wf(),
    ensures
        final(cpu).wf(),
        final(cpu)@ == execute_spec(old(cpu)@, Operation::Ei),
{
    proof {
        reveal(execute_spec);
    }
    cpu.are_interrupts_enabled = true;
}

pub fn daa(cpu: &mut CPU)
    requires
        old(cpu).wf(),
    ensures
        final(cpu).wf(),
        final(cpu)@ == execute_spec(old(cpu)@, Operation::Daa),
{
    proof {
        reveal(execute_spec);
    }
    let lsb = cpu.A % 16;
    let mut value: u16 = cpu.A as u16;
    if lsb > 9 || cpu.flags.aux_carry {
        value = value + 6;
        cpu.flags.aux_carry = lsb + 6 > 0x0F;
    }
    let mut msb: u16 = value / 16;
    if msb > 9 || cpu.flags.carry {
        msb = msb + 6;
    }
    let result: u16 = msb * 16 + value % 16;
    cpu.A = (result % 256) as u8;
    update_arithmetic_flags(cpu, result);
}

pub fn _in(cpu: &mut CPU, port: u8)
    requires
        old(cpu).wf(),
    ensures
        final(cpu).wf(),
        final(cpu)@ == in_spec(old(cpu)@, port),
{
    if port == 1 {
        cpu.A = cpu.in1;
    } else if port == 2 {
        cpu.A = cpu.in2;
    } else if port == 3 {
        let shift_amount = (8 - cpu.shift_register_offset) as u16;
        cpu.A = ((cpu.shift_register >> shift_amount) % 256) as u8;
    }
}

pub fn out(cpu: &mut CPU, port: u8)
    requires
        old(cpu).wf(),
    ensures
        final(cpu).wf(),
        final(cpu)@ == out_spec(old(cpu)@, port),
{
    if port == 2 {
        cpu.shift_register_offset = cpu.A % 8;
    } else if port == 4 {
        let left = (cpu.A as u16) * 256;
        let right = cpu.shift_register / 256;
        cpu.shift_register = left + right;
    }
}

pub fn read_byte_then(cpu: &mut CPU, operation: ByteOperation)
    requires
        old(cpu).wf(),
    ensures
        final(cpu).wf(),
        final(cpu)@ == execute_spec(old(cpu)@, Operation::ReadByteThen(operation)),
{
    proof {
        reveal(execute_spec);
    }
    let value = cpu.next_byte();
    match operation {
        ByteOperation::Mvi(to) => mvi(cpu, to, value),
        ByteOperation::Ani => ani(cpu, value),
        ByteOperation::Xri => xri(cpu, value),
        ByteOperation::Ori => ori(cpu, value),
        ByteOperation::Adi => adi(cpu, value),
        ByteOperation::Aci => aci(cpu, value),
        ByteOperation::Sui => sui(cpu, value),
        ByteOperation::Sbi => sbi(cpu, value),
        ByteOperation::Cpi => cpi(cpu, value),
        ByteOperation::Out => out(cpu, value),
        ByteOperation::In => _in(cpu, value),
    }
}

pub fn read_address_then(cpu: &mut CPU, operation: AddressOperation)
    requires
        old(cpu).wf(),
    ensures
        final(cpu).wf(),
        final(cpu)@ == execute_spec(old(cpu)@, Operation::ReadAddressThen(operation)),
{
    proof {
        reveal(execute_spec);
    }
    let address = cpu.next_address();
    match operation {
        AddressOperation::Jmp => jmp(cpu, address),
        AddressOperation::JmpIf(condition) => jmp_if(cpu, condition, address),
        AddressOperation::Call => call(cpu, address),
        AddressOperation::CallIf(condition) => call_if(cpu, condition, address),
        AddressOperation::Lda => lda(cpu, address),
        AddressOperation::Lxi(to) => lxi(cpu, to, address),
        AddressOperation::Lhld => lhld(cpu, address),
        AddressOperation::Sta => sta(cpu, address),
        AddressOperation::Shld => shld(cpu, address),
    }
}

/// Executes one decoded instruction whose opcode byte has already been fetched.
pub fn execute(cpu: &mut CPU, operation: Operation)
    requires
        old(cpu).wf(),
    ensures
        final(cpu).wf(),
        final(cpu)@ == execute_spec(old(cpu)@, operation),
{
    match operation {
        Operation::Nop => nop(cpu),
        Operation::Mov(from, to) => mov(cpu, from, to),
        Operation::ReadByteThen(op) => read_byte_then(cpu, op),
        Operation::ReadAddressThen(op) => read_address_then(cpu, op),
        _ => execute_arithmetic(cpu, operation),
    }
}

/// Executes the arithmetic and logic instructions; hands the others on.
fn execute_arithmetic(cpu: &mut CPU, operation: Operation)
    requires
        old(cpu).wf(),
        !(operation is Nop),
        !(operation is Mov),
        !(operation is ReadByteThen),
        !(operation is ReadAddressThen),
    ensures
        final(cpu).wf(),
        final(cpu)@ == execute_spec(old(cpu)@, operation),
{
    match operation {
        Operation::Ana(target) => ana(cpu, target),
        Operation::Xra(target) => xra(cpu, target),
        Operation::Ora(target) => ora(cpu, target),
        Operation::Add(target) => crate::opcodes::add(cpu, target),
        Operation::Adc(target) => adc(cpu, target),
        Operation::Sub(target) => crate::opcodes::sub(cpu, target),
        Operation::Sbb(target) => sbb(cpu, target),
        Operation::Cmp(target) => cmp(cpu, target),
        _ => execute_counting(cpu, operation),
    }
}

/// Executes increments, decrements, decimal adjust and the rotates; hands the others on.
fn execute_counting(cpu: &mut CPU, operation: Operation)
    requires
        old(cpu).wf(),
        !(operation is Nop),
        !(operation is Mov),
        !(operation is ReadByteThen),
        !(operation is ReadAddressThen),
        !(operation is Ana),
        !(operation is Xra),
        !(operation is Ora),
        !(operation is Add),
        !(operation is Adc),
        !(operation is Sub),
        !(operation is Sbb),
        !(operation is Cmp),
    ensures
        final(cpu).wf(),
        final(cpu)@ == execute_spec(old(cpu)@, operation),
{
    match operation {
        Operation::Inr(target) => inr(cpu, target),
        Operation::Inx(target) => inx(cpu, target),
        Operation::Dcr(target) => dcr(cpu, target),
        Operation::Dcx(target) => dcx(cpu, target),
        Operation::Dad(target) => dad(cpu, target),
        Operation::Daa => daa(cpu),
        Operation::Rrc => rrc(cpu),
        Operation::Rar => rar(cpu),
        Operation::Rlc => rlc(cpu),
        Operation::Ral => ral(cpu),
        _ => execute_flow(cpu, operation),
    }
}

/// Executes the flag, stack and control-transfer instructions; hands the others on.
fn execute_flow(cpu: &mut CPU, operation: Operation)
    requires
        old(cpu).wf(),
        !(operation is Nop),
        !(operation is Mov),
        !(operation is ReadByteThen),
        !(operation is ReadAddressThen),
        !(operation is Ana),
        !(operation is Xra),
        !(operation is Ora),
        !(operation is Add),
        !(operation is Adc),
        !(operation is Sub),
        !(operation is Sbb),
        !(operation is Cmp),
        !(operation is Inr),
        !(operation is Inx),
        !(operation is Dcr),
        !(operation is Dcx),
        !(operation is Dad),
        !(operation is Daa),
        !(operation is Rrc),
        !(operation is Rar),
        !(operation is Rlc),
        !(operation is Ral),
    ensures
        final(cpu).wf(),
        final(cpu)@ == execute_spec(old(cpu)@, operation),
{
    match operation {
        Operation::Cma => cma(cpu),
        Operation::Stc => stc(cpu),
        Operation::Cmc => cmc(cpu),
        Operation::Push(from) => push(cpu, from),
        Operation::Pop(to) => pop(cpu, to),
        Operation::Ret => ret(cpu),
        Operation::RetIf(condition) => ret_if(cpu, condition),
        Operation::Rst(address) => rst(cpu, address),
        Operation::Xthl => xthl(cpu),
        Operation::Sphl => sphl(cpu),
        Operation::Pchl => pchl(cpu),
        _ => execute_transfer(cpu, operation),
    }
}

/// Executes the remaining data-transfer and interrupt-switch instructions.
fn execute_transfer(cpu: &mut CPU, operation: Operation)
    requires
        old(cpu).wf(),
        !(operation is Nop),
        !(operation is Mov),
        !(operation is ReadByteThen),
        !(operation is ReadAddressThen),
        !(operation is Ana),
        !(operation is Xra),
        !(operation is Ora),
        !(operation is Add),
        !(operation is Adc),
        !(operation is Sub),
        !(operation is Sbb),
        !(operation is Cmp),
        !(operation is Inr),
        !(operation is Inx),
        !(operation is Dcr),
        !(operation is Dcx),
        !(operation is Dad),
        !(operation is Daa),
        !(operation is Rrc),
        !(operation is Rar),
        !(operation is Rlc),
        !(operation is Ral),
        !(operation is Cma),
        !(operation is Stc),
        !(operation is Cmc),
        !(operation is Push),
        !(operation is Pop),
        !(operation is Ret),
        !(operation is RetIf),
        !(operation is Rst),
        !(operation is Xthl),
        !(operation is Sphl),
        !(operation is Pchl),
    ensures
        final(cpu).wf(),
        final(cpu)@ == execute_spec(old(cpu)@, operation),
{
    match operation {
        Operation::Ldax(from) => ldax(cpu, from),
        Operation::Stax(to) => stax(cpu, to),
        Operation::Xchg => xchg(cpu),
        Operation::Di => di(cpu),
        Operation::Ei => ei(cpu),
        _ => {},
    }
}

} // verus!

verus! {

// ---------------------------------------------------------------------------------------
// Laws of the instruction set

/// Popping right after pushing gives back the pushed value and leaves the stack as it was.
pub proof fn lemma_pop_after_push(s: CpuState, value: u16)
    requires
        s.wf(),
    ensures
        pop_address_spec(push_address_spec(s, value)).1 == value,
        pop_address_spec(push_address_spec(s, value)).0 == (CpuState {
            memory: push_address_spec(s, value).memory,
            ..s
        }),
{
    let s1 = push_byte_spec(s, high_byte(value));
    let s2 = push_byte_spec(s1, low_byte(value));
    crate::stack::lemma_push_keeps_window(s.stack);
    crate::stack::lemma_push_keeps_window(s1.stack);
    assert(s1.stack.pointer != s2.stack.pointer);
    let (s3, low) = pop_byte_spec(s2);
    assert(low == low_byte(value));
    assert(s3.stack == s1.stack);
    let (s4, high) = pop_byte_spec(s3);
    assert(high == high_byte(value));
    assert(s4.stack == s.stack);
}

/// `PUSH r` followed by `POP r`, for each of BC, DE, HL and PSW, restores the pair and
/// leaves every other register, the flags and the stack as they were; only memory below
/// the stack pointer keeps the pushed bytes.
pub proof fn lemma_push_then_pop(s: CpuState, pair: CPURegister)
    requires
        s.wf(),
        pair == CPURegister::BC || pair == CPURegister::DE || pair == CPURegister::HL || pair
            == CPURegister::PSW,
    ensures
        ({
            let t = execute_spec(execute_spec(s, Operation::Push(pair)), Operation::Pop(pair));
            &&& register_value(t, pair) == register_value(s, pair)
            &&& t == (CpuState { memory: t.memory, ..s })
        }),
{
    let value = register_value(s, pair);
    let pushed = execute_spec(s, Operation::Push(pair));
    assert(pushed == push_address_spec(s, value)) by {
        reveal(execute_spec);
    }
    assert(execute_spec(pushed, Operation::Pop(pair)) == pop_spec(pushed, pair)) by {
        reveal(execute_spec);
    }
    lemma_pop_after_push(s, value);
    crate::flags::lemma_flags_unpack_pack(s.flags);
    let popped = pop_address_spec(pushed).0;
    lemma_restore_pair(s, popped, pair);
}

/// Writing a pair's own value back into a state that differs from `s` only in memory
/// gives `s` back, up to memory.
proof fn lemma_restore_pair(s: CpuState, popped: CpuState, pair: CPURegister)
    requires
        popped == (CpuState { memory: popped.memory, ..s }),
        pair == CPURegister::BC || pair == CPURegister::DE || pair == CPURegister::HL || pair
            == CPURegister::PSW,
    ensures
        ({
            let t = with_register(popped, pair, register_value(s, pair));
            &&& register_value(t, pair) == register_value(s, pair)
            &&& t == (CpuState { memory: popped.memory, ..s })
        }),
{
    reveal(with_register);
    reveal(register_value);
    if pair == CPURegister::PSW {
        crate::flags::lemma_flags_unpack_pack(s.flags);
        lemma_pair_bytes(s.a, s.flags.byte_spec());
    } else if pair == CPURegister::BC {
        lemma_pair_bytes(s.b, s.c);
    } else if pair == CPURegister::DE {
        lemma_pair_bytes(s.d, s.e);
    } else {
        lemma_pair_bytes(s.h, s.l);
    }
}

/// A pair value splits back into the bytes it was made of.
pub proof fn lemma_pair_bytes(high: u8, low: u8)
    ensures
        high_byte(crate::pair_value(high, low)) == high,
        low_byte(crate::pair_value(high, low)) == low,
{
}

/// A call followed by a return comes back to the program counter the call was made from
/// (already past the call's operand bytes), with the stack and every register and flag as
/// before the call.
pub proof fn lemma_call_then_return(s: CpuState, address: u16)
    requires
        s.wf(),
    ensures
        ({
            let t = ret_spec(call_spec(s, address));
            &&& t.program_counter == s.program_counter
            &&& t == (CpuState { memory: t.memory, ..s })
        }),
{
    lemma_pop_after_push(s, s.program_counter);
}

/// Each conditional jump, call and return transfers control exactly when its condition
/// holds of the flags, and otherwise changes nothing; the eight condition fields of the
/// encoding test zero, carry, parity and sign, clear and set.
pub proof fn lemma_conditional_transfers(s: CpuState, condition: Condition, address: u16)
    ensures
        address_operation_spec(s, AddressOperation::JmpIf(condition), address) == if condition.holds(
            s.flags,
        ) {
            s.with_program_counter(address)
        } else {
            s
        },
        address_operation_spec(s, AddressOperation::CallIf(condition), address) == if condition.holds(
            s.flags,
        ) {
            call_spec(s, address)
        } else {
            s
        },
        execute_spec(s, Operation::RetIf(condition)) == if condition.holds(s.flags) {
            ret_spec(s)
        } else {
            s
        },
        condition_field(0).holds(s.flags) == !s.flags.zero,
        condition_field(1).holds(s.flags) == s.flags.zero,
        condition_field(2).holds(s.flags) == !s.flags.carry,
        condition_field(3).holds(s.flags) == s.flags.carry,
        condition_field(4).holds(s.flags) == !s.flags.even,
        condition_field(5).holds(s.flags) == s.flags.even,
        condition_field(6).holds(s.flags) == !s.flags.negative,
        condition_field(7).holds(s.flags) == s.flags.negative,
        forall|y: u8|
            y < 8 ==> {
                &&& #[trigger] operation_of((0xC2 + 8 * y) as u8).0 == Operation::ReadAddressThen(
                    AddressOperation::JmpIf(condition_field(y as int)),
                )
                &&& operation_of((0xC4 + 8 * y) as u8).0 == Operation::ReadAddressThen(
                    AddressOperation::CallIf(condition_field(y as int)),
                )
                &&& operation_of((0xC0 + 8 * y) as u8).0 == Operation::RetIf(
                    condition_field(y as int),
                )
            },
{
    reveal(execute_spec);
}

} // verus!
