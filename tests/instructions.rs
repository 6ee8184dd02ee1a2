use emulator::cpu::{CPURunEnvironment, CPU};
use emulator::opcodes::{
    adi, build_opcodes_slice, call, daa, decode, ret, sui, AddressOperation, ByteOperation,
    Condition, Operation,
};
use emulator::registers::CPURegister;

fn machine(program: &[u8]) -> (CPU, CPURunEnvironment) {
    let (mut cpu, env) = CPU::new(program);
    cpu.write_register(CPURegister::StackPointer, 0x2400);
    (cpu, env)
}

#[test]
fn add_zero_to_zero_sets_zero_clears_carry() {
    let (mut cpu, _env) = machine(&[]);
    cpu.A = 0x00;
    adi(&mut cpu, 0x00);
    assert_eq!(cpu.A, 0x00);
    assert!(cpu.flags.zero);
    assert!(!cpu.flags.carry);
}

#[test]
fn add_overflow_wraps_with_carry() {
    let (mut cpu, _env) = machine(&[]);
    cpu.A = 0xFF;
    adi(&mut cpu, 0x01);
    assert_eq!(cpu.A, 0x00);
    assert!(cpu.flags.carry);
    assert!(cpu.flags.zero);
}

#[test]
fn subtract_underflow_borrows() {
    let (mut cpu, _env) = machine(&[]);
    cpu.A = 0x00;
    sui(&mut cpu, 0x01);
    assert_eq!(cpu.A, 0xFF);
    assert!(cpu.flags.carry);
    assert!(cpu.flags.negative);
    assert!(!cpu.flags.zero);
}

#[test]
fn add_register_through_program() {
    // MVI A,0x40; MVI B,0x02; ADD B
    let (mut cpu, env) = machine(&[0x3E, 0x40, 0x06, 0x02, 0x80]);
    assert_eq!(cpu.step(&env), 7);
    assert_eq!(cpu.step(&env), 7);
    assert_eq!(cpu.step(&env), 4);
    assert_eq!(cpu.A, 0x42);
    assert!(!cpu.flags.zero && !cpu.flags.carry && !cpu.flags.negative);
    assert!(cpu.flags.even);
    assert_eq!(cpu.program_counter, 5);
}

#[test]
fn subtract_with_borrow_and_compare() {
    // SBB B with carry set: 0x10 - 0x0F - 1 = 0
    let (mut cpu, env) = machine(&[0x98, 0xFE, 0x01]);
    cpu.A = 0x10;
    cpu.B = 0x0F;
    cpu.flags.carry = true;
    cpu.step(&env);
    assert_eq!(cpu.A, 0x00);
    assert!(cpu.flags.zero);
    assert!(!cpu.flags.carry);
    // CPI 1: 0 - 1 borrows, accumulator unchanged
    cpu.step(&env);
    assert_eq!(cpu.A, 0x00);
    assert!(cpu.flags.carry);
    assert!(!cpu.flags.zero);
}

#[test]
fn daa_adjusts_past_ninety_nine() {
    let (mut cpu, _env) = machine(&[]);
    cpu.A = 0x9A;
    cpu.flags.carry = false;
    cpu.flags.aux_carry = false;
    daa(&mut cpu);
    assert_eq!(cpu.A, 0x00);
    assert!(cpu.flags.carry);
    assert!(cpu.flags.zero);
}

#[test]
fn daa_adjusts_low_digit() {
    let (mut cpu, _env) = machine(&[]);
    cpu.A = 0x0C;
    daa(&mut cpu);
    assert_eq!(cpu.A, 0x12);
    assert!(!cpu.flags.carry);
}

#[test]
fn logic_and_rotates() {
    // ANI 0x0F; ORI 0x80; XRI 0xFF; RLC; RAR
    let (mut cpu, env) = machine(&[0xE6, 0x0F, 0xF6, 0x80, 0xEE, 0xFF, 0x07, 0x1F]);
    cpu.A = 0x3C;
    cpu.flags.carry = true;
    cpu.step(&env);
    assert_eq!(cpu.A, 0x0C);
    assert!(!cpu.flags.carry && cpu.flags.even);
    cpu.step(&env);
    assert_eq!(cpu.A, 0x8C);
    assert!(cpu.flags.negative && !cpu.flags.even);
    cpu.step(&env);
    assert_eq!(cpu.A, 0x73);
    cpu.step(&env);
    assert_eq!(cpu.A, 0xE6);
    assert!(!cpu.flags.carry);
    cpu.flags.carry = true;
    cpu.step(&env);
    assert_eq!(cpu.A, 0xF3);
    assert!(!cpu.flags.carry);
}

#[test]
fn rotate_right_and_left_through_carry() {
    // RRC; RAL
    let (mut cpu, env) = machine(&[0x0F, 0x17]);
    cpu.A = 0x01;
    cpu.step(&env);
    assert_eq!(cpu.A, 0x80);
    assert!(cpu.flags.carry);
    cpu.step(&env);
    assert_eq!(cpu.A, 0x01);
    assert!(cpu.flags.carry);
}

#[test]
fn increments_and_decrements() {
    // INR A; DCR B; INX H; DCX D
    let (mut cpu, env) = machine(&[0x3C, 0x05, 0x23, 0x1B]);
    cpu.A = 0xFF;
    cpu.B = 0x00;
    cpu.write_register(CPURegister::HL, 0xFFFF);
    cpu.write_register(CPURegister::DE, 0x0000);
    cpu.step(&env);
    assert_eq!(cpu.A, 0x00);
    assert!(cpu.flags.zero && cpu.flags.carry);
    cpu.step(&env);
    assert_eq!(cpu.B, 0xFF);
    assert!(cpu.flags.carry && cpu.flags.negative && !cpu.flags.zero);
    cpu.step(&env);
    assert_eq!(cpu.read_register(CPURegister::HL), 0x0000);
    assert!(cpu.flags.carry);
    cpu.step(&env);
    assert_eq!(cpu.read_register(CPURegister::DE), 0xFFFF);
    assert!(cpu.flags.carry);
}

#[test]
fn double_add_sets_carry_on_overflow() {
    // DAD B
    let (mut cpu, env) = machine(&[0x09, 0x09]);
    cpu.write_register(CPURegister::HL, 0xF000);
    cpu.write_register(CPURegister::BC, 0x1001);
    cpu.step(&env);
    assert_eq!(cpu.read_register(CPURegister::HL), 0x0001);
    assert!(cpu.flags.carry);
    cpu.step(&env);
    assert_eq!(cpu.read_register(CPURegister::HL), 0x1002);
    assert!(!cpu.flags.carry);
}

#[test]
fn loads_stores_and_exchanges() {
    // LXI H,0x2010; SHLD 0x2100; LHLD 0x2100; STA 0x2200; LDA 0x2010; XCHG; XTHL; CMA; STC; CMC
    let program = [
        0x21, 0x10, 0x20, 0x22, 0x00, 0x21, 0x2A, 0x00, 0x21, 0x32, 0x00, 0x22, 0x3A, 0x10,
        0x20, 0xEB, 0xE3, 0x2F, 0x37, 0x3F,
    ];
    let (mut cpu, env) = machine(&program);
    cpu.A = 0x77;
    cpu.write_register(CPURegister::DE, 0x3344);
    cpu.step(&env);
    assert_eq!(cpu.read_register(CPURegister::HL), 0x2010);
    cpu.step(&env);
    assert_eq!(cpu.ram.read(0x2100), 0x10);
    assert_eq!(cpu.ram.read(0x2101), 0x20);
    cpu.write_register(CPURegister::HL, 0);
    cpu.step(&env);
    assert_eq!(cpu.read_register(CPURegister::HL), 0x2010);
    cpu.step(&env);
    assert_eq!(cpu.ram.read(0x2200), 0x77);
    cpu.step(&env);
    assert_eq!(cpu.A, 0x00);
    cpu.step(&env);
    assert_eq!(cpu.read_register(CPURegister::HL), 0x3344);
    assert_eq!(cpu.read_register(CPURegister::DE), 0x2010);
    cpu.ram.write(0x2400, 0xAA);
    cpu.ram.write(0x2401, 0xBB);
    cpu.step(&env);
    assert_eq!(cpu.read_register(CPURegister::HL), 0xBBAA);
    assert_eq!(cpu.ram.read(0x2400), 0x44);
    assert_eq!(cpu.ram.read(0x2401), 0x33);
    cpu.step(&env);
    assert_eq!(cpu.A, 0xFF);
    cpu.step(&env);
    assert!(cpu.flags.carry);
    cpu.step(&env);
    assert!(!cpu.flags.carry);
}

#[test]
fn stax_copies_accumulator_into_pair() {
    let (mut cpu, env) = machine(&[0x12]);
    cpu.A = 0x5A;
    cpu.write_register(CPURegister::DE, 0x1234);
    cpu.step(&env);
    assert_eq!(cpu.read_register(CPURegister::DE), 0x005A);
}

#[test]
fn call_then_return_restores_program_counter() {
    let (mut cpu, _env) = machine(&[]);
    cpu.program_counter = 0x0123;
    call(&mut cpu, 0x1000);
    assert_eq!(cpu.program_counter, 0x1000);
    assert_eq!(cpu.stack.get_pointer(), 0x23FE);
    ret(&mut cpu);
    assert_eq!(cpu.program_counter, 0x0123);
    assert_eq!(cpu.stack.get_pointer(), 0x2400);
}

#[test]
fn call_then_return_through_program() {
    // 0x0000: CALL 0x0010; 0x0010: RET
    let mut program = vec![0u8; 0x11];
    program[0] = 0xCD;
    program[1] = 0x10;
    program[2] = 0x00;
    program[0x10] = 0xC9;
    let (mut cpu, env) = machine(&program);
    assert_eq!(cpu.step(&env), 17);
    assert_eq!(cpu.program_counter, 0x0010);
    assert_eq!(cpu.step(&env), 11);
    assert_eq!(cpu.program_counter, 0x0003);
    assert_eq!(cpu.stack.get_pointer(), 0x2400);
}

#[test]
fn conditional_transfers_follow_their_flag() {
    // (condition field, flag name, branch when flag set)
    let cases: [(u8, &str, bool); 8] = [
        (0, "zero", false),
        (1, "zero", true),
        (2, "carry", false),
        (3, "carry", true),
        (4, "even", false),
        (5, "even", true),
        (6, "negative", false),
        (7, "negative", true),
    ];
    for (field, flag, when_set) in cases {
        for set in [false, true] {
            let taken = set == when_set;
            for (base, target_pc, not_taken_pc) in [(0xC2u8, 0x0040u16, 3u16), (0xC4, 0x0040, 3)] {
                let (mut cpu, env) = machine(&[base + 8 * field, 0x40, 0x00]);
                match flag {
                    "zero" => cpu.flags.zero = set,
                    "carry" => cpu.flags.carry = set,
                    "even" => cpu.flags.even = set,
                    _ => cpu.flags.negative = set,
                }
                cpu.step(&env);
                let expected = if taken { target_pc } else { not_taken_pc };
                assert_eq!(cpu.program_counter, expected, "opcode {:#04X} flag {}", base + 8 * field, set);
            }
            let (mut cpu, env) = machine(&[0xC0 + 8 * field]);
            emulator::stack::CPUStack::push_address(&mut cpu, 0x0777);
            match flag {
                "zero" => cpu.flags.zero = set,
                "carry" => cpu.flags.carry = set,
                "even" => cpu.flags.even = set,
                _ => cpu.flags.negative = set,
            }
            cpu.step(&env);
            let expected = if taken { 0x0777 } else { 1 };
            assert_eq!(cpu.program_counter, expected);
        }
    }
}

#[test]
fn restart_pushes_and_jumps() {
    let (mut cpu, env) = machine(&[0xD7]);
    assert_eq!(cpu.step(&env), 10);
    assert_eq!(cpu.program_counter, 0x0010);
    assert_eq!(cpu.ram.read(0x23FE), 0x01);
    assert_eq!(cpu.ram.read(0x23FF), 0x00);
}

#[test]
fn shift_register_ports() {
    // OUT 4 (A=0xAB); OUT 4 (A=0xCD); OUT 2 (A=3); IN 3; IN 1; IN 2
    let program = [0xD3, 0x04, 0xD3, 0x04, 0xD3, 0x02, 0xDB, 0x03, 0xDB, 0x01, 0xDB, 0x02];
    let (mut cpu, env) = machine(&program);
    cpu.A = 0xAB;
    cpu.step(&env);
    cpu.A = 0xCD;
    cpu.step(&env);
    assert_eq!(cpu.shift_register, 0xCDAB);
    cpu.A = 0x0B;
    cpu.step(&env);
    assert_eq!(cpu.shift_register_offset, 3);
    cpu.step(&env);
    assert_eq!(cpu.A, ((0xCDABu16 >> 5) & 0xFF) as u8);
    cpu.in1 = 0x11;
    cpu.in2 = 0x22;
    cpu.step(&env);
    assert_eq!(cpu.A, 0x11);
    cpu.step(&env);
    assert_eq!(cpu.A, 0x22);
}

#[test]
fn interrupt_switch_and_jumps() {
    // DI; EI; PCHL; (at 0x2000) SPHL
    let (mut cpu, env) = machine(&[0xF3, 0xFB, 0xE9]);
    cpu.step(&env);
    assert!(!cpu.are_interrupts_enabled);
    cpu.step(&env);
    assert!(cpu.are_interrupts_enabled);
    cpu.write_register(CPURegister::HL, 0x2000);
    cpu.ram.write(0x2000, 0xF9);
    cpu.step(&env);
    assert_eq!(cpu.program_counter, 0x2000);
    cpu.step(&env);
    assert_eq!(cpu.stack.get_pointer(), 0x2000);
    assert_eq!(cpu.stack.min_address, 0x1F01);
}

#[test]
fn interrupts_are_not_nested() {
    let (mut cpu, _env) = machine(&[]);
    cpu.program_counter = 0x0100;
    emulator::interrupts::CPUInterrupts::interrupt(&mut cpu, 1);
    assert_eq!(cpu.program_counter, 0x0008);
    assert!(!cpu.are_interrupts_enabled);
    emulator::interrupts::CPUInterrupts::interrupt(&mut cpu, 2);
    assert_eq!(cpu.program_counter, 0x0008);
    assert_eq!(cpu.stack.get_pointer(), 0x23FE);
}

#[test]
fn table_is_dense_and_matches_encoding() {
    let table = build_opcodes_slice();
    assert_eq!(table.len(), 256);
    for (index, opcode) in table.iter().enumerate() {
        assert_eq!(opcode.key as usize, index);
        assert!(opcode.duration >= 4);
    }
    assert_eq!(decode(0x47).operation, Operation::Mov(CPURegister::A, CPURegister::B));
    assert_eq!(decode(0xFE).operation, Operation::ReadByteThen(ByteOperation::Cpi));
    assert_eq!(
        decode(0xCA).operation,
        Operation::ReadAddressThen(AddressOperation::JmpIf(Condition::Zero))
    );
    assert_eq!(decode(0x76).operation, Operation::Nop);
    assert_eq!(decode(0xE3).duration, 18);
}

#[test]
fn frame_with_tight_loop_raises_first_interrupt_only() {
    let (mut cpu, env) = CPU::new(&[0xC3, 0x00, 0x00]);
    cpu.run_until_next_frame(&env);
    assert_eq!(cpu.program_counter, 0x103F);
    assert!(!cpu.are_interrupts_enabled);
    assert_eq!(cpu.stack.get_pointer(), 0xFFFD);
}

#[test]
fn frame_with_handlers_raises_both_interrupts() {
    // 0x0000: JMP 0x0000; 0x0008: EI, RET; 0x0010: EI, RET
    let mut program = vec![0u8; 0x12];
    program[0] = 0xC3;
    program[0x08] = 0xFB;
    program[0x09] = 0xC9;
    program[0x10] = 0xFB;
    program[0x11] = 0xC9;
    let (mut cpu, env) = CPU::new(&program);
    cpu.run_until_next_frame(&env);
    assert_eq!(cpu.program_counter, 0x0010);
    assert!(!cpu.are_interrupts_enabled);
    assert_eq!(cpu.stack.get_pointer(), 0xFFFD);
    assert_eq!(cpu.ram.read(0xFFFD), 0x00);
    assert_eq!(cpu.ram.read(0xFFFE), 0x00);
    cpu.run_until_next_frame(&env);
    assert_eq!(cpu.program_counter, 0x0010);
}
