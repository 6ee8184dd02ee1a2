use emulator::address_from_high_low;
use emulator::cpu::CPU;
use emulator::opcodes::{pop, push};
use emulator::registers::CPURegister;
use emulator::stack::CPUStack;

#[test]
fn pair_from_bytes() {
    assert_eq!(address_from_high_low(0x12, 0x34), 0x1234);
    assert_eq!(address_from_high_low(0xFF, 0x00), 0xFF00);
}

#[test]
fn stack_returns_256_bytes_in_reverse_order() {
    for pointer in [0x2400u16, 0x0000, 0x00FF, 0x0100, 0xFFFF, 0x8000] {
        let (mut cpu, _env) = CPU::new(&[]);
        cpu.stack.set_pointer(pointer);
        for i in 0..256u32 {
            CPUStack::push_byte(&mut cpu, i as u8);
        }
        for i in (0..256u32).rev() {
            assert_eq!(CPUStack::pop_byte(&mut cpu), i as u8);
        }
        assert_eq!(cpu.stack.get_pointer(), pointer);
    }
}

#[test]
fn stack_257th_push_overwrites_first() {
    let (mut cpu, _env) = CPU::new(&[]);
    cpu.stack.set_pointer(0x2400);
    for i in 0..256u32 {
        CPUStack::push_byte(&mut cpu, i as u8);
    }
    CPUStack::push_byte(&mut cpu, 0xEE);
    assert_eq!(cpu.stack.get_pointer(), 0x23FF);
    assert_eq!(cpu.ram.read(0x23FF), 0xEE);
}

#[test]
fn stack_push_address_byte_order() {
    let (mut cpu, _env) = CPU::new(&[]);
    cpu.stack.set_pointer(0x2400);
    CPUStack::push_address(&mut cpu, 0xABCD);
    assert_eq!(cpu.ram.read(0x23FF), 0xAB);
    assert_eq!(cpu.ram.read(0x23FE), 0xCD);
    assert_eq!(cpu.stack.get_pointer(), 0x23FE);
    assert_eq!(CPUStack::pop_address(&mut cpu), 0xABCD);
    assert_eq!(cpu.stack.get_pointer(), 0x2400);
}

#[test]
fn stack_initial_window_is_whole_memory() {
    let (mut cpu, _env) = CPU::new(&[]);
    assert_eq!(cpu.stack.get_pointer(), 0xFFFF);
    CPUStack::push_byte(&mut cpu, 1);
    assert_eq!(cpu.stack.get_pointer(), 0xFFFE);
    assert_eq!(CPUStack::pop_byte(&mut cpu), 1);
    assert_eq!(CPUStack::pop_byte(&mut cpu), 0);
    assert_eq!(cpu.stack.get_pointer(), 0x0000);
}

#[test]
fn registers_pairs_split_high_low() {
    let (mut cpu, _env) = CPU::new(&[]);
    cpu.write_register(CPURegister::BC, 0x1234);
    assert_eq!(cpu.read_register(CPURegister::B), 0x12);
    assert_eq!(cpu.read_register(CPURegister::C), 0x34);
    cpu.write_register(CPURegister::D, 0xAB);
    cpu.write_register(CPURegister::E, 0xCD);
    assert_eq!(cpu.read_register(CPURegister::DE), 0xABCD);
    cpu.write_register(CPURegister::A, 0x1FF);
    assert_eq!(cpu.read_register(CPURegister::A), 0xFF);
    cpu.write_register(CPURegister::PSW, 0x42D7);
    assert_eq!(cpu.read_register(CPURegister::A), 0x42);
    assert_eq!(cpu.read_register(CPURegister::PSW), 0x42D7);
    assert!(cpu.flags.negative && cpu.flags.zero && cpu.flags.carry && cpu.flags.aux_carry);
}

#[test]
fn registers_ram_through_hl() {
    let (mut cpu, _env) = CPU::new(&[]);
    cpu.write_register(CPURegister::HL, 0x2001);
    cpu.write_register(CPURegister::RAM, 0x15A);
    assert_eq!(cpu.ram.read(0x2001), 0x5A);
    assert_eq!(cpu.read_register(CPURegister::RAM), 0x5A);
}

#[test]
fn registers_stack_pointer_sets_window() {
    let (mut cpu, _env) = CPU::new(&[]);
    cpu.write_register(CPURegister::StackPointer, 0x2400);
    assert_eq!(cpu.stack.max_address, 0x2400);
    assert_eq!(cpu.stack.min_address, 0x2301);
    assert_eq!(cpu.read_register(CPURegister::StackPointer), 0x2400);
    cpu.write_register(CPURegister::ProgramCounter, 0x0102);
    assert_eq!(cpu.program_counter, 0x0102);
}

#[test]
fn push_then_pop_restores_every_pair() {
    for pair in [CPURegister::BC, CPURegister::DE, CPURegister::HL, CPURegister::PSW] {
        let (mut cpu, _env) = CPU::new(&[]);
        cpu.write_register(CPURegister::StackPointer, 0x2400);
        cpu.write_register(pair, 0xA5C3);
        let before = cpu.read_register(pair);
        push(&mut cpu, pair);
        assert_eq!(cpu.stack.get_pointer(), 0x23FE);
        cpu.write_register(pair, 0x0000);
        pop(&mut cpu, pair);
        assert_eq!(cpu.read_register(pair), before);
        assert_eq!(cpu.stack.get_pointer(), 0x2400);
    }
}
