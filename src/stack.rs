use vstd::prelude::*;

use crate::address_from_high_low;
use crate::pair_value;
use crate::cpu::{CPU, CpuState, wrap16, low_byte, high_byte};
use crate::ram::{cell, stored};

verus! {

/// The stack pointer and the window of 256 addresses it circles in. The window ends at
/// the address last given to `set_pointer`; pushing below it wraps to its top and
/// popping above it wraps to its bottom.
#[derive(Clone, Copy, Debug)]
pub struct CPUStack {
    pub pointer: u16,
    pub max_address: u16,
    pub min_address: u16,
}

impl CPUStack {
    /// The stack of a freshly built machine: its window is the whole memory.
    pub open spec fn initial() -> CPUStack {
        CPUStack { pointer: 0xFFFF, max_address: 0xFFFF, min_address: 0 }
    }

    /// How far below the top of the window `address` lies, counted modulo 2^16.
    pub open spec fn depth(self, address: u16) -> int {
        (self.max_address - address) % 0x10000
    }

    /// The pointer lies inside the window, which holds at least two addresses.
    pub open spec fn wf(self) -> bool {
        &&& self.depth(self.pointer) <= self.depth(self.min_address)
        &&& self.depth(self.min_address) >= 1
    }

    /// The stack after `set_pointer(pointer)`.
    pub open spec fn with_pointer(self, pointer: u16) -> CPUStack {
        CPUStack { pointer, max_address: pointer, min_address: wrap16(pointer - 0xFF) }
    }

    /// The stack after the pointer moves down for a push.
    pub open spec fn after_push(self) -> CPUStack {
        CPUStack {
            pointer: if self.pointer == self.min_address {
                self.max_address
            } else {
                wrap16(self.pointer - 1)
            },
            ..self
        }
    }

    /// The stack after the pointer moves up for a pop.
    pub open spec fn after_pop(self) -> CPUStack {
        CPUStack {
            pointer: if self.pointer == self.max_address {
                self.min_address
            } else {
                wrap16(self.pointer + 1)
            },
            ..self
        }
    }

    pub fn new() -> (r: CPUStack)
        ensures
            r == CPUStack::initial(),
    {
        CPUStack { pointer: 0xFFFF, max_address: 0xFFFF, min_address: 0x0000 }
    }

    pub fn get_pointer(&self) -> (r: u16)
        ensures
            r == self.pointer,
    {
        self.pointer
    }

    /// Moves the pointer to `pointer` and makes the window the 256 addresses ending there.
    pub fn set_pointer(&mut self, pointer: u16)
        ensures
            *final(self) == old(self).with_pointer(pointer),
            final(self).wf(),
    {
        proof {
            lemma_new_window(*self, pointer);
        }
        self.pointer = pointer;
        self.max_address = pointer;
        self.min_address = pointer.wrapping_sub(0xFF);
    }

    pub fn push_byte(cpu: &mut CPU, value: u8)
        requires
            old(cpu).wf(),
        ensures
            final(cpu).wf(),
            final(cpu)@ == push_byte_spec(old(cpu)@, value),
    {
        proof {
            lemma_push_keeps_window(cpu.stack);
        }
        if cpu.stack.pointer == cpu.stack.min_address {
            cpu.stack.pointer = cpu.stack.max_address;
        } else {
            cpu.stack.pointer = cpu.stack.pointer.wrapping_sub(1);
        }
        cpu.ram.write(cpu.stack.pointer, value);
    }

    pub fn pop_byte(cpu: &mut CPU) -> (r: u8)
        requires
            old(cpu).wf(),
        ensures
            final(cpu).wf(),
            (final(cpu)@, r) == pop_byte_spec(old(cpu)@),
    {
        proof {
            lemma_pop_keeps_window(cpu.stack);
        }
        let value = cpu.ram.read(cpu.stack.pointer);
        if cpu.stack.pointer == cpu.stack.max_address {
            cpu.stack.pointer = cpu.stack.min_address;
        } else {
            cpu.stack.pointer = cpu.stack.pointer.wrapping_add(1);
        }
        value
    }

    /// Pushes the high byte, then the low byte.
    pub fn push_address(cpu: &mut CPU, address: u16)
        requires
            old(cpu).wf(),
        ensures
            final(cpu).wf(),
            final(cpu)@ == push_address_spec(old(cpu)@, address),
    {
        CPUStack::push_byte(cpu, (address / 256) as u8);
        CPUStack::push_byte(cpu, (address % 256) as u8);
    }

    /// Pops the low byte, then the high byte.
    pub fn pop_address(cpu: &mut CPU) -> (r: u16)
        requires
            old(cpu).wf(),
        ensures
            final(cpu).wf(),
            (final(cpu)@, r) == pop_address_spec(old(cpu)@),
    {
        let low = CPUStack::pop_byte(cpu);
        let high = CPUStack::pop_byte(cpu);
        address_from_high_low(high, low)
    }
}

/// The state after pushing `value`: the pointer moves down, then the byte is stored there.
pub open spec fn push_byte_spec(s: CpuState, value: u8) -> CpuState {
    let stack = s.stack.after_push();
    CpuState { stack, ..s }.with_byte(stack.pointer, value)
}

/// The state after popping, and the byte popped: the byte is read, then the pointer moves up.
pub open spec fn pop_byte_spec(s: CpuState) -> (CpuState, u8) {
    (CpuState { stack: s.stack.after_pop(), ..s }, s.byte_at(s.stack.pointer))
}

pub open spec fn push_address_spec(s: CpuState, address: u16) -> CpuState {
    push_byte_spec(push_byte_spec(s, high_byte(address)), low_byte(address))
}

pub open spec fn pop_address_spec(s: CpuState) -> (CpuState, u16) {
    let (s1, low) = pop_byte_spec(s);
    let (s2, high) = pop_byte_spec(s1);
    (s2, pair_value(high, low))
}

pub proof fn lemma_push_keeps_window(stack: CPUStack)
    requires
        stack.wf(),
    ensures
        stack.after_push().wf(),
        stack.after_pop().wf(),
        stack.after_pop().after_push() == stack,
        stack.after_push().after_pop() == stack,
{
}

pub proof fn lemma_new_window(stack: CPUStack, pointer: u16)
    ensures
        stack.with_pointer(pointer).wf(),
        stack.with_pointer(pointer).depth(stack.with_pointer(pointer).min_address) == 0xFF,
{
}

pub proof fn lemma_pop_keeps_window(stack: CPUStack)
    requires
        stack.wf(),
    ensures
        stack.after_pop().wf(),
{
    lemma_push_keeps_window(stack);
}

} // verus!

verus! {

/// The state after pushing `values`, first to last.
pub open spec fn push_all(s: CpuState, values: Seq<u8>) -> CpuState
    decreases values.len(),
{
    if values.len() == 0 {
        s
    } else {
        push_byte_spec(push_all(s, values.drop_last()), values.last())
    }
}

/// The state after popping `count` bytes, and the bytes in the order they came off.
pub open spec fn pop_all(s: CpuState, count: nat) -> (CpuState, Seq<u8>)
    decreases count,
{
    if count == 0 {
        (s, Seq::empty())
    } else {
        let (s1, value) = pop_byte_spec(s);
        let (s2, rest) = pop_all(s1, (count - 1) as nat);
        (s2, seq![value] + rest)
    }
}

/// The address `depth` places below `top`, modulo 2^16.
pub open spec fn below(top: u16, depth: int) -> u16 {
    wrap16(top - depth)
}

/// A window set by `set_pointer(top)` with the pointer `depth` places below its top.
pub open spec fn window_at(stack: CPUStack, top: u16, depth: int) -> bool {
    &&& 0 <= depth < 256
    &&& stack.max_address == top
    &&& stack.min_address == wrap16(top - 0xFF)
    &&& stack.pointer == below(top, depth)
}

proof fn lemma_window_moves(stack: CPUStack, top: u16, depth: int)
    requires
        window_at(stack, top, depth),
    ensures
        window_at(stack.after_push(), top, (depth + 1) % 256),
        window_at(stack.after_pop(), top, (depth - 1) % 256),
{
}

proof fn lemma_below_distinct(top: u16, d1: int, d2: int)
    requires
        0 <= d1 < 256,
        0 <= d2 < 256,
        d1 != d2,
    ensures
        below(top, d1) != below(top, d2),
{
}

/// Pushing the first `k` values from the top of a fresh window leaves the pointer `k`
/// places down (modulo the window) and value `j` at depth `j + 1`.
proof fn lemma_push_prefix(s0: CpuState, top: u16, values: Seq<u8>, k: int)
    requires
        s0.memory.len() == crate::ram::RAM_SIZE,
        window_at(s0.stack, top, 0),
        0 <= k <= values.len() <= 256,
    ensures
        ({
            let t = push_all(s0, values.take(k));
            &&& t.memory.len() == crate::ram::RAM_SIZE
            &&& window_at(t.stack, top, k % 256)
            &&& forall|j: int|
                0 <= j < k ==> #[trigger] t.byte_at(below(top, (j + 1) % 256)) == values[j]
        }),
    decreases k,
{
    if k > 0 {
        lemma_push_prefix(s0, top, values, k - 1);
        let t = push_all(s0, values.take(k - 1));
        assert(values.take(k).drop_last() =~= values.take(k - 1));
        lemma_window_moves(t.stack, top, (k - 1) % 256);
        lemma_step_forward(k);
        let u = push_all(s0, values.take(k));
        assert(u == push_byte_spec(t, values[k - 1]));
        let written = t.stack.after_push().pointer;
        assert(written == below(top, k % 256));
        assert(u.memory == stored(t.memory, written, values[k - 1]));
        assert forall|j: int| 0 <= j < k implies #[trigger] u.byte_at(below(top, (j + 1) % 256))
            == values[j] by {
            let address = below(top, (j + 1) % 256);
            lemma_stored_cell(t.memory, written, values[k - 1], address);
            if j < k - 1 {
                assert(t.byte_at(address) == values[j]);
                lemma_below_distinct(top, (j + 1) % 256, k % 256);
            }
        }
    }
}

proof fn lemma_step_forward(k: int)
    requires
        0 < k,
    ensures
        ((k - 1) % 256 + 1) % 256 == k % 256,
{
}

proof fn lemma_stored_cell(memory: Seq<u8>, address: u16, value: u8, other: u16)
    requires
        memory.len() == crate::ram::RAM_SIZE,
    ensures
        cell(stored(memory, address, value), other) == if other == address {
            value
        } else {
            cell(memory, other)
        },
        stored(memory, address, value).len() == crate::ram::RAM_SIZE,
{
}

proof fn lemma_step_back(depth: int, i: int)
    requires
        0 <= depth < 256,
        0 < i,
    ensures
        ((depth - 1) % 256 - (i - 1)) % 256 == (depth - i) % 256,
        ((depth - 1) % 256 - (i - 1) as nat) % 256 == (depth - i) % 256,
{
}

/// Popping `n` bytes from depth `depth` reads the bytes at depths `depth`, `depth - 1`,
/// ... (modulo the window) and leaves memory alone.
#[verifier::spinoff_prover]
proof fn lemma_pop_run(u: CpuState, top: u16, depth: int, n: nat)
    requires
        window_at(u.stack, top, depth),
    ensures
        ({
            let (v, popped) = pop_all(u, n);
            &&& popped.len() == n
            &&& v.memory == u.memory
            &&& window_at(v.stack, top, (depth - n) % 256)
            &&& forall|i: int|
                0 <= i < n ==> #[trigger] popped[i] == u.byte_at(below(top, (depth - i) % 256))
        }),
    decreases n,
{
    if n > 0 {
        lemma_window_moves(u.stack, top, depth);
        lemma_step_back(depth, n as int);
        let u1 = pop_byte_spec(u).0;
        let value = pop_byte_spec(u).1;
        lemma_pop_run(u1, top, (depth - 1) % 256, (n - 1) as nat);
        let popped = pop_all(u, n).1;
        let rest = pop_all(u1, (n - 1) as nat).1;
        assert(pop_all(u, n).0 == pop_all(u1, (n - 1) as nat).0);
        assert(popped == seq![value] + rest);
        assert(u1.memory == u.memory);
        assert forall|i: int| 0 <= i < n implies #[trigger] popped[i] == u.byte_at(
            below(top, (depth - i) % 256),
        ) by {
            if i > 0 {
                assert(popped[i] == rest[i - 1]);
                lemma_step_back(depth, i);
            }
        }
    }
}

/// After `set_pointer(pointer)`, pushing 256 bytes and popping 256 gives them back in
/// reverse order and leaves the stack as `set_pointer` made it; a 257th push goes where
/// the first one went.
pub proof fn lemma_stack_lifo(s: CpuState, pointer: u16, values: Seq<u8>)
    requires
        s.memory.len() == crate::ram::RAM_SIZE,
        values.len() == 256,
    ensures
        ({
            let s0 = CpuState { stack: s.stack.with_pointer(pointer), ..s };
            let pushed = push_all(s0, values);
            &&& pop_all(pushed, 256).1 == values.reverse()
            &&& pop_all(pushed, 256).0.stack == s0.stack
            &&& pushed.stack.after_push().pointer == s0.stack.after_push().pointer
        }),
{
    let s0 = CpuState { stack: s.stack.with_pointer(pointer), ..s };
    assert(window_at(s0.stack, pointer, 0));
    lemma_push_prefix(s0, pointer, values, 256);
    assert(values.take(256) =~= values);
    let pushed = push_all(s0, values);
    lemma_pop_run(pushed, pointer, 0, 256);
    let popped = pop_all(pushed, 256).1;
    assert forall|i: int| 0 <= i < 256 implies #[trigger] popped[i] == values.reverse()[i] by {
        let j = 255 - i;
        assert((j + 1) % 256 == (0 - i) % 256);
        assert(pushed.byte_at(below(pointer, (j + 1) % 256)) == values[j]);
    }
    assert(popped =~= values.reverse());
    lemma_window_moves(pushed.stack, pointer, 0);
    lemma_window_moves(s0.stack, pointer, 0);
}

} // verus!
