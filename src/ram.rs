use vstd::prelude::*;

verus! {

/// Number of addressable bytes.
pub const RAM_SIZE: usize = 0x10000;

/// The byte that `address` names, wrapping modulo the memory size.
pub open spec fn cell(memory: Seq<u8>, address: u16) -> u8 {
    memory[address as int % RAM_SIZE as int]
}

/// `memory` with the byte at `address` (wrapped modulo the memory size) replaced by `value`.
pub open spec fn stored(memory: Seq<u8>, address: u16, value: u8) -> Seq<u8> {
    memory.update(address as int % RAM_SIZE as int, value)
}

/// Memory that holds `rom` from address 0 on and zero after it; bytes of `rom` that do not
/// fit are left out.
pub open spec fn image_of(rom: Seq<u8>) -> Seq<u8> {
    Seq::new(RAM_SIZE as nat, |i: int| if i < rom.len() { rom[i] } else { 0u8 })
}

/// The flat 64 KiB memory of the machine.
pub struct RAM {
    data: Vec<u8>,
}

impl View for RAM {
    type V = Seq<u8>;

    closed spec fn view(&self) -> Seq<u8> {
        self.data@
    }
}

impl RAM {
    pub open spec fn wf(&self) -> bool {
        self@.len() == RAM_SIZE
    }

    /// Memory holding `rom_bytes` from address 0 on, zero-filled after them.
    pub fn new(rom_bytes: &[u8]) -> (r: RAM)
        ensures
            r.wf(),
            r@ == image_of(rom_bytes@),
    {
        let mut data: Vec<u8> = Vec::new();
        let mut i: usize = 0;
        while i < RAM_SIZE
            invariant
                i <= RAM_SIZE,
                data@.len() == i,
                forall|j: int| 0 <= j < i ==> data@[j] == image_of(rom_bytes@)[j],
            decreases RAM_SIZE - i,
        {
            if i < rom_bytes.len() {
                data.push(rom_bytes[i]);
            } else {
                data.push(0);
            }
            i = i + 1;
        }
        assert(data@ =~= image_of(rom_bytes@));
        RAM { data }
    }

    pub fn read(&self, address: u16) -> (r: u8)
        requires
            self.wf(),
        ensures
            r == cell(self@, address),
    {
        self.data[(address as usize) % RAM_SIZE]
    }

    pub fn write(&mut self, address: u16, value: u8)
        requires
            old(self).wf(),
        ensures
            final(self).wf(),
            final(self)@ == stored(old(self)@, address, value),
    {
        let index = (address as usize) % RAM_SIZE;
        self.data.set(index, value);
    }
}

/// Reading an address just written gives back the value written, and every other
/// address keeps its byte.
pub proof fn lemma_memory_round_trip(memory: Seq<u8>, address: u16, value: u8, other: u16)
    requires
        memory.len() == RAM_SIZE,
    ensures
        cell(stored(memory, address, value), address) == value,
        other != address ==> cell(stored(memory, address, value), other) == cell(memory, other),
        cell(memory, address) == memory[address as int],
{
}

} // verus!
