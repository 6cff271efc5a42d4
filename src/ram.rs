use vstd::prelude::*;

verus! {

/// Address of the interrupt-enable register.
pub const INTERRUPT_ENABLE_ADDRESS: u16 = 0xFFFF;

/// Address of the interrupt-flags (request) register.
pub const INTERRUPT_FLAGS_ADDRESS: u16 = 0xFF0F;

/// Number of addressable bytes: the whole 16-bit address space.
pub const MEMORY_SIZE: usize = 0x10000;

/// Flat 64 KiB memory, addressed 0x0000 through 0xFFFF.
pub struct RAM {
    memory: Vec<u8>,
}

impl RAM {
    /// The memory's contents, one byte per address.
    pub closed spec fn bytes(&self) -> Seq<u8> {
        self.memory@
    }

    /// Every address has its byte.
    pub open spec fn wf(&self) -> bool {
        self.bytes().len() == MEMORY_SIZE
    }

    pub fn new() -> (r: Self)
        ensures
            r.wf(),
            r.bytes() == Seq::new(MEMORY_SIZE as nat, |i: int| 0u8),
    {
        let r = RAM { memory: vec![0u8; MEMORY_SIZE] };
        assert(r.memory@ =~= Seq::new(MEMORY_SIZE as nat, |i: int| 0u8));
        r
    }

    pub fn read(&self, address: u16) -> (r: u8)
        requires
            self.wf(),
        ensures
            r == self.bytes()[address as int],
    {
        self.memory[address as usize]
    }

    pub fn write(&mut self, address: u16, value: u8)
        requires
            old(self).wf(),
        ensures
            final(self).wf(),
            final(self).bytes() == old(self).bytes().update(address as int, value),
    {
        self.memory.set(address as usize, value);
    }
}

} // verus!
