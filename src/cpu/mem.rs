//! The memory of the Z80: a flat array of bytes.
use vstd::prelude::*;

verus! {

/// The number of bytes of memory: 16 kibibytes.
pub const MEMORY_SIZE: usize = 16384;

/// The memory, addressed from zero.
pub struct Memory {
    pub memory: Vec<u8>,
}

impl Memory {
    /// Memory of `MEMORY_SIZE` bytes, all zero.
    pub fn new() -> (m: Memory)
        ensures
            m.memory@ == Seq::new(MEMORY_SIZE as nat, |i: int| 0u8),
    {
        let memory = vec![0u8; MEMORY_SIZE];
        proof {
            assert(memory@ =~= Seq::new(MEMORY_SIZE as nat, |i: int| 0u8));
        }
        Memory { memory }
    }
}

impl Default for Memory {
    fn default() -> (m: Memory)
        ensures
            m.memory@ == Seq::new(MEMORY_SIZE as nat, |i: int| 0u8),
    {
        Memory::new()
    }
}

} // verus!
