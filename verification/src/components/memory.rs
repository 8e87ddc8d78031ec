use vstd::prelude::*;
use crate::components::{zero_padded, AddressableStorage};

verus! {

/// The machine's main memory: 4096 bytes behind a 12-bit address.
pub struct Memory {
    pub values: [u8; 4096],
}

impl Memory {
    /// A memory with every byte zero.
    pub fn new() -> (memory: Memory)
        ensures
            memory.values@ == zero_padded(Seq::empty(), 4096),
    {
        let memory = Memory { values: [0u8; 4096] };
        assert(memory.values@ =~= zero_padded(Seq::empty(), 4096));
        memory
    }

    /// A memory that starts with `values` and is zero after them. Bytes of
    /// `values` beyond the memory's size are dropped.
    pub fn with_values(values: &[u8]) -> (memory: Memory)
        ensures
            memory.values@ == zero_padded(values@, 4096),
    {
        let mut vals = [0u8; 4096];
        let mut i: usize = 0;
        while i < values.len() && i < 4096
            invariant
                i <= 4096,
                i <= values.len(),
                forall|j: int| 0 <= j < i ==> vals@[j] == values@[j],
                forall|j: int| i <= j < 4096 ==> vals@[j] == 0u8,
            decreases 4096 - i,
        {
            vals[i] = values[i];
            i += 1;
        }
        assert(vals@ =~= zero_padded(values@, 4096));
        Memory { values: vals }
    }
}

impl AddressableStorage for Memory {
    open spec fn cells(&self) -> Seq<u8> {
        self.values@
    }

    fn set(&mut self, key: usize, value: u8) {
        self.values[key] = value;
    }

    fn get(&self, key: usize) -> (value: u8) {
        self.values[key]
    }
}

} // verus!
