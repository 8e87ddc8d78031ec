use vstd::prelude::*;
use crate::components::{zero_padded, AddressableStorage};

verus! {

/// The register file: sixteen general-purpose registers `V0` to `VF`, the
/// index register and the two timers. `VF` doubles as the flag register.
#[derive(Debug)]
pub struct Register {
    pub delay: u8,
    pub i: u16,
    pub sound: u8,
    pub values: [u8; 16],
}

impl Register {
    /// A register file with every register and timer zero.
    pub fn new() -> (register: Register)
        ensures
            register.delay == 0,
            register.i == 0,
            register.sound == 0,
            register.values@ == zero_padded(Seq::empty(), 16),
    {
        let register = Register { delay: 0, i: 0, sound: 0, values: [0u8; 16] };
        assert(register.values@ =~= zero_padded(Seq::empty(), 16));
        register
    }

    /// A register file whose general-purpose registers start with `values`
    /// and are zero after them. Bytes of `values` beyond the sixteenth are
    /// dropped. The index register and the timers are zero.
    pub fn with_values(values: &[u8]) -> (register: Register)
        ensures
            register.delay == 0,
            register.i == 0,
            register.sound == 0,
            register.values@ == zero_padded(values@, 16),
    {
        let mut vals = [0u8; 16];
        let mut i: usize = 0;
        while i < values.len() && i < 16
            invariant
                i <= 16,
                i <= values.len(),
                forall|j: int| 0 <= j < i ==> vals@[j] == values@[j],
                forall|j: int| i <= j < 16 ==> vals@[j] == 0u8,
            decreases 16 - i,
        {
            vals[i] = values[i];
            i += 1;
        }
        assert(vals@ =~= zero_padded(values@, 16));
        Register { delay: 0, i: 0, sound: 0, values: vals }
    }
}

impl AddressableStorage for Register {
    open spec fn cells(&self) -> Seq<u8> {
        self.values@
    }

    fn set(&mut self, key: usize, value: u8)
        ensures
            final(self).delay == old(self).delay,
            final(self).i == old(self).i,
            final(self).sound == old(self).sound,
    {
        self.values[key] = value;
    }

    fn get(&self, key: usize) -> (value: u8) {
        self.values[key]
    }
}

} // verus!
