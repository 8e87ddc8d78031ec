use vstd::prelude::*;

verus! {

/// The first `size` bytes of `values`, with zeros after them where `values`
/// is shorter than `size`.
pub open spec fn zero_padded(values: Seq<u8>, size: nat) -> Seq<u8> {
    Seq::new(size, |i: int| if i < values.len() { values[i] } else { 0u8 })
}

/// A bank of bytes that is read and written one cell at a time.
pub trait AddressableStorage {
    /// The cells of the bank, in address order.
    spec fn cells(&self) -> Seq<u8>;

    /// Writes `value` into the cell at `key` and leaves every other cell as it was.
    fn set(&mut self, key: usize, value: u8)
        requires
            key < old(self).cells().len(),
        ensures
            final(self).cells() == old(self).cells().update(key as int, value),
    ;

    /// Reads the cell at `key`.
    fn get(&self, key: usize) -> (value: u8)
        requires
            key < self.cells().len(),
        ensures
            value == self.cells()[key as int],
    ;
}

} // verus!
