//! The storage components of the machine.

mod addressable_storage;
mod memory;
mod register;

pub use self::addressable_storage::{zero_padded, AddressableStorage};
pub use self::memory::Memory;
pub use self::register::Register;
