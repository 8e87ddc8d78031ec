use chip_8::components::{AddressableStorage, Memory, Register};
use chip_8::Chip;

#[test]
fn new_memory_is_zeroed() {
    let memory = Memory::new();
    assert_eq!(memory.values.len(), 4096);
    assert!(memory.values.iter().all(|byte| *byte == 0));
}

#[test]
fn memory_with_values_pads_with_zeros() {
    let memory = Memory::with_values(&[1, 2, 3]);
    assert_eq!(memory.get(0), 1);
    assert_eq!(memory.get(1), 2);
    assert_eq!(memory.get(2), 3);
    assert_eq!(memory.get(3), 0);
    assert_eq!(memory.get(4095), 0);
}

#[test]
fn memory_with_values_drops_what_does_not_fit() {
    let long = vec![7u8; 5000];
    let memory = Memory::with_values(&long);
    assert!(memory.values.iter().all(|byte| *byte == 7));
    let empty = Memory::with_values(&[]);
    assert!(empty.values.iter().all(|byte| *byte == 0));
}

#[test]
fn memory_set_changes_one_byte() {
    let mut memory = Memory::with_values(&[1, 2, 3]);
    memory.set(0x200, 0xAB);
    assert_eq!(memory.get(0x200), 0xAB);
    assert_eq!(memory.get(0x1FF), 0);
    assert_eq!(memory.get(0x201), 0);
    assert_eq!(memory.get(1), 2);
    memory.set(4095, 9);
    assert_eq!(memory.get(4095), 9);
}

#[test]
fn new_register_file_is_zeroed() {
    let register = Register::new();
    assert_eq!(register.values, [0u8; 16]);
    assert_eq!(register.delay, 0);
    assert_eq!(register.sound, 0);
    assert_eq!(register.i, 0);
}

#[test]
fn register_with_values_pads_with_zeros() {
    let register = Register::with_values(&[10, 15]);
    assert_eq!(register.values, [10, 15, 0, 0, 0, 0, 0, 0, 0, 0, 0, 0, 0, 0, 0, 0]);
    assert_eq!(register.delay, 0);
    assert_eq!(register.sound, 0);
    assert_eq!(register.i, 0);
}

#[test]
fn register_with_values_drops_what_does_not_fit() {
    let values: Vec<u8> = (1..=20).collect();
    let register = Register::with_values(&values);
    assert_eq!(register.values, [1, 2, 3, 4, 5, 6, 7, 8, 9, 10, 11, 12, 13, 14, 15, 16]);
    let full = Register::with_values(&values[..16]);
    assert_eq!(full.values, register.values);
}

#[test]
fn register_set_changes_one_register() {
    let mut register = Register::with_values(&[1, 2, 3]);
    register.delay = 4;
    register.sound = 5;
    register.i = 6;
    register.set(0xF, 0xAB);
    register.set(1, 0xCD);
    assert_eq!(register.values, [1, 0xCD, 3, 0, 0, 0, 0, 0, 0, 0, 0, 0, 0, 0, 0, 0xAB]);
    assert_eq!(register.get(0xF), 0xAB);
    assert_eq!((register.delay, register.sound, register.i), (4, 5, 6));
}

#[test]
fn new_chip_is_zeroed() {
    let chip = Chip::new();
    assert_eq!(chip.register.values, [0u8; 16]);
    assert_eq!((chip.register.delay, chip.register.sound, chip.register.i), (0, 0, 0));
    assert!(chip.memory.values.iter().all(|byte| *byte == 0));
    assert_eq!(chip.program_counter, 0);
    assert!(chip.stack.is_empty());
}

#[test]
fn chip_with_register_values_seeds_only_the_registers() {
    let chip = Chip::with_register_values(&[9, 8, 7]);
    assert_eq!(chip.register.values, [9, 8, 7, 0, 0, 0, 0, 0, 0, 0, 0, 0, 0, 0, 0, 0]);
    assert_eq!((chip.register.delay, chip.register.sound, chip.register.i), (0, 0, 0));
    assert!(chip.memory.values.iter().all(|byte| *byte == 0));
    assert_eq!(chip.program_counter, 0);
    assert!(chip.stack.is_empty());
}
