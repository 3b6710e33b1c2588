use lc3::{BufferDevice, Lc3};

fn empty_vm() -> Lc3<BufferDevice> {
    Lc3::new(BufferDevice::new(Vec::new()))
}

#[test]
fn loader_round_trip() {
    // Bytes [hi, lo, hi1, lo1, hi2, lo2] with [hi, lo] parsed as origin
    // yield M[origin + k] == hi_{k+1} << 8 | lo_{k+1}.
    let mut vm = empty_vm();
    let mut image: Vec<u8> = vec![0x30, 0x00, 0x12, 0x34, 0xAB, 0xCD];
    vm.load_image(&mut image).unwrap();
    assert_eq!(vm.memory.word_at(0x3000), 0x1234);
    assert_eq!(vm.memory.word_at(0x3001), 0xABCD);
    assert_eq!(vm.memory.word_at(0x2FFF), 0);
    assert_eq!(vm.memory.word_at(0x3002), 0);
}

#[test]
fn loader_trailing_odd_byte_is_ignored() {
    let mut vm = empty_vm();
    let mut image: Vec<u8> = vec![0x40, 0x00, 0x00, 0x48, 0x99];
    vm.load_image(&mut image).unwrap();
    assert_eq!(vm.memory.word_at(0x4000), 0x0048);
    assert_eq!(vm.memory.word_at(0x4001), 0);
}

#[test]
fn loader_empty_and_origin_only_images() {
    let mut vm = empty_vm();
    let mut empty: Vec<u8> = Vec::new();
    vm.load_image(&mut empty).unwrap();
    assert_eq!(vm.memory.word_at(0x0000), 0);
    let mut origin_only: Vec<u8> = vec![0x30, 0x00];
    vm.load_image(&mut origin_only).unwrap();
    assert_eq!(vm.memory.word_at(0x3000), 0);
}

#[test]
fn loader_stops_at_end_of_memory() {
    let mut vm = empty_vm();
    // Origin 0xFFFF leaves room for exactly one word.
    let mut image: Vec<u8> = vec![0xFF, 0xFF, 0x12, 0x34, 0x56, 0x78];
    vm.load_image(&mut image).unwrap();
    assert_eq!(vm.memory.word_at(0xFFFF), 0x1234);
    assert_eq!(vm.memory.word_at(0x0000), 0);
}

#[test]
fn loader_overlapping_images_overwrite() {
    let mut vm = empty_vm();
    let mut first: Vec<u8> = vec![0x30, 0x00, 0x11, 0x11, 0x22, 0x22];
    vm.load_image(&mut first).unwrap();
    let mut second: Vec<u8> = vec![0x30, 0x01, 0x33, 0x33];
    vm.load_image(&mut second).unwrap();
    assert_eq!(vm.memory.word_at(0x3000), 0x1111);
    assert_eq!(vm.memory.word_at(0x3001), 0x3333);
}
