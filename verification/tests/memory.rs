use lc3::{BufferDevice, IoDeviceRegister, Memory};

fn empty_memory() -> Memory<BufferDevice> {
    Memory::new(BufferDevice::new(Vec::new()))
}

#[test]
fn ram_write_then_read_round_trips() {
    let mut m = empty_memory();
    m.write(0x1234, 0xBEEF);
    assert_eq!(m.read(0x1234), 0xBEEF);
    m.write(0x0000, 7);
    assert_eq!(m.read(0x0000), 7);
    m.write(0xFDFF, 0xFFFF);
    assert_eq!(m.read(0xFDFF), 0xFFFF);
}

#[test]
fn mcr_write_then_read_round_trips() {
    let mut m = empty_memory();
    m.write(0xFFFE, 0x8000);
    assert_eq!(m.read(0xFFFE), 0x8000);
    m.write(0xFFFE, 0);
    assert_eq!(m.read(0xFFFE), 0);
}

#[test]
fn kbsr_reports_readiness() {
    let mut m = Memory::new(BufferDevice::new(vec![b'Q']));
    assert_eq!(m.read(0xFE00), 0x8000);
    let mut empty = empty_memory();
    assert_eq!(empty.read(0xFE00), 0x0000);
}

#[test]
fn kbdr_read_consumes_input() {
    // Preload input with 'Q': KBSR reads ready, KBDR yields 0x0051, and a
    // second KBSR read (no further input) yields 0.
    let mut m = Memory::new(BufferDevice::new(vec![b'Q']));
    assert_eq!(m.read(0xFE00), 0x8000);
    assert_eq!(m.read(0xFE02), 0x0051);
    assert_eq!(m.read(0xFE00), 0x0000);
    assert_eq!(m.read(0xFE02), 0x0000);
}

#[test]
fn dsr_always_ready_ddr_reads_zero() {
    let mut m = empty_memory();
    assert_eq!(m.read(0xFE04), 0x8000);
    assert_eq!(m.read(0xFE06), 0x0000);
}

#[test]
fn ddr_write_goes_to_device_not_memory() {
    let mut m = empty_memory();
    m.write(0xFE06, 0x1241);
    assert_eq!(m.io.output_bytes().as_slice(), b"A");
    assert_eq!(m.read(0xFE06), 0);
    assert_eq!(m.word_at(0xFE06), 0);
}

#[test]
fn writes_to_read_only_device_registers_are_ignored() {
    let mut m = empty_memory();
    m.write(0xFE00, 0xFFFF);
    m.write(0xFE02, 0xFFFF);
    m.write(0xFE04, 0xFFFF);
    assert_eq!(m.word_at(0xFE00), 0);
    assert_eq!(m.word_at(0xFE02), 0);
    assert_eq!(m.word_at(0xFE04), 0);
    assert!(m.io.output_bytes().is_empty());
}

#[test]
fn device_register_addresses() {
    assert_eq!(IoDeviceRegister::Kbsr.addr(), 0xFE00);
    assert_eq!(IoDeviceRegister::Kbdr.addr(), 0xFE02);
    assert_eq!(IoDeviceRegister::Dsr.addr(), 0xFE04);
    assert_eq!(IoDeviceRegister::Ddr.addr(), 0xFE06);
    assert_eq!(IoDeviceRegister::Mcr.addr(), 0xFFFE);
    assert!(matches!(IoDeviceRegister::from_u16(0xFE00), Some(IoDeviceRegister::Kbsr)));
    assert!(matches!(IoDeviceRegister::from_u16(0xFE02), Some(IoDeviceRegister::Kbdr)));
    assert!(matches!(IoDeviceRegister::from_u16(0xFFFE), Some(IoDeviceRegister::Mcr)));
    assert!(IoDeviceRegister::from_u16(0x3000).is_none());
    assert!(IoDeviceRegister::from_u16(0xFE01).is_none());
}
