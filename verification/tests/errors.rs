use lc3::{BufferDevice, Error, IoDevice, Lc3, Memory};

/// A device on which every operation fails.
struct FailingDevice;

impl IoDevice for FailingDevice {
    type Error = &'static str;

    fn poll(&self) -> bool {
        false
    }

    fn read(&mut self) -> Result<u8, &'static str> {
        Err("read failed")
    }

    fn write(&mut self, _buf: &[u8]) -> Result<(), &'static str> {
        Err("write failed")
    }

    fn flush(&mut self) -> Result<(), &'static str> {
        Err("flush failed")
    }
}

/// A device that claims a byte is ready but fails to deliver it.
struct ReadyButBroken;

impl IoDevice for ReadyButBroken {
    type Error = ();

    fn poll(&self) -> bool {
        true
    }

    fn read(&mut self) -> Result<u8, ()> {
        Err(())
    }

    fn write(&mut self, _buf: &[u8]) -> Result<(), ()> {
        Ok(())
    }

    fn flush(&mut self) -> Result<(), ()> {
        Ok(())
    }
}

#[test]
fn device_read_error_surfaces_from_getc() {
    let mut vm = Lc3::new(FailingDevice);
    vm.registers.pc = 0x3000;
    vm.memory.write(0x3000, 0xF020);
    assert!(matches!(
        vm.next_instruction_with_virtual_trap_vector_table(),
        Err(Error::Io("read failed"))
    ));
}

#[test]
fn device_write_error_surfaces_from_out() {
    let mut vm = Lc3::new(FailingDevice);
    vm.registers.pc = 0x3000;
    vm.memory.write(0x3000, 0xF021);
    assert!(matches!(
        vm.next_instruction_with_virtual_trap_vector_table(),
        Err(Error::Io("write failed"))
    ));
}

#[test]
fn device_error_terminates_run() {
    let mut vm = Lc3::new(FailingDevice);
    vm.memory.write(0x3000, 0xF021);
    assert!(matches!(
        vm.run_with_virtual_trap_vector_table(),
        Err(Error::Io("write failed"))
    ));
}

#[test]
fn kbdr_read_swallows_device_failure() {
    // The device reports input ready but fails to deliver: the memory unit
    // swallows the error and the read yields 0.
    let mut m = Memory::new(ReadyButBroken);
    assert_eq!(m.read(0xFE00), 0x8000);
    assert_eq!(m.read(0xFE02), 0x0000);
}

#[test]
fn kbdr_read_without_input_yields_zero() {
    let mut m = Memory::new(BufferDevice::new(Vec::new()));
    assert_eq!(m.read(0xFE02), 0x0000);
}
