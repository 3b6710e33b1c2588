use lc3::{BufferDevice, Lc3};

fn empty_vm() -> Lc3<BufferDevice> {
    Lc3::new(BufferDevice::new(Vec::new()))
}

fn vm_with_input(input: Vec<u8>) -> Lc3<BufferDevice> {
    Lc3::new(BufferDevice::new(input))
}

fn step_virtual(vm: &mut Lc3<BufferDevice>, pc: u16, inst: u16) {
    vm.registers.pc = pc;
    vm.memory.write(pc, inst);
    vm.next_instruction_with_virtual_trap_vector_table().unwrap();
}

#[test]
fn trap_puts_writes_string() {
    // 'H', 'I', 0 as words at 0x4000; R0 = 0x4000; TRAP 0x22 writes "HI".
    let mut vm = empty_vm();
    vm.memory.write(0x4000, 0x0048);
    vm.memory.write(0x4001, 0x0049);
    vm.memory.write(0x4002, 0x0000);
    vm.registers.r0 = 0x4000;
    step_virtual(&mut vm, 0x3000, 0xF022);
    assert_eq!(vm.memory.io.output_bytes().as_slice(), b"HI");
    assert_eq!(vm.registers.r7, 0x3001);
}

#[test]
fn trap_getc_reads_byte_and_sets_cc() {
    let mut vm = vm_with_input(vec![b'A']);
    step_virtual(&mut vm, 0x3000, 0xF020);
    assert_eq!(vm.registers.r0, 0x0041);
    assert!(vm.registers.cc.positive());
    assert!(vm.memory.io.output_bytes().is_empty());
}

#[test]
fn trap_getc_on_exhausted_input_yields_zero() {
    let mut vm = empty_vm();
    vm.registers.r0 = 0xDEAD;
    step_virtual(&mut vm, 0x3000, 0xF020);
    assert_eq!(vm.registers.r0, 0);
    assert!(vm.registers.cc.zero());
}

#[test]
fn trap_out_writes_low_byte_of_r0() {
    let mut vm = empty_vm();
    vm.registers.r0 = 0x1248;
    step_virtual(&mut vm, 0x3000, 0xF021);
    assert_eq!(vm.memory.io.output_bytes().as_slice(), b"H");
}

#[test]
fn trap_in_prompts_echoes_and_stores() {
    let mut vm = vm_with_input(vec![b'x']);
    step_virtual(&mut vm, 0x3000, 0xF023);
    assert_eq!(vm.memory.io.output_bytes().as_slice(), b"Enter a character: x");
    assert_eq!(vm.registers.r0, 0x0078);
}

#[test]
fn trap_putsp_writes_packed_string() {
    // "HI" packed into one word: low byte 'H', high byte 'I'; then a NUL
    // word.
    let mut vm = empty_vm();
    vm.memory.write(0x4000, 0x4948);
    vm.memory.write(0x4001, 0x0000);
    vm.registers.r0 = 0x4000;
    step_virtual(&mut vm, 0x3000, 0xF024);
    assert_eq!(vm.memory.io.output_bytes().as_slice(), b"HI");
}

#[test]
fn trap_putsp_odd_length_stops_after_low_byte() {
    // A word with a zero high byte ends the string after its low byte.
    let mut vm = empty_vm();
    vm.memory.write(0x4000, 0x4948);
    vm.memory.write(0x4001, 0x0041);
    vm.memory.write(0x4002, 0x5858);
    vm.registers.r0 = 0x4000;
    step_virtual(&mut vm, 0x3000, 0xF024);
    assert_eq!(vm.memory.io.output_bytes().as_slice(), b"HIA");
}

#[test]
fn trap_putsp_nul_low_byte_terminates_even_with_high_byte_set() {
    // The terminator is a NUL byte: a word whose low byte is 0 ends the
    // string even when its high byte is not.
    let mut vm = empty_vm();
    vm.memory.write(0x4000, 0x4100);
    vm.registers.r0 = 0x4000;
    step_virtual(&mut vm, 0x3000, 0xF024);
    assert!(vm.memory.io.output_bytes().is_empty());
}

#[test]
fn trap_halt_prints_and_clears_mcr() {
    let mut vm = empty_vm();
    vm.reset();
    step_virtual(&mut vm, 0x3000, 0xF025);
    assert_eq!(vm.memory.io.output_bytes().as_slice(), b"HALT\n");
    assert!(vm.should_halt());
}

#[test]
fn trap_unrecognized_code_prints_diagnostic_and_continues() {
    let mut vm = empty_vm();
    step_virtual(&mut vm, 0x3000, 0xF026);
    assert_eq!(vm.memory.io.output_bytes().as_slice(), b"UNDEFINED TRAP EXECUTED");
    assert_eq!(vm.registers.r7, 0x3001);
    assert_eq!(vm.registers.pc, 0x3001);
}

#[test]
fn kbdr_polling_program_reads_input() {
    // A program that spins on KBSR, then loads KBDR: LDI R1, KBSR; BRzp -2;
    // LDI R2, KBDR; HALT — with input ready the loop exits at once.
    let mut vm = vm_with_input(vec![b'Q']);
    vm.memory.write(0x3004, 0xFE00);
    vm.memory.write(0x3005, 0xFE02);
    vm.memory.write(0x3000, 0xA203);
    vm.memory.write(0x3001, 0x07FE);
    vm.memory.write(0x3002, 0xA402);
    vm.memory.write(0x3003, 0xF025);
    vm.run_with_virtual_trap_vector_table().unwrap();
    assert_eq!(vm.registers.r1, 0x8000);
    assert_eq!(vm.registers.r2, 0x0051);
    assert!(vm.should_halt());
}

#[test]
fn trap_puts_empty_string_writes_nothing() {
    let mut vm = empty_vm();
    vm.registers.r0 = 0x4000;
    step_virtual(&mut vm, 0x3000, 0xF022);
    assert!(vm.memory.io.output_bytes().is_empty());
}

#[test]
fn load_image_then_run() {
    // The arithmetic program as an image: origin 0x3000, ADD R1,R1,#-1,
    // HALT. Loading and running it leaves R1 = 0xFFFF and the machine
    // halted.
    let mut vm = empty_vm();
    let mut image: Vec<u8> = vec![0x30, 0x00, 0x12, 0x7F, 0xF0, 0x25];
    vm.load_image(&mut image).unwrap();
    vm.run_with_virtual_trap_vector_table().unwrap();
    assert_eq!(vm.registers.r1, 0xFFFF);
    assert!(vm.registers.cc.negative());
    assert!(vm.should_halt());
}

#[test]
fn trap_puts_reads_through_the_overlay() {
    // A string running into the memory-mapped region is read through the
    // overlay: KBSR yields 0x8000 (low byte 0x00), KBDR consumes the
    // waiting byte, and the walk stops at the first zero word.
    let mut vm = vm_with_input(vec![b'Q']);
    vm.memory.write(0xFDFF, 0x0041);
    vm.memory.write(0xFE01, 0x0042);
    vm.registers.r0 = 0xFDFF;
    step_virtual(&mut vm, 0x3000, 0xF022);
    assert_eq!(vm.memory.io.output_bytes().as_slice(), &[0x41, 0x00, 0x42, 0x51]);
    assert!(vm.memory.io.input_bytes().is_empty());
}
