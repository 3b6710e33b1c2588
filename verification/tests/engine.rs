use lc3::{BufferDevice, Error, Lc3};

fn empty_vm() -> Lc3<BufferDevice> {
    Lc3::new(BufferDevice::new(Vec::new()))
}

#[test]
fn initial_state() {
    let vm = empty_vm();
    assert_eq!(vm.registers.r0, 0);
    assert_eq!(vm.registers.r7, 0);
    assert_eq!(vm.registers.pc, 0);
    assert!(vm.registers.cc.zero());
}

#[test]
fn reset_and_halt_drive_should_halt() {
    let mut vm = empty_vm();
    vm.reset();
    assert!(!vm.should_halt());
    vm.halt();
    assert!(vm.should_halt());
    vm.reset();
    assert!(!vm.should_halt());
}

#[test]
fn run_arithmetic_and_cc() {
    // ADD R1,R1,#-1 then HALT: R1 = 0xFFFF, CC = N, MCR cleared.
    let mut vm = empty_vm();
    vm.memory.write(0x3000, 0x127F);
    vm.memory.write(0x3001, 0xF025);
    vm.run_with_virtual_trap_vector_table().unwrap();
    assert_eq!(vm.registers.r1, 0xFFFF);
    assert!(vm.registers.cc.negative());
    assert!(vm.should_halt());
    assert_eq!(vm.memory.io.output_bytes().as_slice(), b"HALT\n");
}

#[test]
fn add_wraps_to_zero_and_sets_z() {
    // ADD R0,R0,#1 with R0 = 0xFFFF yields R0 = 0x0000 and CC = Z.
    let mut vm = empty_vm();
    vm.registers.r0 = 0xFFFF;
    vm.registers.pc = 0x3000;
    vm.memory.write(0x3000, 0x1021);
    vm.next_instruction().unwrap();
    assert_eq!(vm.registers.r0, 0x0000);
    assert!(vm.registers.cc.zero());
    assert_eq!(vm.registers.pc, 0x3001);
}

#[test]
fn add_register_mode() {
    let mut vm = empty_vm();
    vm.registers.r2 = 5;
    vm.registers.r3 = 7;
    vm.registers.pc = 0x3000;
    // ADD R1, R2, R3: 0001 001 010 0 00 011.
    vm.memory.write(0x3000, 0x1283);
    vm.next_instruction().unwrap();
    assert_eq!(vm.registers.r1, 12);
    assert!(vm.registers.cc.positive());
}

#[test]
fn and_and_not_semantics() {
    let mut vm = empty_vm();
    vm.registers.r0 = 0xFF0F;
    vm.registers.pc = 0x3000;
    // AND R0,R0,#0: 0x5020.
    vm.memory.write(0x3000, 0x5020);
    // NOT R1, R0: 1001 001 000 111111.
    vm.memory.write(0x3001, 0x923F);
    vm.next_instruction().unwrap();
    assert_eq!(vm.registers.r0, 0);
    assert!(vm.registers.cc.zero());
    vm.next_instruction().unwrap();
    assert_eq!(vm.registers.r1, 0xFFFF);
    assert!(vm.registers.cc.negative());
}

#[test]
fn run_branch_taken_skips_instruction() {
    // AND R0,R0,#0 sets CC = Z; BRz #1 skips ADD R1,R1,#1; HALT. R1 = 0.
    let mut vm = empty_vm();
    vm.memory.write(0x3000, 0x5020);
    vm.memory.write(0x3001, 0x0401);
    vm.memory.write(0x3002, 0x1261);
    vm.memory.write(0x3003, 0xF025);
    vm.run_with_virtual_trap_vector_table().unwrap();
    assert_eq!(vm.registers.r1, 0);
    assert!(vm.should_halt());
}

#[test]
fn branch_not_taken_falls_through() {
    let mut vm = empty_vm();
    vm.registers.pc = 0x3000;
    vm.registers.cc = lc3::CondCodes::from_signum(1);
    // BRn #5: mask 100, not taken under CC = P.
    vm.memory.write(0x3000, 0x0805);
    vm.next_instruction().unwrap();
    assert_eq!(vm.registers.pc, 0x3001);
}

#[test]
fn branch_offset_is_relative_to_next_instruction() {
    let mut vm = empty_vm();
    vm.registers.pc = 0x3000;
    vm.registers.cc = lc3::CondCodes::from_signum(0);
    // BRz #-2: mask 010, offset 0x1FE.
    vm.memory.write(0x3000, 0x05FE);
    vm.next_instruction().unwrap();
    assert_eq!(vm.registers.pc, 0x2FFF);
}

#[test]
fn indirect_load() {
    // LDI R2 via a pointer: R2 = 0x1234, CC = P.
    let mut vm = empty_vm();
    vm.memory.write(0x3000, 0x4000);
    // LDI R2, #-2: 1010 010 111111110.
    vm.memory.write(0x3001, 0xA5FE);
    vm.memory.write(0x4000, 0x1234);
    vm.registers.pc = 0x3001;
    vm.next_instruction().unwrap();
    assert_eq!(vm.registers.r2, 0x1234);
    assert!(vm.registers.cc.positive());
}

#[test]
fn jsr_and_ret() {
    // JSR +2 at 0x3000, RET (JMP R7) at 0x3003.
    let mut vm = empty_vm();
    vm.memory.write(0x3000, 0x4802);
    vm.memory.write(0x3003, 0xC1C0);
    vm.registers.pc = 0x3000;
    vm.next_instruction().unwrap();
    assert_eq!(vm.registers.r7, 0x3001);
    assert_eq!(vm.registers.pc, 0x3003);
    vm.next_instruction().unwrap();
    assert_eq!(vm.registers.pc, 0x3001);
}

#[test]
fn jsrr_through_r7_jumps_to_saved_pc() {
    // JSRR R7 copies PC to R7 before reading BaseR, so the copied value
    // is what ends up in PC.
    let mut vm = empty_vm();
    vm.registers.r7 = 0x5000;
    vm.registers.pc = 0x3000;
    // JSRR R7: 0100 000 111 000000.
    vm.memory.write(0x3000, 0x41C0);
    vm.next_instruction().unwrap();
    assert_eq!(vm.registers.r7, 0x3001);
    assert_eq!(vm.registers.pc, 0x3001);
}

#[test]
fn ld_ldr_lea_st_str_sti() {
    let mut vm = empty_vm();
    vm.registers.pc = 0x3000;
    // LD R1, #4: 0010 001 000000100 -> loads M[0x3005].
    vm.memory.write(0x3000, 0x2204);
    vm.memory.write(0x3005, 0x00AB);
    vm.next_instruction().unwrap();
    assert_eq!(vm.registers.r1, 0x00AB);
    assert!(vm.registers.cc.positive());

    // LDR R2, R1, #1: 0110 010 001 000001 -> loads M[0x00AC].
    vm.memory.write(0x00AC, 0x8000);
    vm.memory.write(0x3001, 0x6441);
    vm.next_instruction().unwrap();
    assert_eq!(vm.registers.r2, 0x8000);
    assert!(vm.registers.cc.negative());

    // LEA R3, #-1: 1110 011 111111111 -> PC 0x3003 - 1.
    vm.memory.write(0x3002, 0xE7FF);
    vm.next_instruction().unwrap();
    assert_eq!(vm.registers.r3, 0x3002);
    assert!(vm.registers.cc.positive());

    // ST R1, #2: 0011 001 000000010 -> M[0x3006] = R1.
    vm.memory.write(0x3003, 0x3202);
    vm.next_instruction().unwrap();
    assert_eq!(vm.memory.read(0x3006), 0x00AB);

    // STR R3, R1, #0: 0111 011 001 000000 -> M[0x00AB] = R3.
    vm.memory.write(0x3004, 0x7640);
    vm.next_instruction().unwrap();
    assert_eq!(vm.memory.read(0x00AB), 0x3002);

    // STI R3, #1: 1011 011 000000001 -> M[M[0x3007]] = R3.
    vm.memory.write(0x3007, 0x0050);
    vm.memory.write(0x3005, 0xB601);
    vm.next_instruction().unwrap();
    assert_eq!(vm.memory.read(0x0050), 0x3002);
}

#[test]
fn rti_and_reserved_are_unsupported() {
    let mut vm = empty_vm();
    vm.registers.pc = 0x3000;
    vm.memory.write(0x3000, 0x8000);
    assert!(matches!(vm.next_instruction(), Err(Error::OpCodeNotImplemented)));
    vm.registers.pc = 0x3000;
    vm.memory.write(0x3000, 0xD000);
    assert!(matches!(
        vm.next_instruction_with_virtual_trap_vector_table(),
        Err(Error::OpCodeNotImplemented)
    ));
}

#[test]
fn hardware_trap_dispatches_through_vector_table() {
    let mut vm = empty_vm();
    vm.memory.write(0x0025, 0x0520);
    vm.registers.pc = 0x3000;
    vm.memory.write(0x3000, 0xF025);
    vm.next_instruction().unwrap();
    assert_eq!(vm.registers.r7, 0x3001);
    assert_eq!(vm.registers.pc, 0x0520);
}
