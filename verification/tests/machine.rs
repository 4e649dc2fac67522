use gameboy::cpu::flag::Z;
use gameboy::cpu::register::ProgramCounter;
use gameboy::error::Error;
use gameboy::mem::MMU;
use gameboy::GameBoy;

#[test]
fn load_load_add() {
    let mut gb = GameBoy::default();
    let image = [0x3Eu8, 0x05, 0x06, 0x03, 0x80];
    for (addr, byte) in image.iter().enumerate() {
        gb.mmu.write_u8(addr as u16, *byte);
    }
    assert_eq!(gb.run(3), Ok(()));
    assert_eq!(gb.cpu.register.af.hi, 8);
    assert_eq!(gb.cpu.register.bc.hi, 3);
    assert!(!gb.cpu.register.f().flag(Z).as_bool());
    assert_eq!(*gb.cpu.register.pc, 5);
}

#[test]
fn load_load_add_step_by_step() {
    let mut gb = GameBoy::default();
    let image = [0x3Eu8, 0x05, 0x06, 0x03, 0x80];
    for (addr, byte) in image.iter().enumerate() {
        gb.mmu.write_u8(addr as u16, *byte);
    }
    let opcode = gb.fetch();
    assert_eq!(opcode, 0x3E);
    assert_eq!(gb.execute(opcode), Ok(()));
    assert_eq!(gb.cpu.register.af.hi, 5);
    assert_eq!(*gb.cpu.register.pc, 2);
    let opcode = gb.fetch();
    assert_eq!(opcode, 0x06);
    assert_eq!(gb.execute(opcode), Ok(()));
    assert_eq!(gb.cpu.register.bc.hi, 3);
    assert_eq!(*gb.cpu.register.pc, 4);
    let opcode = gb.fetch();
    assert_eq!(opcode, 0x80);
    assert_eq!(gb.execute(opcode), Ok(()));
    assert_eq!(gb.cpu.register.af.hi, 8);
    assert_eq!(*gb.cpu.register.pc, 5);
}

#[test]
fn an_unmapped_opcode_stops_the_run() {
    let mut gb = GameBoy::default();
    gb.mmu.write_u8(0x0000, 0x00);
    gb.mmu.write_u8(0x0001, 0x3C);
    gb.mmu.write_u8(0x0002, 0xD3);
    assert_eq!(gb.run(1000), Err(Error::UnmappedOpcode(0xD3)));
    assert_eq!(*gb.cpu.register.pc, 2);
    assert_eq!(gb.cpu.register.af.hi, 1);
    assert_eq!(gb.run(1), Err(Error::UnmappedOpcode(0xD3)));
    assert_eq!(*gb.cpu.register.pc, 2);
}

#[test]
fn an_unwritten_instruction_stops_the_run() {
    let mut gb = GameBoy::default();
    gb.mmu.write_u8(0x0000, 0x04);
    gb.mmu.write_u8(0x0001, 0x76);
    assert_eq!(gb.run(10), Err(Error::Unimplemented));
    assert_eq!(*gb.cpu.register.pc, 1);
    assert_eq!(gb.cpu.register.bc.hi, 1);
}

#[test]
fn a_run_ends_at_its_limit() {
    let mut gb = GameBoy::default();
    assert_eq!(gb.run(0), Ok(()));
    assert_eq!(*gb.cpu.register.pc, 0);
    assert_eq!(gb.run(7), Ok(()));
    assert_eq!(*gb.cpu.register.pc, 7);
    gb.cpu.register.pc = ProgramCounter { pc: 0xFFFE };
    assert_eq!(gb.run(4), Ok(()));
    assert_eq!(*gb.cpu.register.pc, 2);
}

#[test]
fn the_program_counter_wraps() {
    let mut gb = GameBoy::default();
    gb.cpu.register.pc = ProgramCounter { pc: 0xFFFF };
    gb.advance_pc(1);
    assert_eq!(*gb.cpu.register.pc, 0);
    gb.advance_pc(255);
    assert_eq!(*gb.cpu.register.pc, 255);
    gb.advance_pc(0);
    assert_eq!(*gb.cpu.register.pc, 255);
}

#[test]
fn a_jump_sets_the_counter_itself() {
    let mut gb = GameBoy::default();
    gb.cpu.register.pc = ProgramCounter { pc: 0x0100 };
    gb.mmu.write_u8(0x0100, 0x18);
    gb.mmu.write_u8(0x0101, 0x10);
    gb.mmu.write_u8(0x0110, 0x28);
    gb.mmu.write_u8(0x0111, 0x10);
    gb.mmu.write_u8(0x0112, 0x3C);
    assert_eq!(gb.run(1), Ok(()));
    assert_eq!(*gb.cpu.register.pc, 0x0110);
    assert_eq!(gb.run(1), Ok(()));
    assert_eq!(*gb.cpu.register.pc, 0x0112);
    assert_eq!(gb.run(1), Ok(()));
    assert_eq!(gb.cpu.register.af.hi, 1);
    assert_eq!(*gb.cpu.register.pc, 0x0113);
}

#[test]
fn the_escape_moves_on_by_three() {
    let mut gb = GameBoy::default();
    gb.mmu.write_u8(0x0000, 0xCB);
    gb.mmu.write_u8(0x0001, 0x47);
    assert_eq!(gb.run(1), Ok(()));
    assert_eq!(*gb.cpu.register.pc, 3);
    assert!(gb.cpu.register.f().flag(Z).as_bool());
    let mut gb = GameBoy::default();
    gb.mmu.write_u8(0x0000, 0xCB);
    gb.mmu.write_u8(0x0001, 0x00);
    assert_eq!(gb.run(5), Err(Error::Unimplemented));
    assert_eq!(*gb.cpu.register.pc, 1);
}

#[test]
fn fetch_outside_a_small_memory_reads_zero() {
    let mut gb = GameBoy {
        cpu: Default::default(),
        mmu: MMU {
            mem: vec![0x3C, 0x3C].into_boxed_slice(),
        },
    };
    assert_eq!(gb.run(5), Ok(()));
    assert_eq!(gb.cpu.register.af.hi, 2);
    assert_eq!(*gb.cpu.register.pc, 5);
    assert_eq!(gb.fetch(), 0);
}
