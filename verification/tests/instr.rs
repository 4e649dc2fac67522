use gameboy::cpu::flag::{C, H, N, Z};
use gameboy::cpu::register::RegisterF;
use gameboy::error::Error;
use gameboy::instr::integer::Carry;
use gameboy::instr::operand::{AddrOf, Constant, Flags, Immediate16, Immediate8, R16, R8};
use gameboy::instr::{callback, execute, Interrupt};
use gameboy::GameBoy;

#[test]
fn add_sets_the_flags() {
    let mut gb = GameBoy::default();
    gb.cpu.register.af.hi = 0xFF;
    gb.cpu.register.bc.hi = 0x01;
    gb.cpu.register.set_f(RegisterF { f: 0x4F });
    assert_eq!(gb.add(R8::A, R8::B, Carry::Without), Ok(1));
    assert_eq!(gb.cpu.register.af.hi, 0x00);
    assert_eq!(gb.cpu.register.bc.hi, 0x01);
    assert_eq!(gb.cpu.register.f(), RegisterF { f: 0xBF });

    gb.cpu.register.af.hi = 0x0F;
    gb.cpu.register.set_f(RegisterF { f: 0xF0 });
    assert_eq!(gb.add(R8::A, R8::B, Carry::Without), Ok(1));
    assert_eq!(gb.cpu.register.af.hi, 0x10);
    assert_eq!(gb.cpu.register.f(), RegisterF { f: 0x20 });

    gb.cpu.register.af.hi = 0xF0;
    gb.cpu.register.bc.hi = 0x20;
    assert_eq!(gb.add(R8::A, R8::B, Carry::Without), Ok(1));
    assert_eq!(gb.cpu.register.af.hi, 0x10);
    assert_eq!(gb.cpu.register.f(), RegisterF { f: 0x10 });

    gb.cpu.register.af.hi = 0x12;
    gb.cpu.register.bc.hi = 0x34;
    assert_eq!(gb.add(R8::A, R8::B, Carry::Without), Ok(1));
    assert_eq!(gb.cpu.register.af.hi, 0x46);
    assert_eq!(gb.cpu.register.f(), RegisterF { f: 0x00 });
}

#[test]
fn add_flags_for_every_pair_of_bytes() {
    let mut gb = GameBoy::default();
    for x in 0..=255u8 {
        for y in 0..=255u8 {
            gb.cpu.register.af.hi = x;
            gb.cpu.register.bc.hi = y;
            gb.cpu.register.set_f(RegisterF { f: 0x40 });
            assert_eq!(gb.add(R8::A, R8::B, Carry::Without), Ok(1));
            let f = gb.cpu.register.f();
            assert_eq!(gb.cpu.register.af.hi, x.wrapping_add(y));
            assert_eq!(f.flag(C).as_bool(), x as u16 + y as u16 > 0xFF);
            assert_eq!(f.flag(H).as_bool(), (x & 0xF) + (y & 0xF) > 0xF);
            assert_eq!(f.flag(Z).as_bool(), x.wrapping_add(y) == 0);
            assert!(!f.flag(N).as_bool());
        }
    }
}

#[test]
fn add_with_carry_takes_the_flag_in() {
    let mut gb = GameBoy::default();
    gb.cpu.register.af.hi = 0x0E;
    gb.cpu.register.bc.hi = 0x01;
    gb.cpu.register.set_f(RegisterF { f: 0x10 });
    assert_eq!(gb.add(R8::A, R8::B, Carry::With), Ok(1));
    assert_eq!(gb.cpu.register.af.hi, 0x10);
    assert_eq!(gb.cpu.register.f(), RegisterF { f: 0x20 });

    gb.cpu.register.af.hi = 0x0E;
    gb.cpu.register.set_f(RegisterF { f: 0x00 });
    assert_eq!(gb.add(R8::A, R8::B, Carry::With), Ok(1));
    assert_eq!(gb.cpu.register.af.hi, 0x0F);
    assert_eq!(gb.cpu.register.f(), RegisterF { f: 0x00 });

    gb.cpu.register.af.hi = 0xFF;
    gb.cpu.register.bc.hi = 0x00;
    gb.cpu.register.set_f(RegisterF { f: 0x10 });
    assert_eq!(gb.add(R8::A, R8::B, Carry::With), Ok(1));
    assert_eq!(gb.cpu.register.af.hi, 0x00);
    assert_eq!(gb.cpu.register.f(), RegisterF { f: 0xB0 });

    gb.cpu.register.af.hi = 0x80;
    gb.cpu.register.bc.hi = 0x7F;
    gb.cpu.register.set_f(RegisterF { f: 0x10 });
    assert_eq!(gb.add(R8::A, R8::B, Carry::Without), Ok(1));
    assert_eq!(gb.cpu.register.af.hi, 0xFF);
    assert_eq!(gb.cpu.register.f(), RegisterF { f: 0x00 });
}

#[test]
fn add_of_words_sets_the_flags() {
    let mut gb = GameBoy::default();
    gb.cpu.register.hl.set_u16(0x0F00);
    gb.cpu.register.bc.set_u16(0x0001);
    gb.cpu.register.set_f(RegisterF { f: 0xC0 });
    assert_eq!(gb.add(R16::HL, R16::BC, Carry::Without), Ok(2));
    assert_eq!(gb.cpu.register.hl.as_u16(), 0x0F01);
    assert_eq!(gb.cpu.register.f(), RegisterF { f: 0x00 });

    gb.cpu.register.hl.set_u16(0x0FFF);
    gb.cpu.register.set_f(RegisterF { f: 0xCF });
    assert_eq!(gb.add(R16::HL, R16::BC, Carry::Without), Ok(2));
    assert_eq!(gb.cpu.register.hl.as_u16(), 0x1000);
    assert_eq!(gb.cpu.register.f(), RegisterF { f: 0x2F });

    gb.cpu.register.hl.set_u16(0x00FF);
    gb.cpu.register.set_f(RegisterF { f: 0x00 });
    assert_eq!(gb.add(R16::HL, R16::BC, Carry::Without), Ok(2));
    assert_eq!(gb.cpu.register.hl.as_u16(), 0x0100);
    assert_eq!(gb.cpu.register.f(), RegisterF { f: 0x20 });

    gb.cpu.register.hl.set_u16(0xFFFF);
    assert_eq!(gb.add(R16::HL, R16::BC, Carry::Without), Ok(2));
    assert_eq!(gb.cpu.register.hl.as_u16(), 0x0000);
    assert_eq!(gb.cpu.register.f(), RegisterF { f: 0xB0 });

    gb.cpu.register.hl.set_u16(0x8000);
    gb.cpu.register.de.set_u16(0x8000);
    gb.cpu.register.set_f(RegisterF { f: 0x00 });
    assert_eq!(execute(0x19, &mut gb), Ok(2));
    assert_eq!(gb.cpu.register.hl.as_u16(), 0x0000);
    assert_eq!(gb.cpu.register.f(), RegisterF { f: 0x90 });
}

#[test]
fn sub_sets_the_flags() {
    let mut gb = GameBoy::default();
    gb.cpu.register.af.hi = 0x10;
    gb.cpu.register.bc.hi = 0x01;
    assert_eq!(gb.sub(R8::A, R8::B, Carry::Without), Ok(1));
    assert_eq!(gb.cpu.register.af.hi, 0x0F);
    assert_eq!(gb.cpu.register.f(), RegisterF { f: 0x60 });

    gb.cpu.register.af.hi = 0x00;
    assert_eq!(gb.sub(R8::A, R8::B, Carry::Without), Ok(1));
    assert_eq!(gb.cpu.register.af.hi, 0xFF);
    assert_eq!(gb.cpu.register.f(), RegisterF { f: 0x70 });

    gb.cpu.register.af.hi = 0x01;
    assert_eq!(gb.sub(R8::A, R8::B, Carry::Without), Ok(1));
    assert_eq!(gb.cpu.register.af.hi, 0x00);
    assert_eq!(gb.cpu.register.f(), RegisterF { f: 0xC0 });
}

#[test]
fn sub_with_carry_takes_the_flag_in() {
    let mut gb = GameBoy::default();
    gb.cpu.register.af.hi = 0x10;
    gb.cpu.register.bc.hi = 0x0F;
    gb.cpu.register.set_f(RegisterF { f: 0x10 });
    assert_eq!(gb.sub(R8::A, R8::B, Carry::With), Ok(1));
    assert_eq!(gb.cpu.register.af.hi, 0x00);
    assert_eq!(gb.cpu.register.f(), RegisterF { f: 0xE0 });

    gb.cpu.register.af.hi = 0x10;
    gb.cpu.register.set_f(RegisterF { f: 0x00 });
    assert_eq!(gb.sub(R8::A, R8::B, Carry::With), Ok(1));
    assert_eq!(gb.cpu.register.af.hi, 0x01);
    assert_eq!(gb.cpu.register.f(), RegisterF { f: 0x60 });

    gb.cpu.register.af.hi = 0x00;
    gb.cpu.register.bc.hi = 0x00;
    gb.cpu.register.set_f(RegisterF { f: 0x10 });
    assert_eq!(gb.sub(R8::A, R8::B, Carry::With), Ok(1));
    assert_eq!(gb.cpu.register.af.hi, 0xFF);
    assert_eq!(gb.cpu.register.f(), RegisterF { f: 0x70 });
}

#[test]
fn sub_then_add_restores_the_value() {
    let mut gb = GameBoy::default();
    for x in 0..=255u8 {
        for y in 0..=255u8 {
            gb.cpu.register.af.hi = x;
            gb.cpu.register.bc.hi = y;
            assert_eq!(gb.sub(R8::A, R8::B, Carry::Without), Ok(1));
            assert_eq!(gb.cpu.register.af.hi, x.wrapping_sub(y));
            assert_eq!(gb.add(R8::A, R8::B, Carry::Without), Ok(1));
            assert_eq!(gb.cpu.register.af.hi, x);
        }
    }
}

#[test]
fn compare_keeps_the_left_operand() {
    let mut gb = GameBoy::default();
    for (a, b, flags) in [
        (0x42u8, 0x42u8, 0xC0u8),
        (0x42, 0x43, 0x70),
        (0x42, 0x41, 0x40),
        (0x40, 0x01, 0x60),
        (0x00, 0x00, 0xC0),
    ] {
        gb.cpu.register.af.hi = a;
        gb.cpu.register.bc.hi = b;
        gb.cpu.register.set_f(RegisterF { f: 0 });
        assert_eq!(gb.cmp(R8::A, R8::B), Ok(1));
        assert_eq!(gb.cpu.register.af.hi, a);
        assert_eq!(gb.cpu.register.bc.hi, b);
        assert_eq!(gb.cpu.register.f(), RegisterF { f: flags });
    }
}

#[test]
fn compare_with_memory_keeps_memory() {
    let mut gb = GameBoy::default();
    gb.cpu.register.hl.set_u16(0x4000);
    gb.mmu.write_u8(0x4000, 0x10);
    gb.cpu.register.af.hi = 0x0F;
    assert_eq!(gb.cmp(AddrOf(R16::HL), R8::A), Ok(1));
    assert_eq!(gb.mmu.read_u8(0x4000), 0x10);
    assert_eq!(gb.cpu.register.af.hi, 0x0F);
    assert_eq!(gb.cpu.register.f(), RegisterF { f: 0x60 });
}

#[test]
fn logic_sets_the_flags() {
    let mut gb = GameBoy::default();
    gb.cpu.register.af.hi = 0b1100;
    gb.cpu.register.bc.hi = 0b1010;
    gb.cpu.register.set_f(RegisterF { f: 0xFF });
    assert_eq!(gb.xor(R8::A, R8::B), Ok(1));
    assert_eq!(gb.cpu.register.af.hi, 0b0110);
    assert_eq!(gb.cpu.register.f(), RegisterF { f: 0x0F });

    gb.cpu.register.af.hi = 0b1100;
    gb.cpu.register.set_f(RegisterF { f: 0xDF });
    assert_eq!(gb.and(R8::A, R8::B), Ok(1));
    assert_eq!(gb.cpu.register.af.hi, 0b1000);
    assert_eq!(gb.cpu.register.f(), RegisterF { f: 0x2F });

    gb.cpu.register.af.hi = 0b0101;
    gb.cpu.register.set_f(RegisterF { f: 0x00 });
    assert_eq!(gb.and(R8::A, R8::B), Ok(1));
    assert_eq!(gb.cpu.register.af.hi, 0);
    assert_eq!(gb.cpu.register.f(), RegisterF { f: 0xA0 });

    gb.cpu.register.af.hi = 0b1100;
    gb.cpu.register.set_f(RegisterF { f: 0xF0 });
    assert_eq!(gb.or(R8::A, R8::B), Ok(1));
    assert_eq!(gb.cpu.register.af.hi, 0b1110);
    assert_eq!(gb.cpu.register.f(), RegisterF { f: 0x00 });

    gb.cpu.register.af.hi = 0;
    gb.cpu.register.bc.hi = 0;
    assert_eq!(gb.or(R8::A, R8::B), Ok(1));
    assert_eq!(gb.cpu.register.f(), RegisterF { f: 0x80 });

    gb.cpu.register.hl.set_u16(0xFF00);
    gb.cpu.register.de.set_u16(0x0FF0);
    assert_eq!(gb.xor(R16::HL, R16::DE), Ok(2));
    assert_eq!(gb.cpu.register.hl.as_u16(), 0xF0F0);
}

#[test]
fn inc_of_0xff_wraps_and_keeps_carry() {
    let mut gb = GameBoy::default();
    gb.cpu.register.bc.hi = 0xFF;
    gb.cpu.register.set_f(RegisterF { f: 0x10 });
    assert_eq!(gb.inc(R8::B), Ok(1));
    assert_eq!(gb.cpu.register.bc.hi, 0x00);
    assert_eq!(gb.cpu.register.f(), RegisterF { f: 0xB0 });

    gb.cpu.register.bc.hi = 0xFF;
    gb.cpu.register.set_f(RegisterF { f: 0x40 });
    assert_eq!(gb.inc(R8::B), Ok(1));
    assert_eq!(gb.cpu.register.bc.hi, 0x00);
    assert_eq!(gb.cpu.register.f(), RegisterF { f: 0xA0 });
}

#[test]
fn inc_and_dec_of_bytes() {
    let mut gb = GameBoy::default();
    gb.cpu.register.de.lo = 0x0F;
    assert_eq!(gb.inc(R8::E), Ok(1));
    assert_eq!(gb.cpu.register.de.lo, 0x10);
    assert_eq!(gb.cpu.register.f(), RegisterF { f: 0x20 });
    assert_eq!(gb.dec(R8::E), Ok(1));
    assert_eq!(gb.cpu.register.de.lo, 0x0F);
    assert_eq!(gb.cpu.register.f(), RegisterF { f: 0x60 });
    gb.cpu.register.de.lo = 0x01;
    gb.cpu.register.set_f(RegisterF { f: 0x10 });
    assert_eq!(gb.dec(R8::E), Ok(1));
    assert_eq!(gb.cpu.register.de.lo, 0x00);
    assert_eq!(gb.cpu.register.f(), RegisterF { f: 0xD0 });
    assert_eq!(gb.dec(R8::E), Ok(1));
    assert_eq!(gb.cpu.register.de.lo, 0xFF);
    assert_eq!(gb.cpu.register.f(), RegisterF { f: 0x70 });
    gb.cpu.register.hl.set_u16(0x3000);
    gb.mmu.write_u8(0x3000, 0x41);
    assert_eq!(gb.inc(AddrOf(R16::HL)), Ok(1));
    assert_eq!(gb.mmu.read_u8(0x3000), 0x42);
    assert_eq!(gb.dec(AddrOf(R16::HL)), Ok(1));
    assert_eq!(gb.mmu.read_u8(0x3000), 0x41);
}

#[test]
fn inc_and_dec_of_words_touch_no_flag() {
    let mut gb = GameBoy::default();
    gb.cpu.register.set_f(RegisterF { f: 0xA5 });
    gb.cpu.register.bc.set_u16(0xFFFF);
    assert_eq!(gb.inc16(R16::BC), Ok(2));
    assert_eq!(gb.cpu.register.bc.as_u16(), 0x0000);
    assert_eq!(gb.cpu.register.f(), RegisterF { f: 0xA5 });
    assert_eq!(gb.dec16(R16::BC), Ok(2));
    assert_eq!(gb.cpu.register.bc.as_u16(), 0xFFFF);
    assert_eq!(gb.cpu.register.f(), RegisterF { f: 0xA5 });
    gb.cpu.register.sp.sp = 0x00FF;
    assert_eq!(gb.inc16(R16::SP), Ok(2));
    assert_eq!(*gb.cpu.register.sp, 0x0100);
}

#[test]
fn load_counts_what_its_operands_cost() {
    let mut gb = GameBoy::default();
    gb.cpu.register.pc.pc = 0x0100;
    gb.mmu.write_u8(0x0101, 0xCD);
    gb.mmu.write_u8(0x0102, 0xAB);
    assert_eq!(gb.load(R8::A, Immediate8), Ok(2));
    assert_eq!(gb.cpu.register.af.hi, 0xCD);
    assert_eq!(gb.load(R16::DE, Immediate16), Ok(3));
    assert_eq!(gb.cpu.register.de.as_u16(), 0xABCD);
    assert_eq!(gb.load(R8::B, R8::A), Ok(1));
    assert_eq!(gb.cpu.register.bc.hi, 0xCD);
    assert_eq!(gb.load(AddrOf(R16::DE), R8::B), Ok(1));
    assert_eq!(gb.mmu.read_u8(0xABCD), 0xCD);
    assert_eq!(gb.load(R8::L, AddrOf(R16::DE)), Ok(1));
    assert_eq!(gb.cpu.register.hl.lo, 0xCD);
    assert_eq!(gb.load(AddrOf(Immediate8), R8::A), Ok(1));
    assert_eq!(gb.mmu.read_u8(0xFFCD), 0xCD);
}

#[test]
fn binary_op_hands_over_operands_and_flags() {
    let mut gb = GameBoy::default();
    gb.cpu.register.af.hi = 3;
    gb.cpu.register.bc.hi = 4;
    gb.cpu.register.set_f(RegisterF { f: 0x30 });
    let steps = gb.binary_op(R8::A, R8::B, |x: u8, y: u8, f: RegisterF| {
        (x * 10 + y, RegisterF { f: f.f | 0x80 })
    });
    assert_eq!(steps, Ok(1));
    assert_eq!(gb.cpu.register.af.hi, 34);
    assert_eq!(gb.cpu.register.bc.hi, 4);
    assert_eq!(gb.cpu.register.f(), RegisterF { f: 0xB0 });
    let steps = gb.binary_op(R16::HL, Constant(5u16), |x: u16, y: u16, f: RegisterF| (x + y, f));
    assert_eq!(steps, Ok(2));
    assert_eq!(gb.cpu.register.hl.as_u16(), 5);
}

#[test]
fn relative_jump_adds_the_signed_offset() {
    let mut gb = GameBoy::default();
    gb.cpu.register.pc.pc = 0x0100;
    gb.mmu.write_u8(0x0101, 0x05);
    assert_eq!(gb.jump(Flags::Always, Immediate8), Ok(0));
    assert_eq!(*gb.cpu.register.pc, 0x0105);

    gb.cpu.register.pc.pc = 0x0100;
    gb.mmu.write_u8(0x0101, 0xFE);
    assert_eq!(gb.jump(Flags::Always, Immediate8), Ok(0));
    assert_eq!(*gb.cpu.register.pc, 0x00FE);

    gb.cpu.register.pc.pc = 0x0100;
    gb.mmu.write_u8(0x0101, 0x80);
    assert_eq!(gb.jump(Flags::Always, Immediate8), Ok(0));
    assert_eq!(*gb.cpu.register.pc, 0x0080);

    gb.cpu.register.pc.pc = 0x0100;
    gb.mmu.write_u8(0x0101, 0x7F);
    assert_eq!(gb.jump(Flags::Always, Immediate8), Ok(0));
    assert_eq!(*gb.cpu.register.pc, 0x017F);

    gb.cpu.register.pc.pc = 0x0001;
    gb.mmu.write_u8(0x0002, 0xFD);
    assert_eq!(gb.jump(Flags::Always, Immediate8), Ok(0));
    assert_eq!(*gb.cpu.register.pc, 0xFFFE);
}

#[test]
fn a_jump_that_is_not_taken_steps_over_the_instruction() {
    let mut gb = GameBoy::default();
    gb.cpu.register.pc.pc = 0x0100;
    gb.mmu.write_u8(0x0101, 0x05);
    gb.mmu.write_u8(0x0102, 0x20);
    gb.cpu.register.set_f(RegisterF { f: 0x00 });
    assert_eq!(gb.jump(Flags::Z, Immediate8), Ok(2));
    assert_eq!(*gb.cpu.register.pc, 0x0100);
    assert_eq!(gb.jump(Flags::C, Immediate8), Ok(2));
    assert_eq!(gb.jump(Flags::N, Immediate8), Ok(2));
    assert_eq!(gb.jump(Flags::H, Immediate8), Ok(2));
    assert_eq!(gb.jump16(Flags::Z, Immediate16), Ok(3));
    assert_eq!(*gb.cpu.register.pc, 0x0100);
    assert_eq!(gb.jump(Flags::NZ, Immediate8), Ok(0));
    assert_eq!(*gb.cpu.register.pc, 0x0105);
}

#[test]
fn conditions_read_their_flag() {
    let set = RegisterF { f: 0xF0 };
    let clear = RegisterF { f: 0x0F };
    assert!(Flags::Always.test(set));
    assert!(Flags::Always.test(clear));
    assert!(Flags::Z.test(RegisterF { f: 0x80 }));
    assert!(!Flags::Z.test(RegisterF { f: 0x7F }));
    assert!(Flags::N.test(RegisterF { f: 0x40 }));
    assert!(!Flags::N.test(RegisterF { f: 0xBF }));
    assert!(Flags::H.test(RegisterF { f: 0x20 }));
    assert!(!Flags::H.test(RegisterF { f: 0xDF }));
    assert!(Flags::C.test(RegisterF { f: 0x10 }));
    assert!(!Flags::C.test(RegisterF { f: 0xEF }));
    assert!(Flags::NZ.test(clear));
    assert!(!Flags::NZ.test(set));
    assert!(Flags::NN.test(clear));
    assert!(!Flags::NN.test(set));
    assert!(Flags::NH.test(clear));
    assert!(!Flags::NH.test(set));
    assert!(Flags::NC.test(clear));
    assert!(!Flags::NC.test(set));
}

#[test]
fn jump_by_a_word_adds_the_offset() {
    let mut gb = GameBoy::default();
    gb.cpu.register.pc.pc = 0x0100;
    gb.mmu.write_u16(0x0101, 0x1234);
    assert_eq!(gb.jump16(Flags::Always, Immediate16), Ok(0));
    assert_eq!(*gb.cpu.register.pc, 0x1334);
    gb.cpu.register.pc.pc = 0xFFF0;
    gb.mmu.write_u16(0xFFF1, 0x0020);
    gb.cpu.register.set_f(RegisterF { f: 0x10 });
    assert_eq!(gb.jump16(Flags::C, Immediate16), Ok(0));
    assert_eq!(*gb.cpu.register.pc, 0x0010);
}

#[test]
fn push_moves_the_stack_pointer_up() {
    let mut gb = GameBoy::default();
    gb.cpu.register.sp.sp = 0xC000;
    gb.cpu.register.bc.set_u16(0x1234);
    assert_eq!(gb.push(R16::BC), Ok(1));
    assert_eq!(gb.mmu.read_u8(0xC000), 0x34);
    assert_eq!(gb.mmu.read_u8(0xC001), 0x12);
    assert_eq!(*gb.cpu.register.sp, 0xC002);
    gb.cpu.register.sp.sp = 0xFFFF;
    assert_eq!(gb.push(R16::BC), Ok(1));
    assert_eq!(*gb.cpu.register.sp, 0x0001);
    assert_eq!(gb.mmu.read_u8(0xFFFF), 0);
}

#[test]
fn pop_reads_at_the_stack_pointer_and_moves_it_down() {
    let mut gb = GameBoy::default();
    gb.cpu.register.sp.sp = 0xC000;
    gb.mmu.write_u16(0xC000, 0xBEEF);
    assert_eq!(gb.pop(R16::DE), Ok(1));
    assert_eq!(gb.cpu.register.de.as_u16(), 0xBEEF);
    assert_eq!(*gb.cpu.register.sp, 0xBFFE);
    gb.cpu.register.sp.sp = 0x0001;
    assert_eq!(gb.pop(R16::HL), Ok(1));
    assert_eq!(*gb.cpu.register.sp, 0xFFFF);
}

#[test]
fn call_pushes_the_program_counter() {
    let mut gb = GameBoy::default();
    gb.cpu.register.pc.pc = 0x0200;
    gb.cpu.register.sp.sp = 0xD000;
    gb.mmu.write_u16(0x0201, 0x1234);
    assert_eq!(gb.call(Immediate16), Ok(0));
    assert_eq!(*gb.cpu.register.pc, 0x1234);
    assert_eq!(*gb.cpu.register.sp, 0xD002);
    assert_eq!(gb.mmu.read_u16(0xD000), 0x0200);
}

#[test]
fn bit_test_sets_zero_for_a_clear_bit() {
    let mut gb = GameBoy::default();
    gb.cpu.register.hl.hi = 0x80;
    gb.cpu.register.set_f(RegisterF { f: 0xD0 });
    assert_eq!(gb.bit(7, R8::H), Ok(2));
    assert_eq!(gb.cpu.register.f(), RegisterF { f: 0x30 });
    assert_eq!(gb.cpu.register.hl.hi, 0x80);
    assert_eq!(gb.bit(6, R8::H), Ok(2));
    assert_eq!(gb.cpu.register.f(), RegisterF { f: 0xB0 });
    gb.cpu.register.af.hi = 0x01;
    gb.cpu.register.set_f(RegisterF { f: 0x00 });
    assert_eq!(gb.bit(0, R8::A), Ok(2));
    assert_eq!(gb.cpu.register.f(), RegisterF { f: 0x20 });
    assert_eq!(gb.bit(1, R8::A), Ok(2));
    assert_eq!(gb.cpu.register.f(), RegisterF { f: 0xA0 });
}

#[test]
fn what_is_not_written_yet_fails_and_changes_nothing() {
    let mut gb = GameBoy::default();
    gb.cpu.register.af.hi = 0x12;
    gb.cpu.register.pc.pc = 0x0040;
    assert_eq!(gb.halt(), Err(Error::Unimplemented));
    assert_eq!(gb.stop(), Err(Error::Unimplemented));
    assert_eq!(gb.shift_left(R8::A), Err(Error::Unimplemented));
    assert_eq!(gb.shift_right(R8::A), Err(Error::Unimplemented));
    assert_eq!(gb.shift_right_logical(R8::A), Err(Error::Unimplemented));
    assert_eq!(gb.rotate_left(R8::A, Carry::With), Err(Error::Unimplemented));
    assert_eq!(gb.rotate_right(R8::A, Carry::Without), Err(Error::Unimplemented));
    assert_eq!(gb.swap(R8::A), Err(Error::Unimplemented));
    assert_eq!(gb.res(3, R8::A), Err(Error::Unimplemented));
    assert_eq!(gb.set(3, R8::A), Err(Error::Unimplemented));
    assert_eq!(gb.cpu.register.af.hi, 0x12);
    assert_eq!(*gb.cpu.register.pc, 0x0040);
}

#[test]
fn nop_and_interrupts_take_one_step() {
    let mut gb = GameBoy::default();
    assert_eq!(gb.nop(), Ok(1));
    assert_eq!(gb.set_interrupt(Interrupt::Enable), Ok(1));
    assert_eq!(gb.set_interrupt(Interrupt::Disable), Ok(1));
    assert_eq!(gb.cpu.register, Default::default());
}

#[test]
fn xor_of_a_with_itself_clears_a() {
    for a in 0..=255u8 {
        let mut gb = GameBoy::default();
        gb.cpu.register.af.hi = a;
        gb.cpu.register.set_f(RegisterF { f: 0x70 });
        assert_eq!(execute(0xAF, &mut gb), Ok(1));
        assert_eq!(gb.cpu.register.af.hi, 0);
        assert!(gb.cpu.register.f().flag(Z).as_bool());
        assert_eq!(gb.cpu.register.f(), RegisterF { f: 0x80 });
    }
}

#[test]
fn an_unmapped_opcode_is_named_in_the_error() {
    for opcode in [
        0xD3u8, 0xDB, 0xDD, 0xE3, 0xE4, 0xEB, 0xEC, 0xED, 0xF4, 0xFC, 0xFD,
    ] {
        let mut gb = GameBoy::default();
        gb.cpu.register.af.hi = 0x55;
        assert_eq!(execute(opcode, &mut gb), Err(Error::UnmappedOpcode(opcode)));
        assert_eq!(gb.cpu.register.af.hi, 0x55);
        assert_eq!(*gb.cpu.register.pc, 0);
    }
}

#[test]
fn opcodes_that_are_not_written_yet() {
    for opcode in [
        0x07u8, 0x08, 0x0F, 0x10, 0x17, 0x1F, 0x27, 0x2F, 0x37, 0x3F, 0x76, 0xC0, 0xC4, 0xC7, 0xC8,
        0xC9, 0xCC, 0xCF, 0xD0, 0xD1, 0xD4, 0xD7, 0xD8, 0xD9, 0xDC, 0xDF, 0xE1, 0xE7, 0xE8, 0xE9,
        0xEF, 0xF1, 0xF7, 0xFF,
    ] {
        let mut gb = GameBoy::default();
        assert_eq!(execute(opcode, &mut gb), Err(Error::Unimplemented));
        assert_eq!(gb.cpu.register, Default::default());
    }
}

#[test]
fn every_opcode_is_mapped_written_or_not() {
    let mut unmapped = 0;
    let mut unwritten = 0;
    let mut done = 0;
    for opcode in 0..=255u8 {
        let mut gb = GameBoy::default();
        match execute(opcode, &mut gb) {
            Ok(_) => done += 1,
            Err(Error::UnmappedOpcode(named)) => {
                assert_eq!(named, opcode);
                unmapped += 1;
            }
            Err(Error::Unimplemented) => unwritten += 1,
        }
    }
    assert_eq!(unmapped, 11);
    assert_eq!(unwritten, 35);
    assert_eq!(done, 210);
}

#[test]
fn loads_between_registers() {
    let mut gb = GameBoy::default();
    gb.cpu.register.bc.lo = 0x77;
    assert_eq!(execute(0x41, &mut gb), Ok(1));
    assert_eq!(gb.cpu.register.bc.hi, 0x77);
    assert_eq!(execute(0x78, &mut gb), Ok(1));
    assert_eq!(gb.cpu.register.af.hi, 0x77);
    gb.cpu.register.hl.set_u16(0x9000);
    assert_eq!(execute(0x77, &mut gb), Ok(1));
    assert_eq!(gb.mmu.read_u8(0x9000), 0x77);
    gb.mmu.write_u8(0x9000, 0x21);
    assert_eq!(execute(0x5E, &mut gb), Ok(1));
    assert_eq!(gb.cpu.register.de.lo, 0x21);
    assert_eq!(execute(0x6B, &mut gb), Ok(1));
    assert_eq!(gb.cpu.register.hl.lo, 0x21);
}

#[test]
fn increments_by_opcode() {
    let mut gb = GameBoy::default();
    for (opcode, expected) in [
        (0x04u8, (1u8, 0u8, 0u8, 0u8, 0u8, 0u8, 0u8)),
        (0x0C, (1, 1, 0, 0, 0, 0, 0)),
        (0x14, (1, 1, 1, 0, 0, 0, 0)),
        (0x1C, (1, 1, 1, 1, 0, 0, 0)),
        (0x24, (1, 1, 1, 1, 1, 0, 0)),
        (0x2C, (1, 1, 1, 1, 1, 1, 0)),
        (0x3C, (1, 1, 1, 1, 1, 1, 1)),
    ] {
        assert_eq!(execute(opcode, &mut gb), Ok(1));
        let r = gb.cpu.register;
        assert_eq!(
            (r.bc.hi, r.bc.lo, r.de.hi, r.de.lo, r.hl.hi, r.hl.lo, r.af.hi),
            expected
        );
    }
    for (opcode, expected) in [
        (0x05u8, (0u8, 1u8, 1u8, 1u8, 1u8, 1u8, 1u8)),
        (0x0D, (0, 0, 1, 1, 1, 1, 1)),
        (0x15, (0, 0, 0, 1, 1, 1, 1)),
        (0x1D, (0, 0, 0, 0, 1, 1, 1)),
        (0x25, (0, 0, 0, 0, 0, 1, 1)),
        (0x2D, (0, 0, 0, 0, 0, 0, 1)),
        (0x3D, (0, 0, 0, 0, 0, 0, 0)),
    ] {
        assert_eq!(execute(opcode, &mut gb), Ok(1));
        let r = gb.cpu.register;
        assert_eq!(
            (r.bc.hi, r.bc.lo, r.de.hi, r.de.lo, r.hl.hi, r.hl.lo, r.af.hi),
            expected
        );
    }
    gb.cpu.register.hl.set_u16(0x4000);
    gb.mmu.write_u8(0x4000, 0x7F);
    assert_eq!(execute(0x34, &mut gb), Ok(1));
    assert_eq!(gb.mmu.read_u8(0x4000), 0x80);
    assert_eq!(execute(0x35, &mut gb), Ok(1));
    assert_eq!(gb.mmu.read_u8(0x4000), 0x7F);
}

#[test]
fn the_increment_and_decrement_of_e() {
    let mut gb = GameBoy::default();
    gb.cpu.register.bc.lo = 0x00;
    gb.cpu.register.de.lo = 0x0F;
    gb.cpu.register.set_f(RegisterF { f: 0x00 });
    assert_eq!(execute(0x1C, &mut gb), Ok(1));
    assert_eq!(gb.cpu.register.de.lo, 0x10);
    assert_eq!(gb.cpu.register.bc.lo, 0x00);
    assert_eq!(gb.cpu.register.f(), RegisterF { f: 0x20 });
    assert_eq!(gb.cpu.register.de.hi, 0);
    assert_eq!(gb.cpu.register.af.hi, 0);
    assert_eq!(*gb.cpu.register.pc, 0);
    assert_eq!(execute(0x1D, &mut gb), Ok(1));
    assert_eq!(gb.cpu.register.de.lo, 0x0F);
    assert_eq!(gb.cpu.register.bc.lo, 0x00);
    assert_eq!(gb.cpu.register.f(), RegisterF { f: 0x60 });
}

#[test]
fn loads_through_hl_with_a_step() {
    let mut gb = GameBoy::default();
    gb.cpu.register.hl.set_u16(0x8000);
    gb.cpu.register.af.hi = 0xAA;
    assert_eq!(execute(0x22, &mut gb), Ok(1));
    assert_eq!(gb.mmu.read_u8(0x8000), 0xAA);
    assert_eq!(gb.cpu.register.hl.as_u16(), 0x8001);
    assert_eq!(execute(0x32, &mut gb), Ok(1));
    assert_eq!(gb.mmu.read_u8(0x8001), 0xAA);
    assert_eq!(gb.cpu.register.hl.as_u16(), 0x8000);
    gb.mmu.write_u8(0x8000, 0x11);
    gb.mmu.write_u8(0x8001, 0x22);
    assert_eq!(execute(0x2A, &mut gb), Ok(1));
    assert_eq!(gb.cpu.register.af.hi, 0x11);
    assert_eq!(gb.cpu.register.hl.as_u16(), 0x8001);
    assert_eq!(execute(0x3A, &mut gb), Ok(1));
    assert_eq!(gb.cpu.register.af.hi, 0x22);
    assert_eq!(gb.cpu.register.hl.as_u16(), 0x8000);
}

#[test]
fn the_high_page() {
    let mut gb = GameBoy::default();
    gb.cpu.register.pc.pc = 0x0150;
    gb.mmu.write_u8(0x0151, 0x80);
    gb.cpu.register.af.hi = 0x3C;
    assert_eq!(execute(0xE0, &mut gb), Ok(1));
    assert_eq!(gb.mmu.read_u8(0xFF80), 0x3C);
    gb.cpu.register.af.hi = 0;
    assert_eq!(execute(0xF0, &mut gb), Ok(1));
    assert_eq!(gb.cpu.register.af.hi, 0x3C);
    gb.cpu.register.bc.lo = 0x10;
    gb.cpu.register.af.hi = 0x99;
    assert_eq!(execute(0xE2, &mut gb), Ok(1));
    assert_eq!(gb.mmu.read_u8(0xFF10), 0x99);
    gb.cpu.register.af.hi = 0;
    assert_eq!(execute(0xF2, &mut gb), Ok(1));
    assert_eq!(gb.cpu.register.af.hi, 0x99);
}

#[test]
fn the_stack_pointer_plus_a_byte() {
    let mut gb = GameBoy::default();
    gb.cpu.register.pc.pc = 0x0010;
    gb.mmu.write_u8(0x0011, 0x22);
    gb.cpu.register.sp.sp = 0x1100;
    assert_eq!(execute(0xF8, &mut gb), Ok(1));
    assert_eq!(gb.cpu.register.hl.as_u16(), 0x1122);
    assert_eq!(execute(0xF9, &mut gb), Ok(1));
    assert_eq!(*gb.cpu.register.sp, 0x1122);
}

#[test]
fn arithmetic_on_an_immediate() {
    let mut gb = GameBoy::default();
    gb.cpu.register.pc.pc = 0x0010;
    gb.mmu.write_u8(0x0011, 0x0F);
    gb.cpu.register.af.hi = 0x01;
    assert_eq!(execute(0xC6, &mut gb), Ok(1));
    assert_eq!(gb.cpu.register.af.hi, 0x10);
    assert_eq!(gb.cpu.register.f(), RegisterF { f: 0x20 });
    assert_eq!(execute(0xD6, &mut gb), Ok(1));
    assert_eq!(gb.cpu.register.af.hi, 0x01);
    assert_eq!(gb.cpu.register.f(), RegisterF { f: 0x60 });
    assert_eq!(execute(0xE6, &mut gb), Ok(1));
    assert_eq!(gb.cpu.register.af.hi, 0x01);
    assert_eq!(execute(0xEE, &mut gb), Ok(1));
    assert_eq!(gb.cpu.register.af.hi, 0x0E);
    assert_eq!(execute(0xF6, &mut gb), Ok(1));
    assert_eq!(gb.cpu.register.af.hi, 0x0F);
    assert_eq!(execute(0xFE, &mut gb), Ok(1));
    assert_eq!(gb.cpu.register.af.hi, 0x0F);
    assert_eq!(gb.cpu.register.f(), RegisterF { f: 0xC0 });
    gb.cpu.register.set_f(RegisterF { f: 0x10 });
    assert_eq!(execute(0xCE, &mut gb), Ok(1));
    assert_eq!(gb.cpu.register.af.hi, 0x1F);
    gb.cpu.register.set_f(RegisterF { f: 0x10 });
    assert_eq!(execute(0xDE, &mut gb), Ok(1));
    assert_eq!(gb.cpu.register.af.hi, 0x0F);
}

#[test]
fn the_second_table_tests_bits() {
    let mut gb = GameBoy::default();
    gb.cpu.register.pc.pc = 0x0100;
    gb.mmu.write_u8(0x0101, 0x7C);
    gb.cpu.register.hl.hi = 0x80;
    assert_eq!(callback(&mut gb), Ok(2));
    assert_eq!(*gb.cpu.register.pc, 0x0101);
    assert_eq!(gb.cpu.register.f(), RegisterF { f: 0x20 });
    gb.cpu.register.pc.pc = 0x0100;
    gb.mmu.write_u8(0x0101, 0x46);
    gb.cpu.register.hl.set_u16(0x5000);
    gb.mmu.write_u8(0x5000, 0xFE);
    assert_eq!(execute(0xCB, &mut gb), Ok(2));
    assert_eq!(gb.cpu.register.f(), RegisterF { f: 0xA0 });
    assert_eq!(gb.mmu.read_u8(0x5000), 0xFE);
}

#[test]
fn the_rest_of_the_second_table_is_not_written_yet() {
    for opcode in [0x00u8, 0x17, 0x27, 0x37, 0x3F, 0x80, 0xBF, 0xC0, 0xFF] {
        let mut gb = GameBoy::default();
        gb.cpu.register.pc.pc = 0x0100;
        gb.mmu.write_u8(0x0101, opcode);
        assert_eq!(callback(&mut gb), Err(Error::Unimplemented));
        assert_eq!(*gb.cpu.register.pc, 0x0101);
    }
    let mut written = 0;
    for opcode in 0..=255u8 {
        let mut gb = GameBoy::default();
        gb.mmu.write_u8(0x0001, opcode);
        if callback(&mut gb) == Ok(2) {
            written += 1;
        }
    }
    assert_eq!(written, 64);
}
