use rustual_boy::instruction::{branch_displacement, format_vi, sign_extend_imm5, Opcode};
use rustual_boy::nvc::{Bus, BusAccess, Fault, Nvc, Width};
use rustual_boy::psw::Psw;
use std::collections::HashMap;

/// A flat little-endian memory that records the cycles it was told of.
struct TestBus {
    bytes: HashMap<u32, u8>,
    cycles: Vec<u32>,
}

impl TestBus {
    fn new() -> TestBus {
        TestBus { bytes: HashMap::new(), cycles: Vec::new() }
    }

    fn with_program(addr: u32, halfwords: &[u16]) -> TestBus {
        let mut bus = TestBus::new();
        let mut a = addr;
        for hw in halfwords {
            bus.write_halfword(a, *hw);
            a = a.wrapping_add(2);
        }
        bus
    }

    fn byte(&self, addr: u32) -> u8 {
        *self.bytes.get(&addr).unwrap_or(&0)
    }
}

impl Bus for TestBus {
    fn read_byte(&mut self, addr: u32) -> u8 {
        self.byte(addr)
    }

    fn read_halfword(&mut self, addr: u32) -> u16 {
        (self.byte(addr) as u16) | ((self.byte(addr.wrapping_add(1)) as u16) << 8)
    }

    fn read_word(&mut self, addr: u32) -> u32 {
        (self.read_halfword(addr) as u32) | ((self.read_halfword(addr.wrapping_add(2)) as u32) << 16)
    }

    fn write_byte(&mut self, addr: u32, value: u8) {
        self.bytes.insert(addr, value);
    }

    fn write_halfword(&mut self, addr: u32, value: u16) {
        self.write_byte(addr, value as u8);
        self.write_byte(addr.wrapping_add(1), (value >> 8) as u8);
    }

    fn write_word(&mut self, addr: u32, value: u32) {
        self.write_halfword(addr, value as u16);
        self.write_halfword(addr.wrapping_add(2), (value >> 16) as u16);
    }

    fn cycles(&mut self, cycles: u32) {
        self.cycles.push(cycles);
    }
}

const RESET: u32 = 0xffff_fff0;

fn enc(bits: u16, reg2: u16, low: u16) -> u16 {
    (bits << 10) | (reg2 << 5) | low
}

fn bcond(cond: u16, disp9: u16) -> u16 {
    0x8000 | (cond << 9) | disp9
}

#[test]
fn gpr_write_then_read() {
    let mut nvc = Nvc::new();
    for i in 1..32usize {
        nvc.set_reg_gpr(i, 0x1234_0000 + i as u32);
    }
    for i in 1..32usize {
        assert_eq!(nvc.reg_gpr(i), 0x1234_0000 + i as u32);
    }
    nvc.set_reg_gpr(0, 0xdead_beef);
    assert_eq!(nvc.reg_gpr(0), 0);
    nvc.set_reg_gpr(31, 0xffff_ffff);
    assert_eq!(nvc.reg_gpr(31), 0xffff_ffff);
    assert_eq!(nvc.reg_gpr(30), 0x1234_0000 + 30);
}

#[test]
fn psw_round_trip_on_used_bits() {
    let mut nvc = Nvc::new();
    for v in [0u32, 0x1, 0x2, 0x4, 0x8, 0x3ff, 0xf000, 0xf_0000, 0xf_f3ff, 0x5_a155] {
        nvc.set_reg_psw(v);
        assert_eq!(nvc.reg_psw(), v);
    }
}

#[test]
fn psw_unused_bits_read_back_clear() {
    let mut nvc = Nvc::new();
    nvc.set_reg_psw(0xffff_ffff);
    assert_eq!(nvc.reg_psw(), 0x000f_f3ff);
    nvc.set_reg_psw(0x0000_0c00);
    assert_eq!(nvc.reg_psw(), 0);
}

#[test]
fn psw_unpack_fields() {
    let p = Psw::unpack(0x0003_9009);
    assert!(p.zero && p.carry && p.interrupt_disable && p.nmi_pending);
    assert!(!p.sign && !p.overflow && !p.address_trap_enable && !p.exception_pending);
    assert_eq!(p.interrupt_mask_level, 3);
    assert_eq!(p.pack(), 0x0003_9009);
    assert_eq!(Psw::reset().pack(), 0x8000);
}

#[test]
fn reset_state() {
    let nvc = Nvc::new();
    assert_eq!(nvc.reg_psw(), 0x8000);
    assert_eq!(nvc.reg_pc(), 0xffff_fff0);
    for i in 0..32usize {
        assert_eq!(nvc.reg_gpr(i), 0);
    }
}

#[test]
fn subtract_zero_minus_one() {
    let mut nvc = Nvc::new();
    nvc.set_reg_gpr(1, 1);
    nvc.set_reg_gpr(2, 0);
    let mut bus = TestBus::with_program(RESET, &[enc(0b000010, 2, 1)]);
    assert_eq!(nvc.step(&mut bus), Ok(()));
    assert_eq!(nvc.reg_gpr(2), 0xffff_ffff);
    let psw = Psw::unpack(nvc.reg_psw());
    assert!(psw.carry);
    assert!(!psw.zero);
    assert!(psw.sign);
    assert!(!psw.overflow);
    assert_eq!(nvc.reg_pc(), RESET + 2);
    assert_eq!(bus.cycles, vec![1]);
}

#[test]
fn subtract_signed_overflow() {
    let mut nvc = Nvc::new();
    nvc.set_reg_gpr(1, 1);
    nvc.set_reg_gpr(2, 0x8000_0000);
    let mut bus = TestBus::with_program(RESET, &[enc(0b000010, 2, 1)]);
    assert_eq!(nvc.step(&mut bus), Ok(()));
    assert_eq!(nvc.reg_gpr(2), 0x7fff_ffff);
    let psw = Psw::unpack(nvc.reg_psw());
    assert!(psw.overflow);
    assert!(!psw.carry);
    assert!(!psw.sign);
    assert!(!psw.zero);
}

#[test]
fn subtract_equal_sets_zero() {
    let mut nvc = Nvc::new();
    nvc.set_reg_gpr(3, 77);
    nvc.set_reg_gpr(4, 77);
    let mut bus = TestBus::with_program(RESET, &[enc(0b000010, 4, 3)]);
    assert_eq!(nvc.step(&mut bus), Ok(()));
    assert_eq!(nvc.reg_gpr(4), 0);
    assert_eq!(nvc.reg_psw(), 0x8001);
}

#[test]
fn imm5_sign_extension() {
    assert_eq!(sign_extend_imm5(0x1f), 0xffff_ffff);
    assert_eq!(sign_extend_imm5(0x0f), 0x0000_000f);
    assert_eq!(sign_extend_imm5(0x10), 0xffff_fff0);
    let mut nvc = Nvc::new();
    let mut bus = TestBus::with_program(RESET, &[enc(0b010000, 5, 0x1f), enc(0b010000, 6, 0x0f)]);
    assert_eq!(nvc.step(&mut bus), Ok(()));
    assert_eq!(nvc.step(&mut bus), Ok(()));
    assert_eq!(nvc.reg_gpr(5), 0xffff_ffff);
    assert_eq!(nvc.reg_gpr(6), 0x0000_000f);
}

#[test]
fn branch_displacement_backwards() {
    assert_eq!(branch_displacement(0x01ff), 0xffff_ffff);
    assert_eq!(branch_displacement(bcond(5, 0x1ff)), 0xffff_ffff);
    assert_eq!(branch_displacement(0x00ff), 0x0000_00ff);
    assert_eq!(branch_displacement(0x0100), 0xffff_ff00);
}

#[test]
fn taken_branch_from_0x1000() {
    let mut nvc = Nvc::new();
    nvc.set_reg_gpr(1, 0x1000);
    let mut bus = TestBus::with_program(RESET, &[enc(0b000110, 0, 1)]);
    bus.write_halfword(0x1000, bcond(5, 0x1ff));
    assert_eq!(nvc.step(&mut bus), Ok(()));
    assert_eq!(nvc.reg_pc(), 0x1000);
    assert_eq!(nvc.step(&mut bus), Ok(()));
    assert_eq!(nvc.reg_pc(), 0x0fff);
    assert_eq!(bus.cycles, vec![3, 3]);
}

#[test]
fn untaken_branch_falls_through() {
    let mut nvc = Nvc::new();
    let mut bus = TestBus::with_program(RESET, &[bcond(2, 0x010)]);
    assert_eq!(nvc.step(&mut bus), Ok(()));
    assert_eq!(nvc.reg_pc(), RESET + 2);
    assert_eq!(bus.cycles, vec![1]);
}

#[test]
fn less_or_equal_truth_table() {
    for sign in [false, true] {
        for overflow in [false, true] {
            for zero in [false, true] {
                let mut psw = Psw::reset();
                psw.sign = sign;
                psw.overflow = overflow;
                psw.zero = zero;
                assert_eq!(Nvc::branch_taken(Opcode::Ble, &psw), (sign ^ overflow) != zero);
                assert_eq!(Nvc::branch_taken(Opcode::Bgt, &psw), !((sign ^ overflow) || zero));

                let mut nvc = Nvc::new();
                nvc.set_reg_psw(psw.pack());
                let mut bus = TestBus::with_program(RESET, &[bcond(7, 0x020)]);
                assert_eq!(nvc.step(&mut bus), Ok(()));
                let expected = if (sign ^ overflow) != zero { RESET.wrapping_add(0x20) } else { RESET + 2 };
                assert_eq!(nvc.reg_pc(), expected);
            }
        }
    }
}

#[test]
fn word_store_then_load() {
    let mut nvc = Nvc::new();
    nvc.set_reg_gpr(1, 0x0500_0000);
    nvc.set_reg_gpr(2, 0xcafe_f00d);
    let mut bus = TestBus::with_program(
        RESET,
        &[enc(0b110111, 2, 1), 0x0010, enc(0b110011, 3, 1), 0x0010],
    );
    assert_eq!(nvc.step(&mut bus), Ok(()));
    assert_eq!(bus.read_word(0x0500_0010), 0xcafe_f00d);
    assert_eq!(nvc.step(&mut bus), Ok(()));
    assert_eq!(nvc.reg_gpr(3), 0xcafe_f00d);
    assert_eq!(nvc.reg_pc(), RESET.wrapping_add(8));
    assert_eq!(bus.cycles, vec![4, 5]);
}

#[test]
fn byte_and_halfword_loads_sign_extend() {
    let mut nvc = Nvc::new();
    nvc.set_reg_gpr(1, 0x2000);
    let mut bus = TestBus::with_program(
        RESET,
        &[enc(0b110000, 2, 1), 0x0000, enc(0b110001, 3, 1), 0x0002, enc(0b110000, 4, 1), 0x0004],
    );
    bus.write_byte(0x2000, 0x80);
    bus.write_halfword(0x2002, 0x8001);
    bus.write_byte(0x2004, 0x7f);
    assert_eq!(nvc.step(&mut bus), Ok(()));
    assert_eq!(nvc.step(&mut bus), Ok(()));
    assert_eq!(nvc.step(&mut bus), Ok(()));
    assert_eq!(nvc.reg_gpr(2), 0xffff_ff80);
    assert_eq!(nvc.reg_gpr(3), 0xffff_8001);
    assert_eq!(nvc.reg_gpr(4), 0x0000_007f);
}

#[test]
fn narrow_stores_truncate_with_negative_displacement() {
    let mut nvc = Nvc::new();
    nvc.set_reg_gpr(1, 0x3010);
    nvc.set_reg_gpr(2, 0x1234_5678);
    let mut bus = TestBus::with_program(
        RESET,
        &[enc(0b110100, 2, 1), 0xfff0, enc(0b110101, 2, 1), 0xfff2, enc(0b111111, 2, 1), 0x0000],
    );
    assert_eq!(nvc.step(&mut bus), Ok(()));
    assert_eq!(nvc.step(&mut bus), Ok(()));
    assert_eq!(nvc.step(&mut bus), Ok(()));
    assert_eq!(bus.byte(0x3000), 0x78);
    assert_eq!(bus.byte(0x3001), 0x00);
    assert_eq!(bus.read_halfword(0x3002), 0x5678);
    assert_eq!(bus.read_word(0x3010), 0x1234_5678);
}

#[test]
fn io_loads_match_memory_loads() {
    let mut nvc = Nvc::new();
    nvc.set_reg_gpr(1, 0x4000);
    let mut bus = TestBus::with_program(
        RESET,
        &[enc(0b111000, 2, 1), 0x0000, enc(0b111001, 3, 1), 0x0000, enc(0b111011, 4, 1), 0x0000],
    );
    bus.write_word(0x4000, 0x8899_aabb);
    for _ in 0..3 {
        assert_eq!(nvc.step(&mut bus), Ok(()));
    }
    assert_eq!(nvc.reg_gpr(2), 0xffff_ffbb);
    assert_eq!(nvc.reg_gpr(3), 0xffff_aabb);
    assert_eq!(nvc.reg_gpr(4), 0x8899_aabb);
}

#[test]
fn nop_only_advances_pc() {
    let mut nvc = Nvc::new();
    nvc.set_reg_gpr(7, 99);
    nvc.set_reg_psw(0x0002_100f);
    let mut bus = TestBus::with_program(RESET, &[bcond(13, 0x1ff)]);
    assert_eq!(nvc.step(&mut bus), Ok(()));
    assert_eq!(nvc.reg_pc(), RESET + 2);
    assert_eq!(nvc.reg_psw(), 0x0002_100f);
    assert_eq!(nvc.reg_gpr(7), 99);
    assert_eq!(bus.cycles, vec![1]);
}

#[test]
fn mov_jmp_movea_movhi() {
    let mut nvc = Nvc::new();
    nvc.set_reg_gpr(1, 0x0001_0000);
    let mut bus = TestBus::with_program(
        RESET,
        &[enc(0b000000, 2, 1), enc(0b101000, 3, 1), 0xffff, enc(0b101111, 4, 1), 0x8000, enc(0b000110, 0, 3)],
    );
    for _ in 0..4 {
        assert_eq!(nvc.step(&mut bus), Ok(()));
    }
    assert_eq!(nvc.reg_gpr(2), 0x0001_0000);
    assert_eq!(nvc.reg_gpr(3), 0x0000_ffff);
    assert_eq!(nvc.reg_gpr(4), 0x8001_0000);
    assert_eq!(nvc.reg_pc(), 0x0000_ffff);
}

#[test]
fn ldsr_cli_sei() {
    let mut nvc = Nvc::new();
    nvc.set_reg_gpr(1, 0x0005_0003);
    let mut bus = TestBus::with_program(RESET, &[enc(0b011100, 1, 5), enc(0b011110, 0, 0), enc(0b010110, 0, 0)]);
    assert_eq!(nvc.step(&mut bus), Ok(()));
    assert_eq!(nvc.reg_psw(), 0x0005_0003);
    assert_eq!(nvc.step(&mut bus), Ok(()));
    assert_eq!(nvc.reg_psw(), 0x0005_1003);
    assert_eq!(nvc.step(&mut bus), Ok(()));
    assert_eq!(nvc.reg_psw(), 0x0005_0003);
    assert_eq!(bus.cycles, vec![8, 12, 12]);
}

#[test]
fn ldsr_to_other_system_register_faults() {
    let mut nvc = Nvc::new();
    nvc.set_reg_gpr(1, 0xffff);
    let mut bus = TestBus::with_program(RESET, &[enc(0b011100, 1, 4)]);
    assert_eq!(nvc.step(&mut bus), Err(Fault::UnimplementedSystemRegister(4)));
    assert_eq!(nvc.reg_pc(), RESET);
    assert_eq!(nvc.reg_psw(), 0x8000);
    assert!(bus.cycles.is_empty());
}

#[test]
fn unknown_opcode_faults() {
    let mut nvc = Nvc::new();
    let mut bus = TestBus::with_program(RESET, &[enc(0b000001, 1, 2)]);
    assert_eq!(nvc.step(&mut bus), Err(Fault::UnknownOpcode(0x0422)));
    assert_eq!(nvc.reg_pc(), RESET);
    assert!(bus.cycles.is_empty());
}

#[test]
fn decoder_table() {
    assert_eq!(Opcode::from_halfword(0x0000), Some(Opcode::MovReg));
    assert_eq!(Opcode::from_halfword(0x9a00), Some(Opcode::Nop));
    assert_eq!(Opcode::from_halfword(0x8e00), Some(Opcode::Ble));
    assert_eq!(Opcode::from_halfword(0xfc00), Some(Opcode::Outw));
    assert_eq!(Opcode::from_halfword(0xf800), None);
    assert!(Opcode::Ldw.instruction_format().has_second_halfword());
    assert!(!Opcode::Sub.instruction_format().has_second_halfword());
    assert_eq!(format_vi(0x0443, 0xfffe), (3, 2, 0xffff_fffe));
}

#[test]
fn execute_reports_memory_access() {
    let mut nvc = Nvc::new();
    nvc.set_reg_gpr(1, 0x100);
    nvc.set_reg_gpr(2, 0x1ff);
    let out = nvc.execute(Opcode::Stb, enc(0b110100, 2, 1), 0x0004).unwrap();
    assert_eq!(out.access, BusAccess::Store { width: Width::Byte, addr: 0x104, value: 0xff });
    assert_eq!(out.cycles, 4);
    let mut nvc2 = Nvc::new();
    nvc2.complete_load(Width::Halfword, 9, 0xffff);
    assert_eq!(nvc2.reg_gpr(9), 0xffff_ffff);
}
