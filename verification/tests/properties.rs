use cpu_core::cpu::Cpu;
use cpu_core::instruction::ArithmeticTarget;
use cpu_core::instruction::Instruction;
use cpu_core::register_bank::Register;
use cpu_core::register_bank::RegisterBank;
use cpu_core::register_bank::RegisterWriteError;

fn cpu_with(a: u8, reg: Register, v: u8) -> Cpu {
    let mut bank = RegisterBank::default();
    bank.write_register(Register::A, a).unwrap();
    bank.write_register(reg, v).unwrap();
    Cpu { registers: bank }
}

fn flags_of(cpu: &Cpu) -> (bool, bool, bool, bool) {
    (
        cpu.registers.has_zero_bit(),
        cpu.registers.has_subtraction_bit(),
        cpu.registers.has_half_carry_bit(),
        cpu.registers.has_carry_bit(),
    )
}

#[test]
fn write_read_round_trip_every_plain_register() {
    let plain = [
        Register::A,
        Register::B,
        Register::C,
        Register::D,
        Register::E,
        Register::H,
        Register::L,
    ];
    for &r in plain.iter() {
        for &v in [0x00u8, 0x01, 0x0F, 0x10, 0x7F, 0x80, 0xAB, 0xFF].iter() {
            let mut bank = RegisterBank::default();
            assert!(bank.write_register(r, v).is_ok());
            assert_eq!(bank.read(r), v);
        }
    }
}

#[test]
fn flag_register_accepts_exactly_zero_low_nibble() {
    for v in 0..=255u8 {
        let mut bank = RegisterBank::default();
        bank.write_register(Register::F, 0xA0).unwrap();
        let res = bank.write_register(Register::F, v);
        if v & 0x0F == 0 {
            assert!(res.is_ok());
            assert_eq!(bank.read(Register::F), v);
        } else {
            assert!(matches!(res, Err(RegisterWriteError::InvalidFlagValue)));
            assert_eq!(bank.read(Register::F), 0xA0, "F must be untouched on failure");
        }
    }
}

#[test]
fn flag_write_invalid_low_nibble_leaves_f_unchanged() {
    let mut bank = RegisterBank::default();
    let res = bank.write_register(Register::F, 0x0F);
    assert!(matches!(res, Err(RegisterWriteError::InvalidFlagValue)));
    assert_eq!(bank.read(Register::F), 0x00);
}

#[test]
fn flag_write_valid_upper_nibble() {
    let mut bank = RegisterBank::default();
    assert!(bank.write_register(Register::F, 0xF0).is_ok());
    assert_eq!(bank.read(Register::F), 0xF0);
    assert!(bank.has_zero_bit());
}

#[test]
fn pair_round_trip_splits_into_bytes() {
    let cases = [0x0000u16, 0x0001, 0x00FF, 0x0100, 0x11AA, 0x8000, 0xFFFF];
    for &v in cases.iter() {
        let hi = (v >> 8) as u8;
        let lo = (v & 0xFF) as u8;

        let mut bank = RegisterBank::default();
        bank.write_bc(v);
        assert_eq!(bank.read_bc(), v);
        assert_eq!(bank.read(Register::B), hi);
        assert_eq!(bank.read(Register::C), lo);

        let mut bank = RegisterBank::default();
        bank.write_de(v);
        assert_eq!(bank.read_de(), v);
        assert_eq!(bank.read(Register::D), hi);
        assert_eq!(bank.read(Register::E), lo);

        let mut bank = RegisterBank::default();
        bank.write_hl(v);
        assert_eq!(bank.read_hl(), v);
        assert_eq!(bank.read(Register::H), hi);
        assert_eq!(bank.read(Register::L), lo);
    }
}

#[test]
fn flag_bits_are_independent() {
    let mut bank = RegisterBank::default();
    bank.set_zero_bit(true);
    bank.set_subtraction_bit(true);
    bank.set_half_carry_bit(true);
    bank.set_carry_bit(true);
    assert_eq!(bank.read(Register::F), 0xF0);

    bank.set_subtraction_bit(false);
    assert!(bank.has_zero_bit());
    assert!(!bank.has_subtraction_bit());
    assert!(bank.has_half_carry_bit());
    assert!(bank.has_carry_bit());
    assert_eq!(bank.read(Register::F) & 0x0F, 0);

    bank.set_zero_bit(false);
    bank.set_half_carry_bit(false);
    assert!(!bank.has_zero_bit());
    assert!(!bank.has_half_carry_bit());
    assert!(bank.has_carry_bit());
    assert_eq!(bank.read(Register::F), 0x10);
}

#[test]
fn add_matches_formula_for_sampled_operands() {
    for &a in [0x00u8, 0x01, 0x0F, 0x10, 0x7F, 0x80, 0xF0, 0xFF].iter() {
        for &v in [0x00u8, 0x01, 0x0F, 0x10, 0x55, 0x80, 0xFF].iter() {
            let mut cpu = cpu_with(a, Register::B, v);
            cpu.exec(Instruction::Add(ArithmeticTarget::B));
            let sum = (a as u16 + v as u16) % 256;
            assert_eq!(cpu.registers.read(Register::A) as u16, sum);
            let (z, s, h, c) = flags_of(&cpu);
            assert_eq!(z, sum == 0);
            assert!(!s);
            assert_eq!(h, (a & 0xF) + (v & 0xF) > 0xF);
            assert_eq!(c, a as u16 + v as u16 > 255);
        }
    }
}

#[test]
fn add_overflow_sets_zero_carry_half() {
    let mut cpu = cpu_with(0xFF, Register::B, 0x01);
    cpu.exec(Instruction::Add(ArithmeticTarget::B));
    assert_eq!(cpu.registers.read(Register::A), 0x00);
    assert_eq!(flags_of(&cpu), (true, false, true, true));
}

#[test]
fn add_low_nibble_overflow_sets_half_carry_only() {
    let mut cpu = cpu_with(0x0F, Register::B, 0x01);
    cpu.exec(Instruction::Add(ArithmeticTarget::B));
    assert_eq!(cpu.registers.read(Register::A), 0x10);
    assert_eq!(flags_of(&cpu), (false, false, true, false));
}

#[test]
fn add_without_any_carry_clears_all_flags() {
    let mut cpu = cpu_with(0x10, Register::C, 0x10);
    cpu.exec(Instruction::Add(ArithmeticTarget::C));
    assert_eq!(cpu.registers.read(Register::A), 0x20);
    assert_eq!(flags_of(&cpu), (false, false, false, false));
}

#[test]
fn add_accumulator_to_itself_doubles_it() {
    let mut cpu = cpu_with(0x80, Register::A, 0x80);
    cpu.exec(Instruction::Add(ArithmeticTarget::A));
    assert_eq!(cpu.registers.read(Register::A), 0x00);
    assert_eq!(flags_of(&cpu), (true, false, false, true));
}

#[test]
fn add_clears_a_previously_set_subtraction_flag() {
    let mut cpu = cpu_with(0x01, Register::D, 0x02);
    cpu.registers.set_subtraction_bit(true);
    cpu.exec(Instruction::Add(ArithmeticTarget::D));
    assert_eq!(cpu.registers.read(Register::A), 0x03);
    assert!(!cpu.registers.has_subtraction_bit());
}

#[test]
fn exec_is_deterministic_from_equal_snapshots() {
    let registers = [
        Register::A,
        Register::B,
        Register::C,
        Register::D,
        Register::E,
        Register::F,
        Register::H,
        Register::L,
    ];
    let mut first = cpu_with(0x9C, Register::E, 0x77);
    let mut second = cpu_with(0x9C, Register::E, 0x77);
    first.exec(Instruction::Add(ArithmeticTarget::E));
    second.exec(Instruction::Add(ArithmeticTarget::E));
    for &r in registers.iter() {
        assert_eq!(first.registers.read(r), second.registers.read(r));
    }
}

#[test]
fn exec_touches_only_accumulator_and_flags() {
    let mut bank = RegisterBank::default();
    bank.write_register(Register::A, 0x21).unwrap();
    bank.write_register(Register::B, 0x34).unwrap();
    bank.write_register(Register::C, 0x56).unwrap();
    bank.write_register(Register::D, 0x78).unwrap();
    bank.write_register(Register::E, 0x9A).unwrap();
    bank.write_register(Register::H, 0xBC).unwrap();
    bank.write_register(Register::L, 0xDE).unwrap();
    let mut cpu = Cpu { registers: bank };
    cpu.exec(Instruction::Add(ArithmeticTarget::H));
    assert_eq!(cpu.registers.read(Register::A), 0xDD);
    assert_eq!(cpu.registers.read(Register::B), 0x34);
    assert_eq!(cpu.registers.read(Register::C), 0x56);
    assert_eq!(cpu.registers.read(Register::D), 0x78);
    assert_eq!(cpu.registers.read(Register::E), 0x9A);
    assert_eq!(cpu.registers.read(Register::H), 0xBC);
    assert_eq!(cpu.registers.read(Register::L), 0xDE);
}
