use gb_cpu::registers::{join_bytes, split_bytes, FlagsRegister, Register, RegisterPair, Registers};

fn sample() -> Registers {
    let mut reg = Registers::new();
    reg.a = 0x12;
    reg.f = 0x23.into();
    reg.b = 0x34;
    reg.c = 0x45;
    reg.d = 0x56;
    reg.e = 0x67;
    reg.h = 0x78;
    reg.l = 0x89;
    reg
}

#[test]
fn read_combined_registers() {
    let mut reg = Registers::new();

    reg.a = 0x12;
    reg.f = 0x23.into();
    reg.b = 0x34;
    reg.c = 0x45;
    reg.d = 0x56;
    reg.e = 0x67;
    reg.h = 0x78;
    reg.l = 0x89;

    assert_eq!(reg.af(), 0x1220);
    assert_eq!(reg.bc(), 0x3445);
    assert_eq!(reg.de(), 0x5667);
    assert_eq!(reg.hl(), 0x7889);
}

#[test]
fn write_combined_registers() {
    let mut reg = Registers::new();

    reg.set_af(0x1234);
    reg.set_bc(0x2345);
    reg.set_de(0x3456);
    reg.set_hl(0x4567);

    assert_eq!(reg.a, 0x12);
    assert_eq!(u8::from(reg.f), 0x30);
    assert_eq!(reg.b, 0x23);
    assert_eq!(reg.c, 0x45);
    assert_eq!(reg.d, 0x34);
    assert_eq!(reg.e, 0x56);
    assert_eq!(reg.h, 0x45);
    assert_eq!(reg.l, 0x67);
}

#[test]
fn flags_round_trip_for_all_sixteen_combinations() {
    for bits in 0u8..16 {
        let flags = FlagsRegister {
            zero: bits & 8 != 0,
            subtract: bits & 4 != 0,
            half_carry: bits & 2 != 0,
            carry: bits & 1 != 0,
        };
        let byte = flags.to_byte();
        assert_eq!(byte & 0x0F, 0);
        assert_eq!(byte, bits << 4);
        assert_eq!(FlagsRegister::from_byte(byte), flags);
        assert_eq!(FlagsRegister::from(u8::from(flags)), flags);
    }
}

#[test]
fn each_flag_has_its_own_bit() {
    let none = FlagsRegister { zero: false, subtract: false, half_carry: false, carry: false };
    assert_eq!(none.to_byte(), 0x00);
    assert_eq!(FlagsRegister { zero: true, ..none }.to_byte(), 0x80);
    assert_eq!(FlagsRegister { subtract: true, ..none }.to_byte(), 0x40);
    assert_eq!(FlagsRegister { half_carry: true, ..none }.to_byte(), 0x20);
    assert_eq!(FlagsRegister { carry: true, ..none }.to_byte(), 0x10);
    assert_eq!(FlagsRegister { zero: true, subtract: true, half_carry: true, carry: true }.to_byte(), 0xF0);
}

#[test]
fn unpacking_ignores_the_low_nibble() {
    for byte in 0u8..=255 {
        let flags = FlagsRegister::from_byte(byte);
        assert_eq!(flags, FlagsRegister::from_byte(byte & 0xF0));
        assert_eq!(flags.to_byte(), byte & 0xF0);
        assert_eq!(flags.zero, byte & 0x80 != 0);
        assert_eq!(flags.subtract, byte & 0x40 != 0);
        assert_eq!(flags.half_carry, byte & 0x20 != 0);
        assert_eq!(flags.carry, byte & 0x10 != 0);
    }
}

#[test]
fn default_flags_are_all_clear() {
    let flags = FlagsRegister::default();
    assert_eq!(flags, FlagsRegister { zero: false, subtract: false, half_carry: false, carry: false });
    assert_eq!(flags.to_byte(), 0);
}

#[test]
fn new_registers_are_zero() {
    let mut reg = Registers::new();
    assert_eq!((reg.a, reg.b, reg.c, reg.d, reg.e, reg.h, reg.l), (0, 0, 0, 0, 0, 0, 0));
    assert_eq!(reg.f, FlagsRegister::default());
    assert_eq!(reg.get_pair(RegisterPair::AF), 0);
    assert_eq!(reg.get_pair(RegisterPair::BC), 0);
    assert_eq!(reg.get_pair(RegisterPair::DE), 0);
    assert_eq!(reg.get_pair(RegisterPair::HL), 0);
}

#[test]
fn af_round_trip_masks_the_low_nibble() {
    let mut reg = sample();
    for x in 0u16..=0xFFFF {
        reg.set_af(x);
        assert_eq!(reg.af(), x & 0xFFF0);
    }
    assert_eq!((reg.b, reg.c, reg.d, reg.e, reg.h, reg.l), (0x34, 0x45, 0x56, 0x67, 0x78, 0x89));
}

#[test]
fn bc_de_hl_round_trip_exactly() {
    let mut reg = sample();
    for x in 0u16..=0xFFFF {
        reg.set_bc(x);
        reg.set_de(x.wrapping_add(1));
        reg.set_hl(x.wrapping_add(2));
        assert_eq!(reg.bc(), x);
        assert_eq!(reg.de(), x.wrapping_add(1));
        assert_eq!(reg.hl(), x.wrapping_add(2));
    }
    assert_eq!(reg.af(), 0x1220);
}

#[test]
fn af_never_shows_a_low_nibble() {
    let mut reg = Registers::new();
    reg.a = 0xAB;
    reg.f = FlagsRegister::from_byte(0xFF);
    assert_eq!(reg.af(), 0xABF0);
    reg.set_af(0xFFFF);
    assert_eq!(reg.af(), 0xFFF0);
    assert_eq!(reg.get(Register::F), 0xF0);
}

#[test]
fn hli_wraps_from_ffff_to_zero() {
    let mut reg = Registers::new();
    reg.set_hl(0xFFFF);
    assert_eq!(reg.get_pair(RegisterPair::HLI), 0xFFFF);
    assert_eq!(reg.hl(), 0x0000);

    reg.set_hl(0xFFFF);
    assert_eq!(reg.hli(), 0xFFFF);
    assert_eq!(reg.hl(), 0x0000);
}

#[test]
fn hld_wraps_from_zero_to_ffff() {
    let mut reg = Registers::new();
    reg.set_hl(0x0000);
    assert_eq!(reg.get_pair(RegisterPair::HLD), 0x0000);
    assert_eq!(reg.hl(), 0xFFFF);

    reg.set_hl(0x0000);
    assert_eq!(reg.hld(), 0x0000);
    assert_eq!(reg.hl(), 0xFFFF);
}

#[test]
fn hli_and_hld_step_by_one() {
    let mut reg = sample();
    assert_eq!(reg.hli(), 0x7889);
    assert_eq!(reg.hl(), 0x788A);
    assert_eq!(reg.hld(), 0x788A);
    assert_eq!(reg.hld(), 0x7889);
    assert_eq!(reg.hl(), 0x7888);
    reg.set_hl(0x12FF);
    assert_eq!(reg.hli(), 0x12FF);
    assert_eq!((reg.h, reg.l), (0x13, 0x00));
    assert_eq!(reg.hld(), 0x1300);
    assert_eq!((reg.h, reg.l), (0x12, 0xFF));
    assert_eq!((reg.a, reg.b, reg.c, reg.d, reg.e), (0x12, 0x34, 0x45, 0x56, 0x67));
}

#[test]
fn plain_pair_reads_change_nothing() {
    let mut reg = sample();
    let before = reg;
    assert_eq!(reg.get_pair(RegisterPair::AF), 0x1220);
    assert_eq!(reg.get_pair(RegisterPair::BC), 0x3445);
    assert_eq!(reg.get_pair(RegisterPair::DE), 0x5667);
    assert_eq!(reg.get_pair(RegisterPair::HL), 0x7889);
    assert_eq!(reg, before);
}

#[test]
fn get_reads_each_register() {
    let reg = sample();
    assert_eq!(reg.get(Register::A), 0x12);
    assert_eq!(reg.get(Register::B), 0x34);
    assert_eq!(reg.get(Register::C), 0x45);
    assert_eq!(reg.get(Register::D), 0x56);
    assert_eq!(reg.get(Register::E), 0x67);
    assert_eq!(reg.get(Register::F), 0x20);
    assert_eq!(reg.get(Register::H), 0x78);
    assert_eq!(reg.get(Register::L), 0x89);
}

#[test]
fn set_writes_one_register_only() {
    let all = [
        Register::A,
        Register::B,
        Register::C,
        Register::D,
        Register::E,
        Register::F,
        Register::H,
        Register::L,
    ];
    for target in all {
        let mut reg = sample();
        reg.set(target, 0xF5);
        for other in all {
            let expected = if other != target {
                sample().get(other)
            } else if other == Register::F {
                0xF0
            } else {
                0xF5
            };
            assert_eq!(reg.get(other), expected);
        }
    }
}

#[test]
fn bytes_join_high_first_and_split_back() {
    assert_eq!(join_bytes(0x12, 0x34), 0x1234);
    assert_eq!(join_bytes(0x00, 0xFF), 0x00FF);
    assert_eq!(join_bytes(0xFF, 0x00), 0xFF00);
    assert_eq!(split_bytes(0x1234), (0x12, 0x34));
    assert_eq!(split_bytes(0xFF00), (0xFF, 0x00));
    for x in [0u16, 1, 0x00FF, 0x0100, 0x8000, 0xFFFF] {
        let (high, low) = split_bytes(x);
        assert_eq!(join_bytes(high, low), x);
    }
}
