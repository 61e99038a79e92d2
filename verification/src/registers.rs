//! The register file: eight 8-bit registers, one of them the packed flags
//! byte, and the 16-bit pairs that are read and written through them.
use vstd::prelude::*;

verus! {

/// Bit of the flags byte that holds the zero flag.
pub const ZERO_FLAG: u8 = 0x80;

/// Bit of the flags byte that holds the subtract flag.
pub const SUBTRACT_FLAG: u8 = 0x40;

/// Bit of the flags byte that holds the half-carry flag.
pub const HALF_CARRY_FLAG: u8 = 0x20;

/// Bit of the flags byte that holds the carry flag.
pub const CARRY_FLAG: u8 = 0x10;

/// The four condition flags. They are stored unpacked, so the low nibble of
/// the flags byte has no storage and reads as zero whatever was written.
#[derive(Debug, Copy, Clone, PartialEq, Eq, Structural)]
pub struct FlagsRegister {
    pub zero: bool,
    pub subtract: bool,
    pub half_carry: bool,
    pub carry: bool,
}

impl FlagsRegister {
    /// The packed byte: each flag contributes its own bit, nothing else is set.
    pub open spec fn spec_to_byte(self) -> u8 {
        (if self.zero { ZERO_FLAG } else { 0u8 })
            | (if self.subtract { SUBTRACT_FLAG } else { 0u8 })
            | (if self.half_carry { HALF_CARRY_FLAG } else { 0u8 })
            | (if self.carry { CARRY_FLAG } else { 0u8 })
    }

    /// The flags that a byte stands for: bits 7 to 4, the low nibble ignored.
    pub open spec fn spec_from_byte(byte: u8) -> FlagsRegister {
        FlagsRegister {
            zero: byte & ZERO_FLAG != 0,
            subtract: byte & SUBTRACT_FLAG != 0,
            half_carry: byte & HALF_CARRY_FLAG != 0,
            carry: byte & CARRY_FLAG != 0,
        }
    }

    /// Packs the flags into a byte.
    #[verifier::when_used_as_spec(spec_to_byte)]
    pub fn to_byte(self) -> (byte: u8)
        ensures
            byte == self.spec_to_byte(),
            byte & 0x0F == 0,
    {
        proof {
            lemma_flags_round_trip(self);
        }
        (if self.zero { ZERO_FLAG } else { 0u8 })
            | (if self.subtract { SUBTRACT_FLAG } else { 0u8 })
            | (if self.half_carry { HALF_CARRY_FLAG } else { 0u8 })
            | (if self.carry { CARRY_FLAG } else { 0u8 })
    }

    /// Unpacks a byte into flags.
    #[verifier::when_used_as_spec(spec_from_byte)]
    pub fn from_byte(byte: u8) -> (flags: FlagsRegister)
        ensures
            flags == Self::spec_from_byte(byte),
    {
        FlagsRegister {
            zero: (byte & ZERO_FLAG) != 0,
            subtract: (byte & SUBTRACT_FLAG) != 0,
            half_carry: (byte & HALF_CARRY_FLAG) != 0,
            carry: (byte & CARRY_FLAG) != 0,
        }
    }
}

/// Packing loses nothing and sets no bit of the low nibble: for every
/// combination of the four flags, unpacking the packed byte gives the flags
/// back, and the low four bits of the packed byte are zero.
pub proof fn lemma_flags_round_trip(flags: FlagsRegister)
    ensures
        FlagsRegister::spec_from_byte(flags.spec_to_byte()) == flags,
        flags.spec_to_byte() & 0x0F == 0,
{
    let z = flags.zero;
    let n = flags.subtract;
    let h = flags.half_carry;
    let c = flags.carry;
    let byte = flags.spec_to_byte();
    assert({
        &&& (byte & 0x80 != 0) == z
        &&& (byte & 0x40 != 0) == n
        &&& (byte & 0x20 != 0) == h
        &&& (byte & 0x10 != 0) == c
        &&& byte & 0x0F == 0
    }) by (bit_vector)
        requires
            byte == (if z { 0x80u8 } else { 0u8 }) | (if n { 0x40u8 } else { 0u8 })
                | (if h { 0x20u8 } else { 0u8 }) | (if c { 0x10u8 } else { 0u8 }),
    ;
}

/// Unpacking keeps exactly the high nibble: packing the flags of a byte gives
/// the byte with its low nibble cleared.
pub proof fn lemma_unpack_pack(byte: u8)
    ensures
        FlagsRegister::spec_from_byte(byte).spec_to_byte() == byte & 0xF0,
{
    assert((if byte & 0x80 != 0 { 0x80u8 } else { 0u8 })
        | (if byte & 0x40 != 0 { 0x40u8 } else { 0u8 })
        | (if byte & 0x20 != 0 { 0x20u8 } else { 0u8 })
        | (if byte & 0x10 != 0 { 0x10u8 } else { 0u8 }) == byte & 0xF0) by (bit_vector);
}

impl Default for FlagsRegister {
    /// All four flags clear.
    fn default() -> (flags: FlagsRegister)
        ensures
            flags == FlagsRegister::spec_from_byte(0),
            !flags.zero && !flags.subtract && !flags.half_carry && !flags.carry,
    {
        assert(0u8 & 0x80 == 0 && 0u8 & 0x40 == 0 && 0u8 & 0x20 == 0 && 0u8 & 0x10 == 0) by (bit_vector);
        FlagsRegister { zero: false, subtract: false, half_carry: false, carry: false }
    }
}

impl From<FlagsRegister> for u8 {
    /// The packed byte of the flags, as `to_byte` gives it.
    fn from(flag: FlagsRegister) -> (byte: u8) {
        flag.to_byte()
    }
}

impl vstd::std_specs::convert::FromSpecImpl<FlagsRegister> for u8 {
    open spec fn obeys_from_spec() -> bool {
        true
    }

    open spec fn from_spec(flag: FlagsRegister) -> u8 {
        flag.spec_to_byte()
    }
}

impl From<u8> for FlagsRegister {
    /// The flags that the byte stands for, as `from_byte` gives them.
    fn from(byte: u8) -> (flags: FlagsRegister) {
        FlagsRegister::from_byte(byte)
    }
}

impl vstd::std_specs::convert::FromSpecImpl<u8> for FlagsRegister {
    open spec fn obeys_from_spec() -> bool {
        true
    }

    open spec fn from_spec(byte: u8) -> FlagsRegister {
        FlagsRegister::spec_from_byte(byte)
    }
}

/// The 8-bit registers by name.
#[derive(Debug, Copy, Clone, PartialEq, Eq, Structural)]
pub enum Register {
    A,
    B,
    C,
    D,
    E,
    F,
    H,
    L,
}

/// The 16-bit pairs by name. `HLI` and `HLD` are addressing modes, not storage:
/// they read `HL` and then step it up or down by one.
#[derive(Debug, Copy, Clone, PartialEq, Eq, Structural)]
pub enum RegisterPair {
    AF,
    BC,
    DE,
    HL,
    HLI,
    HLD,
}

/// The 16-bit value with the given high and low bytes.
pub open spec fn pair_value(high: u8, low: u8) -> u16 {
    (high * 256 + low) as u16
}

/// The high byte of a 16-bit value.
pub open spec fn high_byte(value: u16) -> u8 {
    (value / 256) as u8
}

/// The low byte of a 16-bit value.
pub open spec fn low_byte(value: u16) -> u8 {
    (value % 256) as u8
}

/// An integer reduced modulo 2^8.
pub open spec fn wrap_u8(value: int) -> u8 {
    (value % 0x100) as u8
}

/// An integer reduced modulo 2^16: 16-bit arithmetic wraps, it never fails.
pub open spec fn wrap_u16(value: int) -> u16 {
    (value % 0x1_0000) as u16
}

/// Joins two bytes into a 16-bit value, high byte first.
pub fn join_bytes(high: u8, low: u8) -> (value: u16)
    ensures
        value == pair_value(high, low),
        high_byte(value) == high,
        low_byte(value) == low,
{
    assert(((high as u16) << 8) | (low as u16) == (high as u16) * 256 + (low as u16)) by (bit_vector);
    ((high as u16) << 8) | (low as u16)
}

/// Splits a 16-bit value into its high and low byte.
pub fn split_bytes(value: u16) -> (bytes: (u8, u8))
    ensures
        bytes.0 == high_byte(value),
        bytes.1 == low_byte(value),
        pair_value(bytes.0, bytes.1) == value,
{
    assert((value >> 8) == value / 256 && (value & 0xFF) == value % 256) by (bit_vector);
    ((value >> 8) as u8, (value & 0xFF) as u8)
}

/// The register file.
#[derive(Debug, Copy, Clone, PartialEq, Eq, Structural)]
pub struct Registers {
    pub a: u8,
    pub b: u8,
    pub c: u8,
    pub d: u8,
    pub e: u8,
    pub f: FlagsRegister,
    pub h: u8,
    pub l: u8,
}

impl Registers {
    /// The value of an 8-bit register; `F` reads as the packed flags byte.
    pub open spec fn spec_get(&self, register: Register) -> u8 {
        match register {
            Register::A => self.a,
            Register::B => self.b,
            Register::C => self.c,
            Register::D => self.d,
            Register::E => self.e,
            Register::F => self.f.spec_to_byte(),
            Register::H => self.h,
            Register::L => self.l,
        }
    }

    /// The register file after `value` is written to an 8-bit register; a
    /// write to `F` keeps the four flag bits only.
    pub open spec fn with_register(self, register: Register, value: u8) -> Registers {
        match register {
            Register::A => Registers { a: value, ..self },
            Register::B => Registers { b: value, ..self },
            Register::C => Registers { c: value, ..self },
            Register::D => Registers { d: value, ..self },
            Register::E => Registers { e: value, ..self },
            Register::F => Registers { f: FlagsRegister::spec_from_byte(value), ..self },
            Register::H => Registers { h: value, ..self },
            Register::L => Registers { l: value, ..self },
        }
    }

    /// The pair `AF`: `a` above the packed flags, whose low nibble is zero.
    pub open spec fn spec_af(&self) -> u16 {
        pair_value(self.a, self.f.spec_to_byte())
    }

    /// The pair `BC`.
    pub open spec fn spec_bc(&self) -> u16 {
        pair_value(self.b, self.c)
    }

    /// The pair `DE`.
    pub open spec fn spec_de(&self) -> u16 {
        pair_value(self.d, self.e)
    }

    /// The pair `HL`.
    pub open spec fn spec_hl(&self) -> u16 {
        pair_value(self.h, self.l)
    }

    /// The register file after `value` is written to `AF`.
    pub open spec fn with_af(self, value: u16) -> Registers {
        Registers { a: high_byte(value), f: FlagsRegister::spec_from_byte(low_byte(value)), ..self }
    }

    /// The register file after `value` is written to `BC`.
    pub open spec fn with_bc(self, value: u16) -> Registers {
        Registers { b: high_byte(value), c: low_byte(value), ..self }
    }

    /// The register file after `value` is written to `DE`.
    pub open spec fn with_de(self, value: u16) -> Registers {
        Registers { d: high_byte(value), e: low_byte(value), ..self }
    }

    /// The register file after `value` is written to `HL`.
    pub open spec fn with_hl(self, value: u16) -> Registers {
        Registers { h: high_byte(value), l: low_byte(value), ..self }
    }

    /// What a read of a pair returns: `HLI` and `HLD` read as `HL`.
    pub open spec fn pair_read(&self, pair: RegisterPair) -> u16 {
        match pair {
            RegisterPair::AF => self.spec_af(),
            RegisterPair::BC => self.spec_bc(),
            RegisterPair::DE => self.spec_de(),
            RegisterPair::HL | RegisterPair::HLI | RegisterPair::HLD => self.spec_hl(),
        }
    }

    /// The register file after a read of a pair: `HLI` leaves `HL` one higher,
    /// `HLD` one lower, both modulo 2^16; the other reads change nothing.
    pub open spec fn after_pair_read(self, pair: RegisterPair) -> Registers {
        match pair {
            RegisterPair::HLI => self.with_hl(wrap_u16(self.spec_hl() + 1)),
            RegisterPair::HLD => self.with_hl(wrap_u16(self.spec_hl() - 1)),
            _ => self,
        }
    }

    /// The register file with every register zero and every flag clear.
    pub open spec fn spec_new() -> Registers {
        Registers {
            a: 0,
            b: 0,
            c: 0,
            d: 0,
            e: 0,
            f: FlagsRegister { zero: false, subtract: false, half_carry: false, carry: false },
            h: 0,
            l: 0,
        }
    }

    /// A register file with every register zero and every flag clear.
    #[verifier::when_used_as_spec(spec_new)]
    pub fn new() -> (registers: Registers)
        ensures
            registers == Registers::spec_new(),
    {
        Registers { a: 0x0, b: 0x0, c: 0x0, d: 0x0, e: 0x0, f: FlagsRegister::default(), h: 0x0, l: 0x0 }
    }

    /// Reads an 8-bit register.
    #[verifier::when_used_as_spec(spec_get)]
    pub fn get(&self, register: Register) -> (value: u8)
        ensures
            value == self.spec_get(register),
    {
        match register {
            Register::A => self.a,
            Register::B => self.b,
            Register::C => self.c,
            Register::D => self.d,
            Register::E => self.e,
            Register::F => self.f.to_byte(),
            Register::H => self.h,
            Register::L => self.l,
        }
    }

    /// Writes an 8-bit register. The other registers keep their values.
    pub fn set(&mut self, register: Register, value: u8)
        ensures
            *final(self) == old(self).with_register(register, value),
            register != Register::F ==> final(self).spec_get(register) == value,
            register == Register::F ==> final(self).spec_get(register) == value & 0xF0,
    {
        match register {
            Register::A => self.a = value,
            Register::B => self.b = value,
            Register::C => self.c = value,
            Register::D => self.d = value,
            Register::E => self.e = value,
            Register::F => {
                proof {
                    lemma_unpack_pack(value);
                }
                self.f = FlagsRegister::from_byte(value)
            },
            Register::H => self.h = value,
            Register::L => self.l = value,
        }
    }

    /// Reads a pair. A read through `HLI` or `HLD` returns `HL` as it was and
    /// then moves `HL` by one, wrapping at either end of the 16-bit range.
    pub fn get_pair(&mut self, pair: RegisterPair) -> (value: u16)
        ensures
            value == old(self).pair_read(pair),
            *final(self) == old(self).after_pair_read(pair),
    {
        match pair {
            RegisterPair::AF => self.af(),
            RegisterPair::BC => self.bc(),
            RegisterPair::DE => self.de(),
            RegisterPair::HL => self.hl(),
            RegisterPair::HLI => self.hli(),
            RegisterPair::HLD => self.hld(),
        }
    }

    /// Reads `AF`. The low nibble of the result is zero.
    #[verifier::when_used_as_spec(spec_af)]
    pub fn af(&self) -> (value: u16)
        ensures
            value == self.spec_af(),
            value & 0x000F == 0,
    {
        let f: u8 = self.f.to_byte();
        assert(f & 0xF0 == f) by (bit_vector)
            requires
                f & 0x0F == 0,
        ;
        let value = join_bytes(self.a, f & 0xF0);
        proof {
            lemma_af_low_nibble(*self);
        }
        value
    }

    /// Writes `AF`. The low nibble of `value` is dropped, so that `AF` then
    /// reads as `value & 0xFFF0`.
    pub fn set_af(&mut self, value: u16)
        ensures
            *final(self) == old(self).with_af(value),
            final(self).spec_af() == value & 0xFFF0,
    {
        let (a, f) = split_bytes(value);
        proof {
            lemma_af_round_trip(*self, value);
            lemma_unpack_masked(f);
        }
        self.a = a;
        self.f = FlagsRegister::from_byte(f & 0xF0);
    }

    /// Reads `BC`.
    #[verifier::when_used_as_spec(spec_bc)]
    pub fn bc(&self) -> (value: u16)
        ensures
            value == self.spec_bc(),
    {
        join_bytes(self.b, self.c)
    }

    /// Writes `BC`, which then reads as `value`.
    pub fn set_bc(&mut self, value: u16)
        ensures
            *final(self) == old(self).with_bc(value),
            final(self).spec_bc() == value,
    {
        let (b, c) = split_bytes(value);
        self.b = b;
        self.c = c;
    }

    /// Reads `DE`.
    #[verifier::when_used_as_spec(spec_de)]
    pub fn de(&self) -> (value: u16)
        ensures
            value == self.spec_de(),
    {
        join_bytes(self.d, self.e)
    }

    /// Writes `DE`, which then reads as `value`.
    pub fn set_de(&mut self, value: u16)
        ensures
            *final(self) == old(self).with_de(value),
            final(self).spec_de() == value,
    {
        let (d, e) = split_bytes(value);
        self.d = d;
        self.e = e;
    }

    /// Reads `HL`.
    #[verifier::when_used_as_spec(spec_hl)]
    pub fn hl(&self) -> (value: u16)
        ensures
            value == self.spec_hl(),
    {
        join_bytes(self.h, self.l)
    }

    /// Writes `HL`, which then reads as `value`.
    pub fn set_hl(&mut self, value: u16)
        ensures
            *final(self) == old(self).with_hl(value),
            final(self).spec_hl() == value,
    {
        let (h, l) = split_bytes(value);
        self.h = h;
        self.l = l;
    }

    /// Reads `HL` and then decrements it: 0x0000 becomes 0xFFFF.
    pub fn hld(&mut self) -> (value: u16)
        ensures
            value == old(self).spec_hl(),
            *final(self) == old(self).with_hl(wrap_u16(value - 1)),
            final(self).spec_hl() == wrap_u16(value - 1),
    {
        let res = self.hl();
        self.set_hl(res.wrapping_sub(1));
        res
    }

    /// Reads `HL` and then increments it: 0xFFFF becomes 0x0000.
    pub fn hli(&mut self) -> (value: u16)
        ensures
            value == old(self).spec_hl(),
            *final(self) == old(self).with_hl(wrap_u16(value + 1)),
            final(self).spec_hl() == wrap_u16(value + 1),
    {
        let res = self.hl();
        self.set_hl(res.wrapping_add(1));
        res
    }
}

/// Masking the low nibble of a byte away does not change the flags it holds.
pub proof fn lemma_unpack_masked(byte: u8)
    ensures
        FlagsRegister::spec_from_byte(byte & 0xF0) == FlagsRegister::spec_from_byte(byte),
{
    assert({
        &&& (byte & 0xF0) & 0x80 == byte & 0x80
        &&& (byte & 0xF0) & 0x40 == byte & 0x40
        &&& (byte & 0xF0) & 0x20 == byte & 0x20
        &&& (byte & 0xF0) & 0x10 == byte & 0x10
    }) by (bit_vector);
}

/// `AF` never shows anything in its low nibble, whatever the flags are.
pub proof fn lemma_af_low_nibble(registers: Registers)
    ensures
        registers.spec_af() & 0x000F == 0,
{
    let a = registers.a;
    let f = registers.f.spec_to_byte();
    lemma_flags_round_trip(registers.f);
    let value = registers.spec_af();
    assert(value & 0x000F == 0) by (bit_vector)
        requires
            value == (a as u16) * 256 + (f as u16),
            f & 0x0F == 0,
    ;
}

/// Writing `x` to `AF` and reading `AF` back gives `x & 0xFFF0`.
pub proof fn lemma_af_round_trip(registers: Registers, x: u16)
    ensures
        registers.with_af(x).spec_af() == x & 0xFFF0,
{
    let high = high_byte(x);
    let low = low_byte(x);
    let packed = FlagsRegister::spec_from_byte(low).spec_to_byte();
    lemma_unpack_pack(low);
    assert((high as u16) * 256 + (packed as u16) == x & 0xFFF0) by (bit_vector)
        requires
            high == (x / 256) as u8,
            low == (x % 256) as u8,
            packed == low & 0xF0,
    ;
}

/// Writing `x` to `BC`, `DE` or `HL` and reading the pair back gives `x`, and
/// the write leaves the other pairs as they were.
pub proof fn lemma_pair_round_trip(registers: Registers, x: u16)
    ensures
        registers.with_bc(x).spec_bc() == x,
        registers.with_de(x).spec_de() == x,
        registers.with_hl(x).spec_hl() == x,
        registers.with_bc(x).spec_de() == registers.spec_de(),
        registers.with_bc(x).spec_hl() == registers.spec_hl(),
        registers.with_bc(x).spec_af() == registers.spec_af(),
        registers.with_de(x).spec_bc() == registers.spec_bc(),
        registers.with_de(x).spec_hl() == registers.spec_hl(),
        registers.with_de(x).spec_af() == registers.spec_af(),
        registers.with_hl(x).spec_bc() == registers.spec_bc(),
        registers.with_hl(x).spec_de() == registers.spec_de(),
        registers.with_hl(x).spec_af() == registers.spec_af(),
        registers.with_af(x).spec_bc() == registers.spec_bc(),
        registers.with_af(x).spec_de() == registers.spec_de(),
        registers.with_af(x).spec_hl() == registers.spec_hl(),
{
}

/// A read through `HLI` undoes a read through `HLD` and the other way round,
/// also across the ends of the 16-bit range.
pub proof fn lemma_hli_hld_inverse(registers: Registers)
    ensures
        registers.after_pair_read(RegisterPair::HLI).after_pair_read(RegisterPair::HLD) == registers,
        registers.after_pair_read(RegisterPair::HLD).after_pair_read(RegisterPair::HLI) == registers,
{
}

} // verus!
