use vstd::prelude::*;

verus! {

/// Names one of the eight single-byte storage cells of the register file.
#[derive(Debug, Clone, Copy, PartialEq, Eq, Structural)]
pub enum Register {
    A,
    B,
    C,
    D,
    E,
    F,
    H,
    L,
}

/// Error returned by a rejected register write.
#[derive(Debug, Clone, Copy, PartialEq, Eq, Structural)]
pub enum RegisterWriteError {
    /// A write to the flag register F whose low nibble is not zero.
    InvalidFlagValue,
}

/// The register file as pure data: one byte per cell.
///
/// This is the mathematical model that every contract speaks of; it is
/// the view of [`RegisterBank`].
pub struct BankModel {
    pub a: u8,
    pub b: u8,
    pub c: u8,
    pub d: u8,
    pub e: u8,
    pub f: u8,
    pub h: u8,
    pub l: u8,
}

/// The byte that register `r` holds in model `m`.
pub open spec fn reg_of(m: BankModel, r: Register) -> u8 {
    match r {
        Register::A => m.a,
        Register::B => m.b,
        Register::C => m.c,
        Register::D => m.d,
        Register::E => m.e,
        Register::F => m.f,
        Register::H => m.h,
        Register::L => m.l,
    }
}

/// Model `m` with register `r` replaced by `v`, all other cells kept.
pub open spec fn with_reg(m: BankModel, r: Register, v: u8) -> BankModel {
    match r {
        Register::A => BankModel { a: v, ..m },
        Register::B => BankModel { b: v, ..m },
        Register::C => BankModel { c: v, ..m },
        Register::D => BankModel { d: v, ..m },
        Register::E => BankModel { e: v, ..m },
        Register::F => BankModel { f: v, ..m },
        Register::H => BankModel { h: v, ..m },
        Register::L => BankModel { l: v, ..m },
    }
}

/// Bit 7 of the flag byte: the Zero flag.
pub open spec fn zero_flag(f: u8) -> bool {
    f & 0x80 != 0
}

/// Bit 6 of the flag byte: the Subtraction flag.
pub open spec fn subtraction_flag(f: u8) -> bool {
    f & 0x40 != 0
}

/// Bit 5 of the flag byte: the Half-Carry flag.
pub open spec fn half_carry_flag(f: u8) -> bool {
    f & 0x20 != 0
}

/// Bit 4 of the flag byte: the Carry flag.
pub open spec fn carry_flag(f: u8) -> bool {
    f & 0x10 != 0
}

/// A legal flag byte: the low nibble is always zero.
pub open spec fn flags_valid(f: u8) -> bool {
    f & 0x0F == 0
}

/// The register file invariant: F never carries bits in its low nibble.
pub open spec fn bank_valid(m: BankModel) -> bool {
    flags_valid(m.f)
}

/// The flag byte with the Zero bit forced to `v`, all other bits kept.
pub open spec fn with_zero(f: u8, v: bool) -> u8 {
    if v {
        f | 0x80
    } else {
        f & 0x7F
    }
}

/// The flag byte with the Subtraction bit forced to `v`, all other bits kept.
pub open spec fn with_subtraction(f: u8, v: bool) -> u8 {
    if v {
        f | 0x40
    } else {
        f & 0xBF
    }
}

/// The flag byte with the Half-Carry bit forced to `v`, all other bits kept.
pub open spec fn with_half_carry(f: u8, v: bool) -> u8 {
    if v {
        f | 0x20
    } else {
        f & 0xDF
    }
}

/// The flag byte with the Carry bit forced to `v`, all other bits kept.
pub open spec fn with_carry(f: u8, v: bool) -> u8 {
    if v {
        f | 0x10
    } else {
        f & 0xEF
    }
}

/// The 16-bit value a composite register presents: high byte times 256
/// plus low byte.
pub open spec fn pair_value(hi: u8, lo: u8) -> u16 {
    (hi * 256 + lo) as u16
}

/// The byte written to the first register of a pair: the upper half.
pub open spec fn high_byte(v: u16) -> u8 {
    (v / 256) as u8
}

/// The byte written to the second register of a pair: the lower half.
pub open spec fn low_byte(v: u16) -> u8 {
    (v % 256) as u8
}

/// Forcing the Zero bit touches bit 7 alone: the other three flags and
/// the low nibble of the flag byte are untouched.
pub proof fn lemma_with_zero(f: u8, v: bool)
    ensures
        zero_flag(with_zero(f, v)) == v,
        subtraction_flag(with_zero(f, v)) == subtraction_flag(f),
        half_carry_flag(with_zero(f, v)) == half_carry_flag(f),
        carry_flag(with_zero(f, v)) == carry_flag(f),
        with_zero(f, v) & 0x0F == f & 0x0F,
{
    if v {
        assert((f | 0x80) & 0x80 != 0 && (f | 0x80) & 0x40 == f & 0x40 && (f | 0x80) & 0x20
            == f & 0x20 && (f | 0x80) & 0x10 == f & 0x10 && (f | 0x80) & 0x0F == f & 0x0F)
            by (bit_vector);
    } else {
        assert((f & 0x7F) & 0x80 == 0 && (f & 0x7F) & 0x40 == f & 0x40 && (f & 0x7F) & 0x20
            == f & 0x20 && (f & 0x7F) & 0x10 == f & 0x10 && (f & 0x7F) & 0x0F == f & 0x0F)
            by (bit_vector);
    }
}

/// Forcing the Subtraction bit touches bit 6 alone.
pub proof fn lemma_with_subtraction(f: u8, v: bool)
    ensures
        subtraction_flag(with_subtraction(f, v)) == v,
        zero_flag(with_subtraction(f, v)) == zero_flag(f),
        half_carry_flag(with_subtraction(f, v)) == half_carry_flag(f),
        carry_flag(with_subtraction(f, v)) == carry_flag(f),
        with_subtraction(f, v) & 0x0F == f & 0x0F,
{
    if v {
        assert((f | 0x40) & 0x40 != 0 && (f | 0x40) & 0x80 == f & 0x80 && (f | 0x40) & 0x20
            == f & 0x20 && (f | 0x40) & 0x10 == f & 0x10 && (f | 0x40) & 0x0F == f & 0x0F)
            by (bit_vector);
    } else {
        assert((f & 0xBF) & 0x40 == 0 && (f & 0xBF) & 0x80 == f & 0x80 && (f & 0xBF) & 0x20
            == f & 0x20 && (f & 0xBF) & 0x10 == f & 0x10 && (f & 0xBF) & 0x0F == f & 0x0F)
            by (bit_vector);
    }
}

/// Forcing the Half-Carry bit touches bit 5 alone.
pub proof fn lemma_with_half_carry(f: u8, v: bool)
    ensures
        half_carry_flag(with_half_carry(f, v)) == v,
        zero_flag(with_half_carry(f, v)) == zero_flag(f),
        subtraction_flag(with_half_carry(f, v)) == subtraction_flag(f),
        carry_flag(with_half_carry(f, v)) == carry_flag(f),
        with_half_carry(f, v) & 0x0F == f & 0x0F,
{
    if v {
        assert((f | 0x20) & 0x20 != 0 && (f | 0x20) & 0x80 == f & 0x80 && (f | 0x20) & 0x40
            == f & 0x40 && (f | 0x20) & 0x10 == f & 0x10 && (f | 0x20) & 0x0F == f & 0x0F)
            by (bit_vector);
    } else {
        assert((f & 0xDF) & 0x20 == 0 && (f & 0xDF) & 0x80 == f & 0x80 && (f & 0xDF) & 0x40
            == f & 0x40 && (f & 0xDF) & 0x10 == f & 0x10 && (f & 0xDF) & 0x0F == f & 0x0F)
            by (bit_vector);
    }
}

/// Forcing the Carry bit touches bit 4 alone.
pub proof fn lemma_with_carry(f: u8, v: bool)
    ensures
        carry_flag(with_carry(f, v)) == v,
        zero_flag(with_carry(f, v)) == zero_flag(f),
        subtraction_flag(with_carry(f, v)) == subtraction_flag(f),
        half_carry_flag(with_carry(f, v)) == half_carry_flag(f),
        with_carry(f, v) & 0x0F == f & 0x0F,
{
    if v {
        assert((f | 0x10) & 0x10 != 0 && (f | 0x10) & 0x80 == f & 0x80 && (f | 0x10) & 0x40
            == f & 0x40 && (f | 0x10) & 0x20 == f & 0x20 && (f | 0x10) & 0x0F == f & 0x0F)
            by (bit_vector);
    } else {
        assert((f & 0xEF) & 0x10 == 0 && (f & 0xEF) & 0x80 == f & 0x80 && (f & 0xEF) & 0x40
            == f & 0x40 && (f & 0xEF) & 0x20 == f & 0x20 && (f & 0xEF) & 0x0F == f & 0x0F)
            by (bit_vector);
    }
}

/// Writing any register other than F and reading the same register back
/// yields exactly the byte that was written.
pub proof fn lemma_write_read_round_trip(m: BankModel, r: Register, v: u8)
    requires
        r != Register::F,
    ensures
        reg_of(with_reg(m, r, v), r) == v,
{
}

/// Splitting a 16-bit value into its high and low bytes and recombining
/// them gives the value back unchanged.
pub proof fn lemma_pair_round_trip(v: u16)
    ensures
        pair_value(high_byte(v), low_byte(v)) == v,
{
    assert(v / 256 * 256 + v % 256 == v) by (bit_vector);
}

/// Eight single-byte storage cells: A, B, C, D, E, F, H, L.
///
/// F is the flag register: only its upper nibble is meaningful, and the
/// low nibble is zero at every observable point. BC, DE and HL are not
/// separate storage but 16-bit views over adjacent cells.
pub struct RegisterBank {
    a: u8,
    b: u8,
    c: u8,
    d: u8,
    e: u8,
    f: u8,
    h: u8,
    l: u8,
}

impl View for RegisterBank {
    type V = BankModel;

    closed spec fn view(&self) -> BankModel {
        BankModel {
            a: self.a,
            b: self.b,
            c: self.c,
            d: self.d,
            e: self.e,
            f: self.f,
            h: self.h,
            l: self.l,
        }
    }
}

impl Default for RegisterBank {
    /// The power-on register file: every cell zero.
    fn default() -> (r: Self)
        ensures
            r@ == (BankModel { a: 0, b: 0, c: 0, d: 0, e: 0, f: 0, h: 0, l: 0 }),
            bank_valid(r@),
    {
        proof {
            assert(0u8 & 0x0F == 0) by (bit_vector);
        }
        RegisterBank { a: 0, b: 0, c: 0, d: 0, e: 0, f: 0, h: 0, l: 0 }
    }
}

impl RegisterBank {
    /// Reads one register; total over the whole 8-register domain.
    pub fn read(&self, register: Register) -> (r: u8)
        ensures
            r == reg_of(self@, register),
    {
        match register {
            Register::A => self.a,
            Register::B => self.b,
            Register::C => self.c,
            Register::D => self.d,
            Register::E => self.e,
            Register::F => self.f,
            Register::H => self.h,
            Register::L => self.l,
        }
    }

    /// Writes one register. Every register but F accepts any byte; the
    /// flag register F accepts only bytes with a zero low nibble and is
    /// left untouched when it rejects one.
    pub fn write_register(&mut self, register: Register, val: u8) -> (r: Result<
        (),
        RegisterWriteError,
    >)
        ensures
            register != Register::F || val & 0x0F == 0 ==> r == Ok::<(), RegisterWriteError>(())
                && final(self)@ == with_reg(old(self)@, register, val),
            register == Register::F && val & 0x0F != 0 ==> r == Err::<(), RegisterWriteError>(
                RegisterWriteError::InvalidFlagValue,
            ) && final(self)@ == old(self)@,
            bank_valid(old(self)@) ==> bank_valid(final(self)@),
    {
        match register {
            Register::A => self.a = val,
            Register::B => self.b = val,
            Register::C => self.c = val,
            Register::D => self.d = val,
            Register::E => self.e = val,
            Register::F => {
                // Only the upper nibble of F is writable storage.
                if val & 0x0F != 0 {
                    return Err(RegisterWriteError::InvalidFlagValue);
                }
                self.f = val;
            },
            Register::H => self.h = val,
            Register::L => self.l = val,
        }
        Ok(())
    }

    /// The composite register BC: B as high byte, C as low byte.
    pub fn read_bc(&self) -> (r: u16)
        ensures
            r == pair_value(self@.b, self@.c),
    {
        proof {
            let hi = self@.b;
            let lo = self@.c;
            assert((hi as u16) << 8 | (lo as u16) == (hi * 256 + lo) as u16) by (bit_vector);
        }
        (self.b as u16) << 8 | (self.c as u16)
    }

    /// Writes BC: the upper half of `value` goes to B, the lower to C.
    pub fn write_bc(&mut self, value: u16)
        ensures
            final(self)@ == (BankModel {
                b: high_byte(value),
                c: low_byte(value),
                ..old(self)@
            }),
            bank_valid(old(self)@) ==> bank_valid(final(self)@),
    {
        proof {
            assert((value >> 8) as u8 == (value / 256) as u8 && value as u8 == (value % 256) as u8)
                by (bit_vector);
        }
        self.b = (value >> 8) as u8;
        self.c = value as u8;
    }

    /// The composite register DE: D as high byte, E as low byte.
    pub fn read_de(&self) -> (r: u16)
        ensures
            r == pair_value(self@.d, self@.e),
    {
        proof {
            let hi = self@.d;
            let lo = self@.e;
            assert((hi as u16) << 8 | (lo as u16) == (hi * 256 + lo) as u16) by (bit_vector);
        }
        (self.d as u16) << 8 | (self.e as u16)
    }

    /// Writes DE: the upper half of `value` goes to D, the lower to E.
    pub fn write_de(&mut self, value: u16)
        ensures
            final(self)@ == (BankModel {
                d: high_byte(value),
                e: low_byte(value),
                ..old(self)@
            }),
            bank_valid(old(self)@) ==> bank_valid(final(self)@),
    {
        proof {
            assert((value >> 8) as u8 == (value / 256) as u8 && value as u8 == (value % 256) as u8)
                by (bit_vector);
        }
        self.d = (value >> 8) as u8;
        self.e = value as u8;
    }

    /// The composite register HL: H as high byte, L as low byte.
    pub fn read_hl(&self) -> (r: u16)
        ensures
            r == pair_value(self@.h, self@.l),
    {
        proof {
            let hi = self@.h;
            let lo = self@.l;
            assert((hi as u16) << 8 | (lo as u16) == (hi * 256 + lo) as u16) by (bit_vector);
        }
        (self.h as u16) << 8 | (self.l as u16)
    }

    /// Writes HL: the upper half of `value` goes to H, the lower to L.
    pub fn write_hl(&mut self, value: u16)
        ensures
            final(self)@ == (BankModel {
                h: high_byte(value),
                l: low_byte(value),
                ..old(self)@
            }),
            bank_valid(old(self)@) ==> bank_valid(final(self)@),
    {
        proof {
            assert((value >> 8) as u8 == (value / 256) as u8 && value as u8 == (value % 256) as u8)
                by (bit_vector);
        }
        self.h = (value >> 8) as u8;
        self.l = value as u8;
    }

    /// Forces the Zero flag (bit 7 of F) to `v`; no other bit of the
    /// register file moves.
    pub fn set_zero_bit(&mut self, v: bool)
        ensures
            final(self)@ == (BankModel { f: with_zero(old(self)@.f, v), ..old(self)@ }),
            zero_flag(final(self)@.f) == v,
            subtraction_flag(final(self)@.f) == subtraction_flag(old(self)@.f),
            half_carry_flag(final(self)@.f) == half_carry_flag(old(self)@.f),
            carry_flag(final(self)@.f) == carry_flag(old(self)@.f),
            final(self)@.f & 0x0F == old(self)@.f & 0x0F,
    {
        proof {
            lemma_with_zero(self@.f, v);
        }
        if v {
            self.f = self.f | 0x80;
        } else {
            self.f = self.f & 0x7F;
        }
    }

    /// Whether the Zero flag (bit 7 of F) is set.
    pub fn has_zero_bit(&self) -> (r: bool)
        ensures
            r == zero_flag(self@.f),
    {
        self.f & 0x80 != 0
    }

    /// Forces the Subtraction flag (bit 6 of F) to `v`; no other bit of
    /// the register file moves.
    pub fn set_subtraction_bit(&mut self, v: bool)
        ensures
            final(self)@ == (BankModel { f: with_subtraction(old(self)@.f, v), ..old(self)@ }),
            subtraction_flag(final(self)@.f) == v,
            zero_flag(final(self)@.f) == zero_flag(old(self)@.f),
            half_carry_flag(final(self)@.f) == half_carry_flag(old(self)@.f),
            carry_flag(final(self)@.f) == carry_flag(old(self)@.f),
            final(self)@.f & 0x0F == old(self)@.f & 0x0F,
    {
        proof {
            lemma_with_subtraction(self@.f, v);
        }
        if v {
            self.f = self.f | 0x40;
        } else {
            self.f = self.f & 0xBF;
        }
    }

    /// Whether the Subtraction flag (bit 6 of F) is set.
    pub fn has_subtraction_bit(&self) -> (r: bool)
        ensures
            r == subtraction_flag(self@.f),
    {
        self.f & 0x40 != 0
    }

    /// Forces the Half-Carry flag (bit 5 of F) to `v`; no other bit of
    /// the register file moves.
    pub fn set_half_carry_bit(&mut self, v: bool)
        ensures
            final(self)@ == (BankModel { f: with_half_carry(old(self)@.f, v), ..old(self)@ }),
            half_carry_flag(final(self)@.f) == v,
            zero_flag(final(self)@.f) == zero_flag(old(self)@.f),
            subtraction_flag(final(self)@.f) == subtraction_flag(old(self)@.f),
            carry_flag(final(self)@.f) == carry_flag(old(self)@.f),
            final(self)@.f & 0x0F == old(self)@.f & 0x0F,
    {
        proof {
            lemma_with_half_carry(self@.f, v);
        }
        if v {
            self.f = self.f | 0x20;
        } else {
            self.f = self.f & 0xDF;
        }
    }

    /// Whether the Half-Carry flag (bit 5 of F) is set.
    pub fn has_half_carry_bit(&self) -> (r: bool)
        ensures
            r == half_carry_flag(self@.f),
    {
        self.f & 0x20 != 0
    }

    /// Forces the Carry flag (bit 4 of F) to `v`; no other bit of the
    /// register file moves.
    pub fn set_carry_bit(&mut self, v: bool)
        ensures
            final(self)@ == (BankModel { f: with_carry(old(self)@.f, v), ..old(self)@ }),
            carry_flag(final(self)@.f) == v,
            zero_flag(final(self)@.f) == zero_flag(old(self)@.f),
            subtraction_flag(final(self)@.f) == subtraction_flag(old(self)@.f),
            half_carry_flag(final(self)@.f) == half_carry_flag(old(self)@.f),
            final(self)@.f & 0x0F == old(self)@.f & 0x0F,
    {
        proof {
            lemma_with_carry(self@.f, v);
        }
        if v {
            self.f = self.f | 0x10;
        } else {
            self.f = self.f & 0xEF;
        }
    }

    /// Whether the Carry flag (bit 4 of F) is set.
    pub fn has_carry_bit(&self) -> (r: bool)
        ensures
            r == carry_flag(self@.f),
    {
        self.f & 0x10 != 0
    }
}

} // verus!
