use vstd::prelude::*;

use crate::instruction::ArithmeticTarget;
use crate::instruction::Instruction;
use crate::register_bank::BankModel;
use crate::register_bank::Register;
use crate::register_bank::RegisterBank;
use crate::register_bank::bank_valid;
use crate::register_bank::carry_flag;
use crate::register_bank::half_carry_flag;
use crate::register_bank::lemma_with_carry;
use crate::register_bank::lemma_with_half_carry;
use crate::register_bank::lemma_with_subtraction;
use crate::register_bank::lemma_with_zero;
use crate::register_bank::reg_of;
use crate::register_bank::subtraction_flag;
use crate::register_bank::with_carry;
use crate::register_bank::with_half_carry;
use crate::register_bank::with_reg;
use crate::register_bank::with_subtraction;
use crate::register_bank::with_zero;
use crate::register_bank::zero_flag;

verus! {

/// The 8-bit wrapping sum of the accumulator and the operand.
pub open spec fn add_sum(a: u8, v: u8) -> u8 {
    ((a + v) % 256) as u8
}

/// Whether the full-byte addition carries out of bit 7.
pub open spec fn add_carry(a: u8, v: u8) -> bool {
    a + v > 255
}

/// Whether the low nibbles alone carry out of bit 3.
pub open spec fn add_half_carry(a: u8, v: u8) -> bool {
    (a & 0xF) + (v & 0xF) > 0xF
}

/// The concrete register an arithmetic target reads from: a one-to-one
/// mapping, since the target vocabulary is the register set minus F.
pub open spec fn target_register(t: ArithmeticTarget) -> Register {
    match t {
        ArithmeticTarget::A => Register::A,
        ArithmeticTarget::B => Register::B,
        ArithmeticTarget::C => Register::C,
        ArithmeticTarget::D => Register::D,
        ArithmeticTarget::E => Register::E,
        ArithmeticTarget::H => Register::H,
        ArithmeticTarget::L => Register::L,
    }
}

/// The register file after adding register `r` into the accumulator:
/// A holds the 8-bit wrapping sum, the four flags are recomputed in the
/// order the engine sets them, and every other cell is kept.
pub open spec fn spec_add(m: BankModel, r: Register) -> BankModel {
    let v = reg_of(m, r);
    let f1 = with_zero(m.f, add_sum(m.a, v) == 0);
    let f2 = with_subtraction(f1, false);
    let f3 = with_carry(f2, add_carry(m.a, v));
    let f4 = with_half_carry(f3, add_half_carry(m.a, v));
    BankModel { a: add_sum(m.a, v), f: f4, ..m }
}

/// The register file after one instruction: a total function of the
/// starting file and the instruction alone.
pub open spec fn spec_exec(m: BankModel, ins: Instruction) -> BankModel {
    match ins {
        Instruction::Add(t) => spec_add(m, target_register(t)),
    }
}

/// After an add of register `r`, each flag reads back as the ADD rules
/// demand — Zero iff the wrapped sum is zero, Subtraction always clear,
/// Carry iff the full byte overflowed, Half-Carry iff the low nibbles
/// overflowed — and no cell beyond A and F moves.
pub proof fn lemma_add_semantics(m: BankModel, r: Register)
    ensures
        spec_add(m, r).a == add_sum(m.a, reg_of(m, r)),
        zero_flag(spec_add(m, r).f) == (add_sum(m.a, reg_of(m, r)) == 0),
        subtraction_flag(spec_add(m, r).f) == false,
        carry_flag(spec_add(m, r).f) == add_carry(m.a, reg_of(m, r)),
        half_carry_flag(spec_add(m, r).f) == add_half_carry(m.a, reg_of(m, r)),
        spec_add(m, r).b == m.b,
        spec_add(m, r).c == m.c,
        spec_add(m, r).d == m.d,
        spec_add(m, r).e == m.e,
        spec_add(m, r).h == m.h,
        spec_add(m, r).l == m.l,
        bank_valid(m) ==> bank_valid(spec_add(m, r)),
{
    let v = reg_of(m, r);
    let f1 = with_zero(m.f, add_sum(m.a, v) == 0);
    let f2 = with_subtraction(f1, false);
    let f3 = with_carry(f2, add_carry(m.a, v));
    lemma_with_zero(m.f, add_sum(m.a, v) == 0);
    lemma_with_subtraction(f1, false);
    lemma_with_carry(f2, add_carry(m.a, v));
    lemma_with_half_carry(f3, add_half_carry(m.a, v));
}

/// Executing one instruction from equal register files yields equal
/// register files: the transition is deterministic.
pub proof fn lemma_exec_deterministic(m1: BankModel, m2: BankModel, ins: Instruction)
    requires
        m1 == m2,
    ensures
        spec_exec(m1, ins) == spec_exec(m2, ins),
{
}

/// The execution engine: owns the register file and applies decoded
/// instructions to it. It holds no state of its own beyond the file.
pub struct Cpu {
    pub registers: RegisterBank,
}

impl Cpu {
    /// Executes one decoded instruction against the register file. The
    /// whole effect is `spec_exec` of the starting file; in particular
    /// the flag-register invariant survives every instruction.
    pub fn exec(&mut self, ins: Instruction)
        ensures
            final(self).registers@ == spec_exec(old(self).registers@, ins),
            bank_valid(old(self).registers@) ==> bank_valid(final(self).registers@),
    {
        match ins {
            Instruction::Add(target) => match target {
                ArithmeticTarget::A => self.add(Register::A),
                ArithmeticTarget::B => self.add(Register::B),
                ArithmeticTarget::C => self.add(Register::C),
                ArithmeticTarget::D => self.add(Register::D),
                ArithmeticTarget::E => self.add(Register::E),
                ArithmeticTarget::H => self.add(Register::H),
                ArithmeticTarget::L => self.add(Register::L),
            },
        }
    }

    /// ADD handler: reads the operand and the accumulator, computes the
    /// wrapping sum and all four flags, and writes the sum back to A.
    fn add(&mut self, reg: Register)
        ensures
            final(self).registers@ == spec_add(old(self).registers@, reg),
            bank_valid(old(self).registers@) ==> bank_valid(final(self).registers@),
    {
        let v = self.registers.read(reg);
        let old_a = self.registers.read(Register::A);
        let total: u16 = (old_a as u16) + (v as u16);
        let new_v: u8 = (total % 256) as u8;
        let overflow = total > 255;
        self.registers.set_zero_bit(new_v == 0);
        self.registers.set_subtraction_bit(false);
        self.registers.set_carry_bit(overflow);
        // Half-carry: the low nibbles alone would already carry out of bit 3.
        proof {
            assert(old_a & 0xF < 0x10 && v & 0xF < 0x10) by (bit_vector);
        }
        let lower_carry = (v & 0xF) + (old_a & 0xF) > 0xF;
        self.registers.set_half_carry_bit(lower_carry);
        // The accumulator has no restricted bit pattern, so this write is
        // proved infallible: an error here is unreachable by construction.
        let wrote = self.registers.write_register(Register::A, new_v);
        assert(wrote is Ok);
        proof {
            if bank_valid(old(self).registers@) {
                lemma_add_semantics(old(self).registers@, reg);
            }
        }
    }
}

} // verus!
