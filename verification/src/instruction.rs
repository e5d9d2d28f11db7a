use vstd::prelude::*;

verus! {

/// The registers that are valid as an 8-bit arithmetic operand.
///
/// The flag register F is deliberately absent: it only holds condition
/// flags and is never a valid arithmetic operand.
#[derive(Debug, Clone, Copy, PartialEq, Eq, Structural)]
pub enum ArithmeticTarget {
    A,
    B,
    C,
    D,
    E,
    H,
    L,
}

/// A decoded instruction: an operation tag together with its operand.
///
/// The vocabulary is a closed sum type, so the execution engine must
/// match every tag exhaustively; adding an opcode without a handler is
/// a build-time error, never a runtime gap.
#[derive(Debug, Clone, Copy, PartialEq, Eq, Structural)]
pub enum Instruction {
    /// Add the target register's value into the accumulator A.
    Add(ArithmeticTarget),
}

} // verus!
