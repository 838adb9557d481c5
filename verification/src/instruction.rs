use vstd::prelude::*;

verus! {

/// One unit of the executable bytecode stream.
///
/// Two operand shapes exist: immediates are encoded inline, while string,
/// big-integer and variable-definition instructions carry non-negative
/// indices into the constant pool, resolved at execution time.
///
/// A floating-point literal is carried as the IEEE-754 bit pattern of its
/// value; the code generator never computes with it, it only transports the
/// operand into the stream.
#[derive(Clone, Copy, Debug, PartialEq, Eq, Structural)]
pub enum Instruction {
    /// Push the `undefined` value.
    Undefined,
    /// Push the `null` value.
    Null,
    /// Push the boolean `true`.
    True,
    /// Push the boolean `false`.
    False,
    /// Push a floating-point literal, given by the bit pattern of its value.
    Rational(u64),
    /// Push the integer `0` (dedicated fast-path opcode).
    Zero,
    /// Push the integer `1` (dedicated fast-path opcode).
    One,
    /// Push a 32-bit integer literal outside `{0, 1}`.
    Int32(i32),
    /// Push the string stored at the given pool index.
    String(usize),
    /// Push the arbitrary-precision integer stored at the given pool index.
    BigInt(usize),
    /// Define a variable binding: the name sits at the first pool index, the
    /// bound value at the second. Emission keeps the two adjacent.
    DefVar(usize, usize),
}

/// Every pool index carried by `instr` is strictly below `pool_len`.
pub open spec fn instr_in_bounds(instr: Instruction, pool_len: int) -> bool {
    match instr {
        Instruction::String(i) => i < pool_len,
        Instruction::BigInt(i) => i < pool_len,
        Instruction::DefVar(i, j) => i < pool_len && j < pool_len,
        _ => true,
    }
}

/// A pool index in bounds for some pool length stays in bounds when the pool
/// grows: the pool is append-only, so indices are never invalidated.
pub proof fn lemma_instr_in_bounds_monotonic(instr: Instruction, shorter: int, longer: int)
    requires
        instr_in_bounds(instr, shorter),
        shorter <= longer,
    ensures
        instr_in_bounds(instr, longer),
{
}

} // verus!
