use vstd::prelude::*;

verus! {

/// An arbitrary-precision integer, carried as a sign and its decimal text.
///
/// The code generator only transports such a value into the constant pool; it
/// never computes with it, so the textual magnitude is all it needs to hold.
#[derive(Debug, PartialEq, Eq)]
pub struct BigIntValue {
    /// Whether the integer is negative.
    pub negative: bool,
    /// The decimal digits of the magnitude, most significant first.
    pub digits: String,
}

impl BigIntValue {
    pub fn new(negative: bool, digits: String) -> (b: BigIntValue)
        ensures
            b == (BigIntValue { negative, digits }),
    {
        BigIntValue { negative, digits }
    }

    /// An explicit copy; the result equals the original.
    pub fn duplicate(&self) -> (b: BigIntValue)
        ensures
            b == *self,
    {
        let b = BigIntValue { negative: self.negative, digits: self.digits.clone() };
        proof {
            assert(b == *self);
        }
        b
    }
}

/// A runtime value as it appears in the constant pool: either produced from a
/// literal or computed eagerly from a declaration initializer.
///
/// Floating-point values are carried as the IEEE-754 bit pattern of the
/// number, never operated on.
#[derive(Debug, PartialEq)]
pub enum Value {
    Undefined,
    Null,
    Boolean(bool),
    /// A floating-point value, given by its bit pattern.
    Rational(u64),
    Integer(i32),
    String(String),
    BigInt(BigIntValue),
}

impl Value {
    /// The `undefined` value, substituted wherever no initializer value is
    /// available.
    pub fn undefined() -> (v: Value)
        ensures
            v == Value::Undefined,
    {
        Value::Undefined
    }
}

} // verus!
