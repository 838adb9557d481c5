use vstd::prelude::*;

use crate::value::BigIntValue;

verus! {

/// A literal constant as the parser hands it over.
///
/// A floating-point literal is carried as the IEEE-754 bit pattern of its
/// value: the code generator only moves the operand into the stream.
#[derive(Debug, PartialEq)]
pub enum Const {
    Undefined,
    Null,
    Bool(bool),
    /// A floating-point literal, given by its bit pattern.
    Num(u64),
    /// A 32-bit integer literal.
    Int(i32),
    String(String),
    BigInt(BigIntValue),
}

/// A declaration initializer expression, as far as the eager evaluator of
/// this subset can see it.
#[derive(Debug, PartialEq)]
pub enum Expr {
    /// A constant expression; eager evaluation yields its value directly.
    Const(Const),
    /// An expression form the eager evaluator has no rule for; evaluating it
    /// fails, and the declaration lowering substitutes `undefined`.
    Other,
}

/// One declaration out of a variable-declaration list: a name and an
/// optional initializer expression.
#[derive(Debug, PartialEq)]
pub struct LetDecl {
    pub name: String,
    pub init: Option<Expr>,
}

impl LetDecl {
    pub fn new(name: String, init: Option<Expr>) -> (d: LetDecl)
        ensures
            d == (LetDecl { name, init }),
    {
        LetDecl { name, init }
    }
}

/// An abstract syntax tree node, covering the node kinds this code
/// generator lowers itself. Kinds outside the subset (operator nodes, whose
/// lowering lives with the surrounding engine, and everything not yet given
/// a rule) appear as `Unsupported`: dispatch must abort on them rather than
/// silently emit nothing.
#[derive(Debug, PartialEq)]
pub enum Node {
    /// A literal constant.
    Const(Const),
    /// A `let` declaration list; each declaration defines one binding.
    LetDeclList(Vec<LetDecl>),
    /// A node kind with no lowering rule here.
    Unsupported,
}

} // verus!
