use vstd::prelude::*;

use crate::ast::{Const, Expr};
use crate::value::Value;

verus! {

/// The execution context threaded through compilation. It stands in for the
/// environment the surrounding engine supplies during eager evaluation; the
/// expression subset evaluated here needs nothing from it, and evaluation
/// leaves it unchanged.
#[derive(Debug)]
pub struct Context {}

impl Context {
    pub fn new() -> Context {
        Context {}
    }
}

/// Why an eager evaluation failed.
#[derive(Clone, Copy, Debug, PartialEq, Eq, Structural)]
pub enum EvalError {
    /// The expression form has no evaluation rule in this subset.
    UnsupportedExpression,
}

/// The runtime value a literal constant denotes.
pub open spec fn const_value(c: Const) -> Value {
    match c {
        Const::Undefined => Value::Undefined,
        Const::Null => Value::Null,
        Const::Bool(b) => Value::Boolean(b),
        Const::Num(bits) => Value::Rational(bits),
        Const::Int(v) => Value::Integer(v),
        Const::String(s) => Value::String(s),
        Const::BigInt(b) => Value::BigInt(b),
    }
}

/// What eagerly evaluating an initializer expression returns: the denoted
/// value for a constant, an error for every other form.
pub open spec fn eval_result(e: Expr) -> Result<Value, EvalError> {
    match e {
        Expr::Const(c) => Ok(const_value(c)),
        Expr::Other => Err(EvalError::UnsupportedExpression),
    }
}

impl Const {
    /// The runtime value this constant denotes, as a fresh owned value.
    pub fn value(&self) -> (v: Value)
        ensures
            v == const_value(*self),
    {
        match self {
            Const::Undefined => Value::Undefined,
            Const::Null => Value::Null,
            Const::Bool(b) => Value::Boolean(*b),
            Const::Num(bits) => Value::Rational(*bits),
            Const::Int(v) => Value::Integer(*v),
            Const::String(s) => Value::String(s.clone()),
            Const::BigInt(b) => Value::BigInt(b.duplicate()),
        }
    }
}

impl Expr {
    /// Eagerly evaluate this expression against the current context:
    /// constants yield their value, every other form fails. The context is
    /// left unchanged, so evaluation is deterministic.
    pub fn run(&self, context: &mut Context) -> (r: Result<Value, EvalError>)
        ensures
            r == eval_result(*self),
            *final(context) == *old(context),
    {
        match self {
            Expr::Const(c) => Ok(c.value()),
            Expr::Other => Err(EvalError::UnsupportedExpression),
        }
    }
}

} // verus!
