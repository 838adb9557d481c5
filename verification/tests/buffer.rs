use boa_codegen::ast::{Const, Expr};
use boa_codegen::compiler::Compiler;
use boa_codegen::eval::{Context, EvalError};
use boa_codegen::instruction::Instruction;
use boa_codegen::value::{BigIntValue, Value};

#[test]
fn add_instruction_appends_to_the_stream() {
    let mut compiler = Compiler::new();
    compiler.add_instruction(Instruction::Null);
    compiler.add_instruction(Instruction::True);
    assert_eq!(
        compiler.instructions,
        vec![Instruction::Null, Instruction::True]
    );
    assert!(compiler.pool.is_empty());
}

#[test]
fn add_string_instruction_references_the_new_entry() {
    let mut compiler = Compiler::new();
    compiler.add_string_instruction(String::from("one"));
    compiler.add_string_instruction(String::from("two"));
    assert_eq!(
        compiler.instructions,
        vec![Instruction::String(0), Instruction::String(1)]
    );
    assert_eq!(
        compiler.pool,
        vec![
            Value::String(String::from("one")),
            Value::String(String::from("two"))
        ]
    );
}

#[test]
fn add_bigint_instruction_references_the_new_entry() {
    let mut compiler = Compiler::new();
    compiler.add_string_instruction(String::from("shift"));
    compiler.add_bigint_instruction(BigIntValue::new(false, String::from("7")));
    assert_eq!(
        compiler.instructions,
        vec![Instruction::String(0), Instruction::BigInt(1)]
    );
    assert_eq!(compiler.pool.len(), 2);
    assert_eq!(
        compiler.pool[1],
        Value::BigInt(BigIntValue::new(false, String::from("7")))
    );
}

#[test]
fn add_defvar_instruction_pushes_two_contiguous_entries() {
    let mut compiler = Compiler::new();
    compiler.add_string_instruction(String::from("padding"));
    compiler.add_defvar_instruction(String::from("name"), Value::Integer(9));
    assert_eq!(
        compiler.instructions,
        vec![Instruction::String(0), Instruction::DefVar(1, 2)]
    );
    assert_eq!(
        compiler.pool,
        vec![
            Value::String(String::from("padding")),
            Value::String(String::from("name")),
            Value::Integer(9)
        ]
    );
}

#[test]
fn pool_pushes_assign_indices_in_append_order() {
    let mut compiler = Compiler::new();
    let first = compiler.push_string(String::from("zero"));
    let second = compiler.push_bigint(BigIntValue::new(false, String::from("1")));
    let third = compiler.push_value(Value::Null);
    assert_eq!((first, second, third), (0, 1, 2));
    assert_eq!(
        compiler.pool,
        vec![
            Value::String(String::from("zero")),
            Value::BigInt(BigIntValue::new(false, String::from("1"))),
            Value::Null
        ]
    );
    assert!(compiler.instructions.is_empty());
}

#[test]
fn push_pair_returns_adjacent_indices() {
    let mut compiler = Compiler::new();
    compiler.push_value(Value::Undefined);
    let (a, b) = compiler.push_pair(Value::Integer(5), Value::Boolean(true));
    assert_eq!((a, b), (1, 2));
    assert_eq!(
        compiler.pool,
        vec![Value::Undefined, Value::Integer(5), Value::Boolean(true)]
    );
}

#[test]
fn default_compiler_is_empty() {
    let compiler = Compiler::default();
    assert!(compiler.instructions.is_empty());
    assert!(compiler.pool.is_empty());
}

#[test]
fn constant_expressions_evaluate_to_their_value() {
    let mut context = Context::new();
    let cases = [
        (Const::Undefined, Value::Undefined),
        (Const::Null, Value::Null),
        (Const::Bool(false), Value::Boolean(false)),
        (Const::Num(1.25f64.to_bits()), Value::Rational(1.25f64.to_bits())),
        (Const::Int(-3), Value::Integer(-3)),
        (
            Const::String(String::from("v")),
            Value::String(String::from("v")),
        ),
        (
            Const::BigInt(BigIntValue::new(false, String::from("10"))),
            Value::BigInt(BigIntValue::new(false, String::from("10"))),
        ),
    ];
    for (constant, value) in cases {
        assert_eq!(Expr::Const(constant).run(&mut context).unwrap(), value);
    }
}

#[test]
fn unsupported_expressions_fail_evaluation() {
    let mut context = Context::new();
    assert_eq!(
        Expr::Other.run(&mut context).unwrap_err(),
        EvalError::UnsupportedExpression
    );
}
