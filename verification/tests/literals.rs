use boa_codegen::ast::{Const, Node};
use boa_codegen::codegen::{compile_unit, CompileError};
use boa_codegen::compiler::Compiler;
use boa_codegen::eval::Context;
use boa_codegen::instruction::Instruction;
use boa_codegen::value::{BigIntValue, Value};

#[test]
fn int_zero_compiles_to_zero_opcode() {
    let mut context = Context::new();
    let unit = compile_unit(&Node::Const(Const::Int(0)), &mut context).unwrap();
    assert_eq!(unit.instructions, vec![Instruction::Zero]);
    assert_eq!(unit.pool, vec![]);
}

#[test]
fn int_one_compiles_to_one_opcode() {
    let mut context = Context::new();
    let unit = compile_unit(&Node::Const(Const::Int(1)), &mut context).unwrap();
    assert_eq!(unit.instructions, vec![Instruction::One]);
    assert_eq!(unit.pool, vec![]);
}

#[test]
fn other_ints_compile_to_int32() {
    let mut context = Context::new();
    for v in [2, -1, 42, i32::MAX, i32::MIN] {
        let unit = compile_unit(&Node::Const(Const::Int(v)), &mut context).unwrap();
        assert_eq!(unit.instructions, vec![Instruction::Int32(v)]);
        assert_eq!(unit.pool, vec![]);
    }
}

#[test]
fn string_literal_appends_one_pool_entry() {
    let mut context = Context::new();
    let unit =
        compile_unit(&Node::Const(Const::String(String::from("hi"))), &mut context).unwrap();
    assert_eq!(unit.instructions, vec![Instruction::String(0)]);
    assert_eq!(unit.pool, vec![Value::String(String::from("hi"))]);
}

#[test]
fn bigint_literal_appends_one_pool_entry() {
    let mut context = Context::new();
    let big = BigIntValue::new(true, String::from("123456789012345678901234567890"));
    let unit = compile_unit(&Node::Const(Const::BigInt(big)), &mut context).unwrap();
    assert_eq!(unit.instructions, vec![Instruction::BigInt(0)]);
    assert_eq!(
        unit.pool,
        vec![Value::BigInt(BigIntValue::new(
            true,
            String::from("123456789012345678901234567890")
        ))]
    );
}

#[test]
fn zero_operand_literals() {
    let mut context = Context::new();
    let cases = [
        (Const::Undefined, Instruction::Undefined),
        (Const::Null, Instruction::Null),
        (Const::Bool(true), Instruction::True),
        (Const::Bool(false), Instruction::False),
    ];
    for (constant, instruction) in cases {
        let unit = compile_unit(&Node::Const(constant), &mut context).unwrap();
        assert_eq!(unit.instructions, vec![instruction]);
        assert!(unit.pool.is_empty());
    }
}

#[test]
fn rational_literal_carries_its_bit_pattern() {
    let mut context = Context::new();
    let bits = 2.5f64.to_bits();
    let unit = compile_unit(&Node::Const(Const::Num(bits)), &mut context).unwrap();
    assert_eq!(unit.instructions, vec![Instruction::Rational(bits)]);
    assert!(unit.pool.is_empty());
    assert_eq!(f64::from_bits(bits), 2.5);
}

#[test]
fn compiling_twice_is_deterministic() {
    let mut context = Context::new();
    let node = Node::Const(Const::String(String::from("again")));
    let first = compile_unit(&node, &mut context).unwrap();
    let second = compile_unit(&node, &mut context).unwrap();
    assert_eq!(first.instructions, second.instructions);
    assert_eq!(first.pool, second.pool);
}

#[test]
fn unsupported_node_aborts_compilation() {
    let mut context = Context::new();
    let result = compile_unit(&Node::Unsupported, &mut context);
    assert_eq!(result.unwrap_err(), CompileError::UnsupportedNode);
}

#[test]
fn unsupported_node_leaves_compiler_untouched() {
    let mut context = Context::new();
    let mut compiler = Compiler::new();
    Node::Const(Const::Int(7))
        .compile(&mut compiler, &mut context)
        .unwrap();
    let result = Node::Unsupported.compile(&mut compiler, &mut context);
    assert_eq!(result.unwrap_err(), CompileError::UnsupportedNode);
    assert_eq!(compiler.instructions, vec![Instruction::Int32(7)]);
    assert!(compiler.pool.is_empty());
}
