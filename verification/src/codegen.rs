use vstd::prelude::*;

use crate::ast::{Const, LetDecl, Node};
use crate::compiler::Compiler;
use crate::eval::{eval_result, Context};
use crate::instruction::Instruction;
use crate::value::Value;

verus! {

/// Why a compilation unit was aborted.
#[derive(Clone, Copy, Debug, PartialEq, Eq, Structural)]
pub enum CompileError {
    /// Dispatch reached a node kind with no lowering rule. Fatal to the
    /// current unit: aborting beats silently emitting nothing, which would
    /// let the stream's semantics diverge from the source program.
    UnsupportedNode,
}

/// The instruction an integer literal lowers to. The cheapest opcode wins:
/// `Zero`, then `One`, then the general `Int32`; `0` and `1` never pay for
/// an inline operand.
pub open spec fn int_instr(v: i32) -> Instruction {
    if v == 0 {
        Instruction::Zero
    } else if v == 1 {
        Instruction::One
    } else {
        Instruction::Int32(v)
    }
}

/// The single instruction a literal constant lowers to, given the pool
/// length at the moment of emission.
pub open spec fn const_instr(c: Const, pool_len: int) -> Instruction {
    match c {
        Const::Undefined => Instruction::Undefined,
        Const::Null => Instruction::Null,
        Const::Bool(b) => if b {
            Instruction::True
        } else {
            Instruction::False
        },
        Const::Num(bits) => Instruction::Rational(bits),
        Const::Int(v) => int_instr(v),
        Const::String(_) => Instruction::String(pool_len as usize),
        Const::BigInt(_) => Instruction::BigInt(pool_len as usize),
    }
}

/// The pool after a literal constant is lowered: strings and big integers
/// append their value, every other literal is inline and leaves the pool
/// alone.
pub open spec fn const_pool(c: Const, pool: Seq<Value>) -> Seq<Value> {
    match c {
        Const::String(s) => pool.push(Value::String(s)),
        Const::BigInt(b) => pool.push(Value::BigInt(b)),
        _ => pool,
    }
}

/// The value a declaration binds: its initializer evaluated eagerly if
/// present, with `undefined` substituted both for a missing initializer and
/// for a failed evaluation (the failure is swallowed, not propagated).
pub open spec fn decl_value(d: LetDecl) -> Value {
    match d.init {
        Some(e) => match eval_result(e) {
            Ok(v) => v,
            Err(_) => Value::Undefined,
        },
        None => Value::Undefined,
    }
}

/// The instructions appended and the pool produced when a declaration list
/// is lowered in source order against a starting pool: each declaration
/// pushes its name and its bound value as two contiguous entries and emits
/// one `DefVar` carrying both indices.
pub open spec fn decls_emits(decls: Seq<LetDecl>, pool: Seq<Value>) -> (Seq<Instruction>, Seq<
    Value,
>)
    decreases decls.len(),
{
    if decls.len() == 0 {
        (Seq::<Instruction>::empty(), pool)
    } else {
        let prev = decls_emits(decls.drop_last(), pool);
        let d = decls.last();
        (
            prev.0.push(
                Instruction::DefVar(prev.1.len() as usize, (prev.1.len() + 1) as usize),
            ),
            prev.1.push(Value::String(d.name)).push(decl_value(d)),
        )
    }
}

/// What lowering one node against a starting pool emits: the instructions
/// appended to the stream and the pool afterwards, or nothing when the node
/// kind has no lowering rule.
pub open spec fn node_emits(n: Node, pool: Seq<Value>) -> Option<(Seq<Instruction>, Seq<Value>)> {
    match n {
        Node::Const(c) => Some((seq![const_instr(c, pool.len() as int)], const_pool(c, pool))),
        Node::LetDeclList(decls) => Some(decls_emits(decls@, pool)),
        Node::Unsupported => None,
    }
}

impl Node {
    /// Lower this node into emissions on `compiler`: the matching
    /// zero-operand or immediate instruction for a literal, one `DefVar`
    /// per declaration for a declaration list (its initializer evaluated
    /// eagerly against `context`, `undefined` substituted when absent or
    /// failing), and an abort for any node kind without a rule, leaving the
    /// compiler untouched.
    pub fn compile(&self, compiler: &mut Compiler, context: &mut Context) -> (r: Result<
        (),
        CompileError,
    >)
        ensures
            (match node_emits(*self, old(compiler).pool@) {
                Some(em) => r == Ok::<(), CompileError>(()) && final(compiler).instructions@
                    == old(compiler).instructions@ + em.0 && final(compiler).pool@ == em.1,
                None => r == Err::<(), CompileError>(CompileError::UnsupportedNode)
                    && *final(compiler) == *old(compiler),
            }),
            old(compiler).wf() ==> final(compiler).wf(),
            *final(context) == *old(context),
    {
        match self {
            Node::Const(c) => {
                match c {
                    Const::Undefined => compiler.add_instruction(Instruction::Undefined),
                    Const::Null => compiler.add_instruction(Instruction::Null),
                    Const::Bool(b) => {
                        if *b {
                            compiler.add_instruction(Instruction::True)
                        } else {
                            compiler.add_instruction(Instruction::False)
                        }
                    },
                    Const::Num(bits) => compiler.add_instruction(Instruction::Rational(*bits)),
                    Const::Int(v) => {
                        if *v == 0 {
                            compiler.add_instruction(Instruction::Zero)
                        } else if *v == 1 {
                            compiler.add_instruction(Instruction::One)
                        } else {
                            compiler.add_instruction(Instruction::Int32(*v))
                        }
                    },
                    Const::String(s) => compiler.add_string_instruction(s.clone()),
                    Const::BigInt(b) => compiler.add_bigint_instruction(b.duplicate()),
                }
                proof {
                    assert(final(compiler).instructions@ =~= old(compiler).instructions@ + seq![
                        const_instr(*c, old(compiler).pool@.len() as int),
                    ]);
                }
                Ok(())
            },
            Node::LetDeclList(decls) => {
                let ghost instrs0 = compiler.instructions@;
                let ghost pool0 = compiler.pool@;
                let ghost wf0 = compiler.wf();
                let mut i: usize = 0;
                while i < decls.len()
                    invariant
                        i <= decls.len(),
                        compiler.instructions@ == instrs0 + decls_emits(
                            decls@.take(i as int),
                            pool0,
                        ).0,
                        compiler.pool@ == decls_emits(decls@.take(i as int), pool0).1,
                        wf0 ==> compiler.wf(),
                    decreases decls.len() - i,
                {
                    let d = &decls[i];
                    let value = match &d.init {
                        Some(e) => {
                            match e.run(context) {
                                Ok(v) => v,
                                Err(_) => Value::undefined(),
                            }
                        },
                        None => Value::undefined(),
                    };
                    compiler.add_defvar_instruction(d.name.clone(), value);
                    proof {
                        let taken = decls@.take(i as int + 1);
                        assert(taken.drop_last() =~= decls@.take(i as int));
                        assert(taken.last() == decls@[i as int]);
                        assert(compiler.instructions@ =~= instrs0 + decls_emits(taken, pool0).0);
                    }
                    i = i + 1;
                }
                proof {
                    assert(decls@.take(decls@.len() as int) =~= decls@);
                }
                Ok(())
            },
            Node::Unsupported => Err(CompileError::UnsupportedNode),
        }
    }
}

/// Compile one unit: lower `node` into a fresh compiler and hand the
/// finished stream and pool over by move. A node kind without a lowering
/// rule aborts the whole unit; no partial instruction stream is ever
/// observable by the caller.
pub fn compile_unit(node: &Node, context: &mut Context) -> (r: Result<Compiler, CompileError>)
    ensures
        (match node_emits(*node, Seq::<Value>::empty()) {
            Some(em) => (match r {
                Ok(c) => c.instructions@ == em.0 && c.pool@ == em.1 && c.wf(),
                Err(_) => false,
            }),
            None => r == Err::<Compiler, CompileError>(CompileError::UnsupportedNode),
        }),
        *final(context) == *old(context),
{
    let mut compiler = Compiler::new();
    match node.compile(&mut compiler, context) {
        Ok(_) => {
            proof {
                let em = node_emits(*node, Seq::<Value>::empty())->Some_0;
                assert(Seq::<Instruction>::empty() + em.0 =~= em.0);
            }
            Ok(compiler)
        },
        Err(e) => Err(e),
    }
}

} // verus!
