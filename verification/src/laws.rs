use vstd::prelude::*;

use crate::ast::{Const, LetDecl, Node};
use crate::codegen::{decl_value, decls_emits, int_instr, node_emits};
use crate::instruction::{instr_in_bounds, lemma_instr_in_bounds_monotonic, Instruction};
use crate::value::Value;

verus! {

/// Compilation is deterministic: what a node emits is a function of the
/// node and the starting pool alone, so compiling the same node twice from
/// equal compiler states yields identical instruction streams and pools.
pub proof fn lemma_compile_deterministic(n: Node, pool1: Seq<Value>, pool2: Seq<Value>)
    requires
        pool1 == pool2,
    ensures
        node_emits(n, pool1) == node_emits(n, pool2),
{
}

/// Integer-literal lowering picks the cheapest opcode first: `0` always
/// becomes exactly `Zero`, `1` always `One`, and every other value `v`
/// becomes `Int32(v)`; an `Int32` carrying `0` or `1` is never emitted.
pub proof fn lemma_int_literal_tie_break(v: i32, pool: Seq<Value>)
    ensures
        node_emits(Node::Const(Const::Int(v)), pool) == Some(
            (seq![int_instr(v)], pool),
        ),
        int_instr(0i32) == Instruction::Zero,
        int_instr(1i32) == Instruction::One,
        v != 0 && v != 1 ==> int_instr(v) == Instruction::Int32(v),
        int_instr(v) != Instruction::Int32(0i32),
        int_instr(v) != Instruction::Int32(1i32),
{
}

/// A string literal appends exactly one pool entry, equal to the string,
/// and emits exactly one `String` instruction whose index resolves to that
/// entry.
pub proof fn lemma_string_literal(s: String, pool: Seq<Value>)
    requires
        pool.len() < usize::MAX,
    ensures
        node_emits(Node::Const(Const::String(s)), pool) == Some(
            (
                seq![Instruction::String(pool.len() as usize)],
                pool.push(Value::String(s)),
            ),
        ),
        pool.push(Value::String(s)).len() == pool.len() + 1,
        pool.push(Value::String(s))[pool.len() as int] == Value::String(s),
        instr_in_bounds(
            Instruction::String(pool.len() as usize),
            pool.push(Value::String(s)).len() as int,
        ),
{
}

/// Lowering a declaration list of length `n` emits exactly `n`
/// instructions and grows the pool by exactly `2 * n` entries.
pub proof fn lemma_decl_list_len(decls: Seq<LetDecl>, pool: Seq<Value>)
    ensures
        decls_emits(decls, pool).0.len() == decls.len(),
        decls_emits(decls, pool).1.len() == pool.len() + 2 * decls.len(),
    decreases decls.len(),
{
    if decls.len() > 0 {
        lemma_decl_list_len(decls.drop_last(), pool);
    }
}

/// The exact shape of a lowered declaration list: the `j`-th emitted
/// instruction is a `DefVar` whose two pool indices are adjacent, the first
/// resolving to the `j`-th declared name and the second to its eagerly
/// determined value; entries below the starting pool length are untouched.
pub proof fn lemma_decl_list_shape(decls: Seq<LetDecl>, pool: Seq<Value>)
    requires
        pool.len() + 2 * decls.len() <= usize::MAX,
    ensures
        forall|k: int|
            0 <= k < pool.len() ==> #[trigger] decls_emits(decls, pool).1[k] == pool[k],
        forall|j: int|
            0 <= j < decls.len() ==> #[trigger] decls_emits(decls, pool).0[j]
                == Instruction::DefVar(
                (pool.len() + 2 * j) as usize,
                (pool.len() + 2 * j + 1) as usize,
            ),
        forall|j: int|
            0 <= j < decls.len() ==> #[trigger] decls_emits(decls, pool).1[pool.len() + 2 * j]
                == Value::String(decls[j].name),
        forall|j: int|
            0 <= j < decls.len() ==> #[trigger] decls_emits(decls, pool).1[pool.len() + 2 * j + 1]
                == decl_value(decls[j]),
    decreases decls.len(),
{
    lemma_decl_list_len(decls, pool);
    if decls.len() > 0 {
        let prev = decls_emits(decls.drop_last(), pool);
        lemma_decl_list_len(decls.drop_last(), pool);
        lemma_decl_list_shape(decls.drop_last(), pool);
    }
}

/// A declaration without an initializer binds `undefined`: the value slot
/// of its `DefVar` resolves to the `undefined` runtime value.
pub proof fn lemma_uninitialized_binds_undefined(decls: Seq<LetDecl>, pool: Seq<Value>, j: int)
    requires
        pool.len() + 2 * decls.len() <= usize::MAX,
        0 <= j < decls.len(),
        decls[j].init is None,
    ensures
        decls_emits(decls, pool).1[pool.len() + 2 * j + 1] == Value::Undefined,
{
    lemma_decl_list_shape(decls, pool);
}

/// No dangling references within a lowered declaration list: every pool
/// index embedded in an emitted instruction is strictly below the length of
/// the pool the lowering produced.
pub proof fn lemma_decl_list_in_bounds(decls: Seq<LetDecl>, pool: Seq<Value>)
    requires
        pool.len() + 2 * decls.len() <= usize::MAX,
    ensures
        forall|k: int|
            0 <= k < decls_emits(decls, pool).0.len() ==> instr_in_bounds(
                #[trigger] decls_emits(decls, pool).0[k],
                decls_emits(decls, pool).1.len() as int,
            ),
    decreases decls.len(),
{
    lemma_decl_list_len(decls, pool);
    if decls.len() > 0 {
        let prev = decls_emits(decls.drop_last(), pool);
        lemma_decl_list_len(decls.drop_last(), pool);
        lemma_decl_list_in_bounds(decls.drop_last(), pool);
        assert forall|k: int| 0 <= k < decls_emits(decls, pool).0.len() implies instr_in_bounds(
            #[trigger] decls_emits(decls, pool).0[k],
            decls_emits(decls, pool).1.len() as int,
        ) by {
            if k < prev.0.len() {
                assert(instr_in_bounds(prev.0[k], prev.1.len() as int));
                lemma_instr_in_bounds_monotonic(
                    prev.0[k],
                    prev.1.len() as int,
                    decls_emits(decls, pool).1.len() as int,
                );
            }
        }
    }
}

/// No dangling references, for any node with a lowering rule: every pool
/// index embedded in an emitted instruction is strictly below the length of
/// the pool that compilation ends with, and the starting pool's entries are
/// untouched underneath it.
pub proof fn lemma_no_dangling_references(n: Node, pool: Seq<Value>)
    requires
        node_emits(n, pool) is Some,
        node_emits(n, pool)->Some_0.1.len() <= usize::MAX,
    ensures
        pool.len() <= node_emits(n, pool)->Some_0.1.len(),
        forall|k: int|
            0 <= k < pool.len() ==> #[trigger] node_emits(n, pool)->Some_0.1[k] == pool[k],
        forall|k: int|
            0 <= k < node_emits(n, pool)->Some_0.0.len() ==> instr_in_bounds(
                #[trigger] node_emits(n, pool)->Some_0.0[k],
                node_emits(n, pool)->Some_0.1.len() as int,
            ),
{
    match n {
        Node::Const(c) => {},
        Node::LetDeclList(decls) => {
            lemma_decl_list_len(decls@, pool);
            lemma_decl_list_shape(decls@, pool);
            lemma_decl_list_in_bounds(decls@, pool);
        },
        Node::Unsupported => {},
    }
}

} // verus!
