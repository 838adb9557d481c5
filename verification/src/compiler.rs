use vstd::prelude::*;

use crate::instruction::{instr_in_bounds, lemma_instr_in_bounds_monotonic, Instruction};
use crate::value::{BigIntValue, Value};

verus! {

/// The mutable state of one compilation unit: an append-only instruction
/// stream and an append-only constant pool. Instructions reference pool
/// entries by index; emission keeps every embedded index strictly below the
/// pool length.
#[derive(Debug)]
pub struct Compiler {
    /// The instruction stream; insertion order is execution order.
    pub instructions: Vec<Instruction>,
    /// The constant pool. Entries are immutable once pushed; the pool never
    /// shrinks or reorders, so indices are assigned in strict append order
    /// starting at 0 and never reused.
    pub pool: Vec<Value>,
}

impl Compiler {
    /// Every pool index embedded in an already-emitted instruction is
    /// strictly below the current pool length: no reference dangles.
    pub open spec fn wf(self) -> bool {
        forall|k: int|
            0 <= k < self.instructions@.len() ==> instr_in_bounds(
                #[trigger] self.instructions@[k],
                self.pool@.len() as int,
            )
    }

    /// A fresh compiler with an empty stream and an empty pool.
    pub fn new() -> (c: Compiler)
        ensures
            c.instructions@ == Seq::<Instruction>::empty(),
            c.pool@ == Seq::<Value>::empty(),
            c.wf(),
    {
        Compiler { instructions: Vec::new(), pool: Vec::new() }
    }

    /// Append one instruction to the stream. The pool is untouched, so any
    /// pool index the instruction carries must already be in bounds;
    /// violating that is a programming error in the dispatch layer.
    pub fn add_instruction(&mut self, instr: Instruction)
        requires
            instr_in_bounds(instr, old(self).pool@.len() as int),
        ensures
            final(self).instructions@ == old(self).instructions@.push(instr),
            final(self).pool@ == old(self).pool@,
            old(self).wf() ==> final(self).wf(),
    {
        self.instructions.push(instr);
    }

    /// Append one value to the constant pool and return its index. Indices
    /// are assigned in strict append order starting at 0 and never reused or
    /// reclaimed within one compilation unit. The stream is untouched.
    pub fn push_value(&mut self, value: Value) -> (index: usize)
        ensures
            index == old(self).pool@.len(),
            final(self).pool@ == old(self).pool@.push(value),
            final(self).instructions@ == old(self).instructions@,
            old(self).wf() ==> final(self).wf(),
    {
        let index = self.pool.len();
        self.pool.push(value);
        proof {
            if old(self).wf() {
                lemma_wf_pool_extended(*old(self), *self);
            }
        }
        index
    }

    /// Append a string to the constant pool and return its index.
    pub fn push_string(&mut self, string: String) -> (index: usize)
        ensures
            index == old(self).pool@.len(),
            final(self).pool@ == old(self).pool@.push(Value::String(string)),
            final(self).instructions@ == old(self).instructions@,
            old(self).wf() ==> final(self).wf(),
    {
        self.push_value(Value::String(string))
    }

    /// Append an arbitrary-precision integer to the constant pool and return
    /// its index.
    pub fn push_bigint(&mut self, bigint: BigIntValue) -> (index: usize)
        ensures
            index == old(self).pool@.len(),
            final(self).pool@ == old(self).pool@.push(Value::BigInt(bigint)),
            final(self).instructions@ == old(self).instructions@,
            old(self).wf() ==> final(self).wf(),
    {
        self.push_value(Value::BigInt(bigint))
    }

    /// Append two values as contiguous pool entries and return both indices,
    /// guaranteed adjacent (`index`, `index + 1`).
    pub fn push_pair(&mut self, a: Value, b: Value) -> (indices: (usize, usize))
        ensures
            indices.0 == old(self).pool@.len(),
            indices.1 == old(self).pool@.len() + 1,
            final(self).pool@ == old(self).pool@.push(a).push(b),
            final(self).instructions@ == old(self).instructions@,
            old(self).wf() ==> final(self).wf(),
    {
        let first = self.push_value(a);
        let second = self.push_value(b);
        (first, second)
    }

    /// Push `string` onto the pool and emit a `String` instruction
    /// referencing it. Grows the pool by 1 and the stream by 1.
    pub fn add_string_instruction(&mut self, string: String)
        ensures
            final(self).instructions@ == old(self).instructions@.push(
                Instruction::String(old(self).pool@.len() as usize),
            ),
            final(self).pool@ == old(self).pool@.push(Value::String(string)),
            old(self).wf() ==> final(self).wf(),
    {
        let index = self.push_string(string);
        self.add_instruction(Instruction::String(index));
    }

    /// Push `bigint` onto the pool and emit a `BigInt` instruction
    /// referencing it. Grows the pool by 1 and the stream by 1.
    pub fn add_bigint_instruction(&mut self, bigint: BigIntValue)
        ensures
            final(self).instructions@ == old(self).instructions@.push(
                Instruction::BigInt(old(self).pool@.len() as usize),
            ),
            final(self).pool@ == old(self).pool@.push(Value::BigInt(bigint)),
            old(self).wf() ==> final(self).wf(),
    {
        let index = self.push_bigint(bigint);
        self.add_instruction(Instruction::BigInt(index));
    }

    /// Push `name` and `value` as two contiguous pool entries, then emit a
    /// `DefVar` instruction carrying both indices. The two indices are
    /// guaranteed adjacent (`index`, `index + 1`), a deliberate compaction so
    /// the executing machine can fetch both with one base offset.
    pub fn add_defvar_instruction(&mut self, name: String, value: Value)
        ensures
            final(self).instructions@ == old(self).instructions@.push(
                Instruction::DefVar(
                    old(self).pool@.len() as usize,
                    (old(self).pool@.len() + 1) as usize,
                ),
            ),
            final(self).pool@ == old(self).pool@.push(Value::String(name)).push(value),
            old(self).wf() ==> final(self).wf(),
    {
        let indices = self.push_pair(Value::String(name), value);
        self.add_instruction(Instruction::DefVar(indices.0, indices.1));
    }
}

impl Default for Compiler {
    /// Same as `Compiler::new`: an empty stream and an empty pool.
    fn default() -> (c: Compiler)
        ensures
            c.instructions@ == Seq::<Instruction>::empty(),
            c.pool@ == Seq::<Value>::empty(),
            c.wf(),
    {
        Compiler::new()
    }
}

/// Growing the pool while leaving the stream alone preserves
/// well-formedness: the pool is append-only, so no index is invalidated.
pub proof fn lemma_wf_pool_extended(pre: Compiler, post: Compiler)
    requires
        pre.wf(),
        post.instructions@ == pre.instructions@,
        pre.pool@.len() <= post.pool@.len(),
    ensures
        post.wf(),
{
    assert forall|k: int| 0 <= k < post.instructions@.len() implies instr_in_bounds(
        #[trigger] post.instructions@[k],
        post.pool@.len() as int,
    ) by {
        assert(instr_in_bounds(pre.instructions@[k], pre.pool@.len() as int));
        lemma_instr_in_bounds_monotonic(
            pre.instructions@[k],
            pre.pool@.len() as int,
            post.pool@.len() as int,
        );
    }
}

} // verus!
