//! The per-element code path and the counted loop around it, as data with
//! an exact semantics.
//!
//! An action emits a short straight-line sequence of [`BodyOp`]s; the
//! instantiation pipeline concatenates those sequences into the body of a
//! [`LoopProgram`].  The loop built around the body has the shape
//!
//! ```text
//! header:  if index < bound goto body else goto exit
//! body:    address := base + index * size_of(element)
//!          <body ops on the element at address>
//!          index := index + 1; goto header
//! exit:    return
//! ```
//!
//! so indices run `0, 1, ..., bound - 1` in ascending order, each visited
//! exactly once, and nothing past `bound` is touched.  [`run_ops`] gives
//! the body its meaning on one element; [`loop_transform`] gives the whole
//! loop its meaning on a sequence of element cells.  The functions here
//! both define that meaning and execute it, so a program can be applied
//! without the backend and every application is proved against the same
//! semantics the code generator is built from.
use crate::types::{wrap, IntKind};
use vstd::arithmetic::div_mod::{
    lemma_mod_add_multiples_vanish, lemma_mod_bound, lemma_sub_mod_noop_right,
};
use vstd::arithmetic::power2::{lemma2_to64_rest, lemma_pow2_pos, lemma_pow2_strictly_increases,
    pow2};
use vstd::prelude::*;

verus! {

/// One instruction of the per-element code path.  The machine it runs on
/// has the current element's cell and one scratch register; constants have
/// already been truncated to the element width when the op was built.
#[derive(Clone, Copy, Debug, PartialEq, Eq, Structural)]
pub enum BodyOp {
    /// Read the element's cell into the register.
    Load,
    /// Add the constant to the register, wrapping at the element width.
    AddConst(u64),
    /// Subtract the constant from the register, wrapping at the element
    /// width.
    SubConst(u64),
    /// Write the register back to the element's cell.
    Store,
}

/// Effect of one op on the state `(cell, register)` of a `w`-bit element.
pub open spec fn op_step(w: nat, op: BodyOp, st: (int, int)) -> (int, int) {
    match op {
        BodyOp::Load => (st.0, wrap(w, st.0)),
        BodyOp::AddConst(c) => (st.0, wrap(w, st.1 + c)),
        BodyOp::SubConst(c) => (st.0, wrap(w, st.1 - c)),
        BodyOp::Store => (st.1, st.1),
    }
}

/// Effect of a straight-line op sequence, first op first.
pub open spec fn run_ops(w: nat, ops: Seq<BodyOp>, st: (int, int)) -> (int, int)
    decreases ops.len(),
{
    if ops.len() == 0 {
        st
    } else {
        run_ops(w, ops.drop_first(), op_step(w, ops[0], st))
    }
}

/// What a body leaves in a `w`-bit element cell that held `x`, starting
/// from a cleared register.
pub open spec fn elem_effect(w: nat, ops: Seq<BodyOp>, x: int) -> int {
    run_ops(w, ops, (x, 0)).0
}

/// Running a concatenation is running the two halves in order.
pub proof fn lemma_run_ops_concat(w: nat, ops1: Seq<BodyOp>, ops2: Seq<BodyOp>, st: (int, int))
    ensures
        run_ops(w, ops1 + ops2, st) == run_ops(w, ops2, run_ops(w, ops1, st)),
    decreases ops1.len(),
{
    if ops1.len() == 0 {
        assert(ops1 + ops2 =~= ops2);
    } else {
        assert((ops1 + ops2).drop_first() =~= ops1.drop_first() + ops2);
        lemma_run_ops_concat(w, ops1.drop_first(), ops2, op_step(w, ops1[0], st));
    }
}

/// Running one more op is stepping the result of the prefix.
pub proof fn lemma_run_ops_snoc(w: nat, ops: Seq<BodyOp>, op: BodyOp, st: (int, int))
    ensures
        run_ops(w, ops.push(op), st) == op_step(w, op, run_ops(w, ops, st)),
{
    let single = seq![op];
    assert(ops.push(op) =~= ops + single);
    lemma_run_ops_concat(w, ops, single, st);
    let mid = run_ops(w, ops, st);
    assert(single.drop_first() =~= Seq::<BodyOp>::empty());
    assert(run_ops(w, single, mid) == run_ops(w, Seq::<BodyOp>::empty(), op_step(w, op, mid)));
    assert(run_ops(w, Seq::<BodyOp>::empty(), op_step(w, op, mid)) == op_step(w, op, mid));
}

/// A width of at most 64 bits has a modulus of at most `2^64`.
pub proof fn lemma_pow2_le64(w: nat)
    requires
        w <= 64,
    ensures
        pow2(w) <= pow2(64),
{
    if w < 64 {
        lemma_pow2_strictly_increases(w, 64);
    }
}

/// A finalized transformation program: the element kind it was compiled
/// for and the straight-line body the loop runs on each element.
#[derive(Debug)]
pub struct LoopProgram {
    pub kind: IntKind,
    pub body: Vec<BodyOp>,
}

impl LoopProgram {
    /// Programs exist only for kinds whose type mapping is complete.
    pub open spec fn wf(self) -> bool {
        self.kind.supported()
    }

    /// What the program leaves in one element cell that held `x`.
    pub open spec fn elem_spec(self, x: int) -> int {
        elem_effect(self.kind.bits(), self.body@, x)
    }

    /// What the program's loop, bounded by `bound`, leaves in a sequence
    /// of element cells: every index below the bound holds the element
    /// effect of its old value, everything at or past the bound is
    /// untouched.
    pub open spec fn loop_transform(self, data: Seq<u64>, bound: nat) -> Seq<u64> {
        Seq::new(data.len(), |i: int| if i < bound { self.elem_spec(data[i] as int) as u64 } else { data[i] })
    }

    /// Run the body on one element cell.
    pub fn run_elem(&self, x: u64) -> (r: u64)
        requires
            self.wf(),
        ensures
            r == self.elem_spec(x as int),
    {
        let ghost w = self.kind.bits();
        let m: u128 = self.kind.small_modulus();
        proof {
            lemma_pow2_pos(w);
            lemma_pow2_le64(w);
            lemma2_to64_rest();
        }
        let mut mem: u64 = x;
        let mut reg: u64 = 0;
        let mut j: usize = 0;
        while j < self.body.len()
            invariant
                j <= self.body.len(),
                m == pow2(w),
                0 < m <= pow2(64),
                pow2(64) == 0x1_0000_0000_0000_0000,
                (mem as int, reg as int) == run_ops(w, self.body@.take(j as int), (x as int, 0int)),
            decreases self.body.len() - j,
        {
            let op = self.body[j];
            proof {
                lemma_run_ops_snoc(w, self.body@.take(j as int), op, (x as int, 0int));
                assert(self.body@.take(j + 1) =~= self.body@.take(j as int).push(op));
            }
            match op {
                BodyOp::Load => {
                    let wide: u128 = (mem as u128) % m;
                    proof {
                        lemma_mod_bound(mem as int, m as int);
                    }
                    reg = wide as u64;
                },
                BodyOp::AddConst(c) => {
                    let wide: u128 = ((reg as u128) + (c as u128)) % m;
                    proof {
                        lemma_mod_bound(reg + c, m as int);
                    }
                    reg = wide as u64;
                },
                BodyOp::SubConst(c) => {
                    let cm: u128 = (c as u128) % m;
                    let wide: u128 = ((reg as u128) + (m - cm)) % m;
                    proof {
                        lemma_mod_bound(c as int, m as int);
                        lemma_mod_bound(reg + m - cm, m as int);
                        lemma_mod_add_multiples_vanish(reg - cm, m as int);
                        lemma_sub_mod_noop_right(reg as int, c as int, m as int);
                    }
                    reg = wide as u64;
                },
                BodyOp::Store => {
                    mem = reg;
                },
            }
            j = j + 1;
        }
        proof {
            assert(self.body@.take(self.body@.len() as int) =~= self.body@);
        }
        mem
    }

    /// Run the counted loop over the first `bound` cells of `data`,
    /// exactly as the generated loop does: indices ascending from zero,
    /// each visited once, nothing past the bound touched.
    pub fn run_loop(&self, data: &mut Vec<u64>, bound: usize)
        requires
            self.wf(),
            bound <= old(data).len(),
        ensures
            final(data)@ == self.loop_transform(old(data)@, bound as nat),
    {
        let mut i: usize = 0;
        while i < bound
            invariant
                i <= bound <= data.len(),
                data@.len() == old(data)@.len(),
                self.wf(),
                forall|j: int| 0 <= j < i ==> data@[j] == self.elem_spec(old(data)@[j] as int) as u64,
                forall|j: int| i <= j < data@.len() ==> data@[j] == old(data)@[j],
            decreases bound - i,
        {
            let x = data[i];
            let y = self.run_elem(x);
            data.set(i, y);
            i = i + 1;
        }
        proof {
            assert(data@ =~= self.loop_transform(old(data)@, bound as nat));
        }
    }
}

} // verus!
