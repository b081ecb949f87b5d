//! The action abstraction: one transformation step per element, and
//! sequences of steps composed in declaration order.
//!
//! Each action, asked for code for a supported element kind, emits the
//! short instruction sequence implementing its effect on the element the
//! current address points to, and its contract ties that sequence to the
//! action's declarative effect.  Tuples of steps become a `Vec<Action>`:
//! composition is sequential, on the same element address, first action
//! first, with no reordering or fusion, so a later action observes the
//! stores of the earlier ones.
use crate::instantiate::InstantiateError;
use crate::program::{op_step, run_ops, BodyOp};
use crate::types::{wrap, IntKind, IntegerType};
use vstd::arithmetic::div_mod::{
    lemma_add_mod_noop, lemma_add_mod_noop_right, lemma_mod_bound, lemma_mod_equivalence,
    lemma_sub_mod_noop,
};
use vstd::arithmetic::power2::{lemma_pow2_pos, pow2};
use vstd::prelude::*;

verus! {

/// Add a compile-time constant to every element.  The constant is stored
/// as the 64-bit two's-complement pattern of the host value it was built
/// from, and is truncated to the element width when code is emitted.
#[derive(Clone, Copy, Debug, PartialEq, Eq, Structural)]
pub struct Add {
    pub amount: u64,
}

impl Add {
    pub fn new<T: IntegerType>(amount: T) -> (a: Add)
        ensures
            a.amount == wrap(64, amount.value_spec()),
    {
        Add { amount: amount.to_pattern() }
    }
}

/// Subtract a compile-time constant from every element; the counterpart
/// of [`Add`].
#[derive(Clone, Copy, Debug, PartialEq, Eq, Structural)]
pub struct Sub {
    pub amount: u64,
}

impl Sub {
    pub fn new<T: IntegerType>(amount: T) -> (s: Sub)
        ensures
            s.amount == wrap(64, amount.value_spec()),
    {
        Sub { amount: amount.to_pattern() }
    }
}

/// One transformation step of a descriptor: the closed set of built-in
/// actions, each carrying its constant.
#[derive(Clone, Copy, Debug, PartialEq, Eq, Structural)]
pub enum Action {
    Add(Add),
    Sub(Sub),
}

/// Declarative effect of one action on a `w`-bit element holding `x`:
/// modular addition or subtraction of the action's constant.
pub open spec fn act_effect(w: nat, a: Action, x: int) -> int {
    match a {
        Action::Add(step) => wrap(w, x + step.amount),
        Action::Sub(step) => wrap(w, x - step.amount),
    }
}

/// Effect of an action sequence, first action first.
pub open spec fn seq_effect(w: nat, acts: Seq<Action>, x: int) -> int
    decreases acts.len(),
{
    if acts.len() == 0 {
        x
    } else {
        seq_effect(w, acts.drop_first(), act_effect(w, acts[0], x))
    }
}

/// Sequential-composition law: running one action sequence after another
/// is running the concatenation; composition neither reorders nor merges
/// steps.
pub proof fn lemma_seq_effect_concat(w: nat, acts1: Seq<Action>, acts2: Seq<Action>, x: int)
    ensures
        seq_effect(w, acts1 + acts2, x) == seq_effect(w, acts2, seq_effect(w, acts1, x)),
    decreases acts1.len(),
{
    if acts1.len() == 0 {
        assert(acts1 + acts2 =~= acts2);
    } else {
        assert((acts1 + acts2).drop_first() =~= acts1.drop_first() + acts2);
        lemma_seq_effect_concat(w, acts1.drop_first(), acts2, act_effect(w, acts1[0], x));
    }
}

/// Appending one action applies it after the sequence.
pub proof fn lemma_seq_effect_snoc(w: nat, acts: Seq<Action>, a: Action, x: int)
    ensures
        seq_effect(w, acts.push(a), x) == act_effect(w, a, seq_effect(w, acts, x)),
{
    let single = seq![a];
    assert(acts.push(a) =~= acts + single);
    lemma_seq_effect_concat(w, acts, single, x);
    let mid = seq_effect(w, acts, x);
    assert(single.drop_first() =~= Seq::<Action>::empty());
    assert(seq_effect(w, single, mid) == seq_effect(
        w,
        Seq::<Action>::empty(),
        act_effect(w, a, mid),
    ));
}

/// Composition-order law: the two-step descriptor `(Sub(s), Add(a))` maps
/// a `w`-bit element holding `x` to `(x - s) + a` under the element's
/// modular arithmetic — the subtraction is applied first, the addition to
/// its result.
pub proof fn lemma_sub_then_add(w: nat, s: Sub, a: Add, x: int)
    ensures
        seq_effect(w, seq![Action::Sub(s), Action::Add(a)], x) == wrap(
            w,
            (x - s.amount) + a.amount,
        ),
{
    let m = pow2(w) as int;
    lemma_pow2_pos(w);
    let acts = seq![Action::Sub(s), Action::Add(a)];
    let y = act_effect(w, Action::Sub(s), x);
    assert(acts =~= seq![Action::Sub(s)].push(Action::Add(a)));
    assert(seq![Action::Sub(s)] =~= Seq::<Action>::empty().push(Action::Sub(s)));
    lemma_seq_effect_snoc(w, seq![Action::Sub(s)], Action::Add(a), x);
    lemma_seq_effect_snoc(w, Seq::<Action>::empty(), Action::Sub(s), x);
    assert(seq_effect(w, Seq::<Action>::empty(), x) == x);
    assert(seq_effect(w, acts, x) == act_effect(w, Action::Add(a), y));
    lemma_add_mod_noop_right(y, a.amount as int, m);
    lemma_add_mod_noop(x - s.amount, a.amount as int, m);
}

/// Double-application law: instantiating `Add(k)` twice and applying both
/// adds `2k`, so for any `k` that is non-zero in the element width the
/// second application visibly changes the result again — the action is
/// not idempotent.
pub proof fn lemma_add_twice(w: nat, k: Add, x: int)
    ensures
        act_effect(w, Action::Add(k), act_effect(w, Action::Add(k), x)) == wrap(
            w,
            x + 2 * k.amount,
        ),
        wrap(w, k.amount as int) != 0 ==> act_effect(
            w,
            Action::Add(k),
            act_effect(w, Action::Add(k), x),
        ) != act_effect(w, Action::Add(k), x),
{
    let m = pow2(w) as int;
    lemma_pow2_pos(w);
    let once = act_effect(w, Action::Add(k), x);
    lemma_add_mod_noop_right(once, k.amount as int, m);
    lemma_add_mod_noop(x + k.amount, k.amount as int, m);
    assert(act_effect(w, Action::Add(k), once) == wrap(w, x + 2 * k.amount));
    if wrap(w, k.amount as int) != 0 {
        if act_effect(w, Action::Add(k), once) == once {
            lemma_mod_equivalence(x + 2 * k.amount, x + k.amount, m);
            lemma_mod_bound(k.amount as int, m);
            assert(false);
        }
    }
}

/// The code-generation capability: an action emits the straight-line
/// instructions implementing its effect on the element at the current
/// address, leaving the builder ready for the next action.  The contract
/// ties the emitted instructions to the action's declarative effect for
/// every element value and every incoming register state, so actions
/// compose in any order.
pub trait GenerateCode {
    /// Declarative effect on one `w`-bit element holding `x`.
    spec fn effect_spec(&self, w: nat, x: int) -> int;

    /// Emit the per-element instructions.  Fails exactly when the element
    /// kind has no complete type mapping (its constants cannot be
    /// materialized), before anything is emitted.
    fn generate_code(&self, kind: IntKind) -> (r: Result<Vec<BodyOp>, InstantiateError>)
        ensures
            match r {
                Ok(ops) => kind.supported() && (forall|st: (int, int)|
                    #[trigger] run_ops(kind.bits(), ops@, st) == (
                        self.effect_spec(kind.bits(), st.0),
                        self.effect_spec(kind.bits(), st.0),
                    )),
                Err(e) => !kind.supported() && e == InstantiateError::UnsupportedType,
            },
    ;
}

/// A load / modify / store sequence computes the modify step's modular
/// effect on the element, whatever the register held before.
proof fn lemma_rmw_code(w: nat, ops: Seq<BodyOp>, mid: BodyOp, st: (int, int))
    requires
        ops =~= seq![BodyOp::Load, mid, BodyOp::Store],
        !(mid is Load),
        !(mid is Store),
    ensures
        run_ops(w, ops, st) == (
            op_step(w, mid, (st.0, wrap(w, st.0))).1,
            op_step(w, mid, (st.0, wrap(w, st.0))).1,
        ),
{
    let s1 = op_step(w, BodyOp::Load, st);
    let s2 = op_step(w, mid, s1);
    let s3 = op_step(w, BodyOp::Store, s2);
    assert(ops.drop_first() =~= seq![mid, BodyOp::Store]);
    assert(ops.drop_first().drop_first() =~= seq![BodyOp::Store]);
    assert(ops.drop_first().drop_first().drop_first() =~= Seq::<BodyOp>::empty());
    assert(run_ops(w, ops, st) == run_ops(w, ops.drop_first(), s1));
    assert(run_ops(w, ops.drop_first(), s1) == run_ops(w, ops.drop_first().drop_first(), s2));
    assert(run_ops(w, ops.drop_first().drop_first(), s2) == run_ops(
        w,
        Seq::<BodyOp>::empty(),
        s3,
    ));
}

impl GenerateCode for Add {
    open spec fn effect_spec(&self, w: nat, x: int) -> int {
        wrap(w, x + self.amount)
    }

    fn generate_code(&self, kind: IntKind) -> (r: Result<Vec<BodyOp>, InstantiateError>) {
        if !kind.is_supported() {
            return Err(InstantiateError::UnsupportedType);
        }
        let ghost w = kind.bits();
        let m: u128 = kind.small_modulus();
        proof {
            lemma_pow2_pos(w);
            lemma_mod_bound(self.amount as int, m as int);
            crate::program::lemma_pow2_le64(w);
            vstd::arithmetic::power2::lemma2_to64_rest();
        }
        let c: u64 = (((self.amount as u128)) % m) as u64;
        let ops = vec![BodyOp::Load, BodyOp::AddConst(c), BodyOp::Store];
        proof {
            assert forall|st: (int, int)| #[trigger] run_ops(w, ops@, st) == (
                self.effect_spec(w, st.0),
                self.effect_spec(w, st.0),
            ) by {
                lemma_rmw_code(w, ops@, BodyOp::AddConst(c), st);
                lemma_add_mod_noop(st.0, self.amount as int, pow2(w) as int);
            }
        }
        Ok(ops)
    }
}

impl GenerateCode for Sub {
    open spec fn effect_spec(&self, w: nat, x: int) -> int {
        wrap(w, x - self.amount)
    }

    fn generate_code(&self, kind: IntKind) -> (r: Result<Vec<BodyOp>, InstantiateError>) {
        if !kind.is_supported() {
            return Err(InstantiateError::UnsupportedType);
        }
        let ghost w = kind.bits();
        let m: u128 = kind.small_modulus();
        proof {
            lemma_pow2_pos(w);
            lemma_mod_bound(self.amount as int, m as int);
            crate::program::lemma_pow2_le64(w);
            vstd::arithmetic::power2::lemma2_to64_rest();
        }
        let c: u64 = (((self.amount as u128)) % m) as u64;
        let ops = vec![BodyOp::Load, BodyOp::SubConst(c), BodyOp::Store];
        proof {
            assert forall|st: (int, int)| #[trigger] run_ops(w, ops@, st) == (
                self.effect_spec(w, st.0),
                self.effect_spec(w, st.0),
            ) by {
                lemma_rmw_code(w, ops@, BodyOp::SubConst(c), st);
                lemma_sub_mod_noop(st.0, self.amount as int, pow2(w) as int);
            }
        }
        Ok(ops)
    }
}

impl GenerateCode for Action {
    open spec fn effect_spec(&self, w: nat, x: int) -> int {
        act_effect(w, *self, x)
    }

    fn generate_code(&self, kind: IntKind) -> (r: Result<Vec<BodyOp>, InstantiateError>) {
        match self {
            Action::Add(step) => step.generate_code(kind),
            Action::Sub(step) => step.generate_code(kind),
        }
    }
}

} // verus!
