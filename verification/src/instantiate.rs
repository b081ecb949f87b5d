//! The instantiation pipeline and the compiled-transformation handle.
//!
//! A descriptor (element kind plus action sequence) is compiled into a
//! verified [`LoopProgram`] — the exact per-element code path, with the
//! proof that it implements the descriptor's declarative effect.  The
//! handle that comes back owns that finalized program, carries the options
//! it was built with, and applies the program under the calling contract
//! those options fix.  A backend adapter outside the verified boundary can
//! take the handle's program, emit it into native code instruction for
//! instruction, and reuse the same checked-call discipline.
use crate::actions::{seq_effect, Action, GenerateCode};
use crate::program::{run_ops, BodyOp, LoopProgram};
use crate::types::IntKind;
use vstd::prelude::*;

verus! {

/// Options for one instantiation.
#[derive(Clone, Copy, Debug)]
pub struct InstantiateSliceOptions {
    /// Ask for a diagnostic dump of the generated code.  Observational
    /// only: it never changes what the compiled function computes.
    pub log: bool,
    /// A fixed element count to specialize for.  When present, the
    /// compiled loop's bound is this constant instead of the runtime
    /// length parameter, and every call must pass a slice of exactly this
    /// length.
    pub count: Option<usize>,
}

/// Why an instantiation failed.  No partially built handle is ever
/// returned, and nothing is retried: compilation is deterministic.
#[derive(Debug)]
pub enum InstantiateError {
    /// The backend toolchain reported a failure; carries its diagnostic
    /// text.  Raised by a backend adapter, never by the verified
    /// pipeline, whose own build cannot fail on a supported kind.
    Backend(String),
    /// The backend reported success but handed back no usable entry
    /// point.  Raised by callers that extract the native address.
    EngineFunctionNull,
    /// The requested element kind has no complete type mapping (its
    /// constants cannot be materialized); raised before any code is
    /// emitted.
    UnsupportedType,
}

/// The error of the checked call: the slice length did not match the
/// count the handle was specialized for, so the transformation was not
/// run.
#[derive(Clone, Copy, Debug, PartialEq, Eq, Structural)]
pub struct ContractViolation {
    /// The count the handle was built for.
    pub expected: usize,
    /// The length of the slice handed to the call.
    pub found: usize,
}

/// A transformation descriptor: the element kind the transformation is
/// compiled for, and the ordered sequence of actions every element runs
/// through.
#[derive(Debug)]
pub struct ModifyInPlace {
    pub kind: IntKind,
    pub actions: Vec<Action>,
}

impl ModifyInPlace {
    pub fn new(kind: IntKind, actions: Vec<Action>) -> (d: ModifyInPlace)
        ensures
            d.kind == kind,
            d.actions == actions,
    {
        ModifyInPlace { kind, actions }
    }

    /// Declarative elementwise semantics of the descriptor: what one
    /// element holding `x` becomes.
    pub open spec fn elem_spec(self, x: int) -> int {
        seq_effect(self.kind.bits(), self.actions@, x)
    }

    /// Compile the descriptor's actions into the per-element body of a
    /// [`LoopProgram`], proved to implement the descriptor's effect.
    fn build_program(&self) -> (r: Result<LoopProgram, InstantiateError>)
        ensures
            match r {
                Ok(p) => self.kind.supported() && p.kind == self.kind && (forall|x: int|
                    #[trigger] p.elem_spec(x) == self.elem_spec(x)),
                Err(e) => !self.kind.supported() && e == InstantiateError::UnsupportedType,
            },
    {
        if !self.kind.is_supported() {
            return Err(InstantiateError::UnsupportedType);
        }
        let ghost w = self.kind.bits();
        let mut body: Vec<BodyOp> = Vec::new();
        let mut idx: usize = 0;
        while idx < self.actions.len()
            invariant
                idx <= self.actions.len(),
                self.kind.supported(),
                w == self.kind.bits(),
                forall|st: (int, int)| #[trigger] run_ops(w, body@, st).0 == seq_effect(
                    w,
                    self.actions@.take(idx as int),
                    st.0,
                ),
            decreases self.actions.len() - idx,
        {
            let a = self.actions[idx];
            let mut code = match a.generate_code(self.kind) {
                Ok(c) => c,
                Err(e) => {
                    return Err(e);
                },
            };
            let ghost prev = body@;
            let ghost codeseq = code@;
            body.append(&mut code);
            proof {
                assert forall|st: (int, int)| #[trigger] run_ops(w, body@, st).0 == seq_effect(
                    w,
                    self.actions@.take(idx as int + 1),
                    st.0,
                ) by {
                    crate::program::lemma_run_ops_concat(w, prev, codeseq, st);
                    crate::actions::lemma_seq_effect_snoc(
                        w,
                        self.actions@.take(idx as int),
                        a,
                        st.0,
                    );
                    assert(self.actions@.take(idx as int + 1) =~= self.actions@.take(
                        idx as int,
                    ).push(a));
                }
            }
            idx = idx + 1;
        }
        proof {
            assert(self.actions@.take(self.actions@.len() as int) =~= self.actions@);
        }
        let program = LoopProgram { kind: self.kind, body };
        proof {
            assert forall|x: int| #[trigger] program.elem_spec(x) == self.elem_spec(x) by {
                assert(run_ops(w, program.body@, (x, 0int)).0 == seq_effect(
                    w,
                    self.actions@.take(self.actions@.len() as int),
                    x,
                ));
            }
        }
        Ok(program)
    }

    /// Instantiate the transformation over a slice: run every action's
    /// code generation against the requested element kind, compose the
    /// emitted instructions into the finalized program, and hand back the
    /// owning handle.  Fails with `UnsupportedType` exactly on element
    /// kinds without a complete type mapping, before anything is emitted.
    pub fn instantiate_slice(&self, opt: InstantiateSliceOptions) -> (r: Result<
        InstantiatedSliceModifyInPlace,
        InstantiateError,
    >)
        ensures
            match r {
                Ok(h) => {
                    &&& self.kind.supported()
                    &&& h.wf()
                    &&& h.options == opt
                    &&& h.program.kind == self.kind
                    &&& forall|x: int| #[trigger] h.program.elem_spec(x) == self.elem_spec(x)
                },
                Err(e) => !self.kind.supported() && e == InstantiateError::UnsupportedType,
            },
            r is Ok <==> self.kind.supported(),
    {
        let program = self.build_program()?;
        Ok(InstantiatedSliceModifyInPlace { program, options: opt })
    }
}

/// The compiled transformation: the finalized per-element program,
/// together with the options the build was specialized with, which fix
/// the calling contract.  The handle is the sole owner of the program;
/// a backend adapter that turns the program into native code must keep
/// the code's storage alive for as long as the entry point it hands out
/// can still be invoked.
pub struct InstantiatedSliceModifyInPlace {
    /// The verified per-element program the transformation runs.
    pub program: LoopProgram,
    /// The options the handle was built with.
    pub options: InstantiateSliceOptions,
}

impl InstantiatedSliceModifyInPlace {
    pub open spec fn wf(self) -> bool {
        self.program.wf()
    }

    /// What one element holding `x` becomes under this handle's program.
    pub open spec fn elem_spec(self, x: int) -> int {
        self.program.elem_spec(x)
    }

    /// What a whole sequence of element cells becomes: every element
    /// transformed, none skipped, none past the length touched.
    pub open spec fn transform_spec(self, data: Seq<u64>) -> Seq<u64> {
        self.program.loop_transform(data, data.len())
    }

    /// The checked call: apply the transformation to every element of
    /// `data`, in place.  When the handle was specialized for a fixed
    /// count, a slice of any other length is rejected untouched with a
    /// [`ContractViolation`]; this is the only call-time error.
    pub fn call_mut(&self, data: &mut Vec<u64>) -> (r: Result<(), ContractViolation>)
        requires
            self.wf(),
        ensures
            match r {
                Ok(()) => {
                    &&& match self.options.count {
                        Some(n) => old(data)@.len() == n,
                        None => true,
                    }
                    &&& final(data)@ == self.transform_spec(old(data)@)
                },
                Err(v) => {
                    &&& self.options.count matches Some(n) && n != old(data)@.len() && v
                        == (ContractViolation { expected: n, found: old(data).len() })
                    &&& final(data)@ == old(data)@
                },
            },
    {
        if let Some(n) = self.options.count {
            if n != data.len() {
                return Err(ContractViolation { expected: n, found: data.len() });
            }
        }
        self.call_mut_unchecked(data);
        Ok(())
    }

    /// The unchecked call: the caller is responsible for the length
    /// contract the checked call tests — with a fixed count the slice
    /// length must equal it exactly, since the compiled loop bound no
    /// longer depends on the passed length; with no fixed count any
    /// length is legal.
    pub fn call_mut_unchecked(&self, data: &mut Vec<u64>)
        requires
            self.wf(),
            match self.options.count {
                Some(n) => old(data)@.len() == n,
                None => true,
            },
        ensures
            final(data)@ == self.transform_spec(old(data)@),
    {
        let len = data.len();
        self.program.run_loop(data, len);
    }
}

/// Coverage law: one application of a handle's transformation keeps the
/// length, rewrites the element at every index to the program's effect on
/// that element's old value — each visited exactly once — and depends on
/// nothing but that one old value, so no element is skipped, revisited,
/// or disturbed by its neighbours.
pub proof fn lemma_coverage(h: InstantiatedSliceModifyInPlace, data: Seq<u64>)
    ensures
        h.transform_spec(data).len() == data.len(),
        forall|i: int| 0 <= i < data.len() ==> h.transform_spec(data)[i] == h.elem_spec(
            data[i] as int,
        ) as u64,
{
}

} // verus!
