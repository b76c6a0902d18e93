//! Structural and type checking of an [`IrFunction`] before any lowering.
use vstd::prelude::*;
use crate::ir::{defined_var, Inst, IrFunction, IrFunctionView, ScalarType};

verus! {

/// The first violation that the verifier found.
#[derive(Clone, Copy, Debug, PartialEq, Eq, Structural)]
pub enum VerifyError {
    /// The block does not end with a `return`.
    MissingTerminator,
    /// A `return` stands before the last instruction.
    InstAfterReturn { index: usize },
    /// An instruction names a variable that was never declared.
    UndeclaredVar { index: usize, var: usize },
    /// A variable is read before any instruction writes it.
    UseBeforeDef { index: usize, var: usize },
    /// A variable is written a second time.
    Redefined { index: usize, var: usize },
    /// A load's address is not a 64-bit parameter of the function.
    BadParam { index: usize, param: usize },
    /// Operand and result types of an instruction disagree.
    TypeMismatch { index: usize },
    /// The returned value does not match the declared result types.
    ReturnMismatch { index: usize },
}

/// Some instruction before position `i` writes variable `v`.
pub open spec fn defined_before(f: IrFunctionView, i: int, v: usize) -> bool {
    exists|j: int| 0 <= j < i && #[trigger] defined_var(f.insts[j]) == Some(v)
}

/// Why variable `v` cannot be read at position `i`, if it cannot.
pub open spec fn read_fault(f: IrFunctionView, i: int, v: usize) -> Option<VerifyError> {
    if v >= f.vars.len() {
        Some(VerifyError::UndeclaredVar { index: i as usize, var: v })
    } else if !defined_before(f, i, v) {
        Some(VerifyError::UseBeforeDef { index: i as usize, var: v })
    } else {
        None
    }
}

/// Why variable `v` cannot be written at position `i`, if it cannot.
pub open spec fn write_fault(f: IrFunctionView, i: int, v: usize) -> Option<VerifyError> {
    if v >= f.vars.len() {
        Some(VerifyError::UndeclaredVar { index: i as usize, var: v })
    } else if defined_before(f, i, v) {
        Some(VerifyError::Redefined { index: i as usize, var: v })
    } else {
        None
    }
}

/// The violation of the instruction at position `i`, given what precedes it.
pub open spec fn inst_fault(f: IrFunctionView, i: int) -> Option<VerifyError> {
    let idx = i as usize;
    match f.insts[i] {
        Inst::Load { dst, param, offset } => {
            if write_fault(f, i, dst) is Some {
                write_fault(f, i, dst)
            } else if param >= f.params.len() || f.params[param as int] != ScalarType::I64 {
                Some(VerifyError::BadParam { index: idx, param })
            } else if f.vars[dst as int] != ScalarType::I64 {
                Some(VerifyError::TypeMismatch { index: idx })
            } else {
                None
            }
        },
        Inst::Iconst { dst, imm } => {
            if write_fault(f, i, dst) is Some {
                write_fault(f, i, dst)
            } else if f.vars[dst as int] == ScalarType::I32 && !(i32::MIN <= imm <= i32::MAX) {
                Some(VerifyError::TypeMismatch { index: idx })
            } else {
                None
            }
        },
        Inst::Iadd { dst, lhs, rhs } => {
            if read_fault(f, i, lhs) is Some {
                read_fault(f, i, lhs)
            } else if read_fault(f, i, rhs) is Some {
                read_fault(f, i, rhs)
            } else if write_fault(f, i, dst) is Some {
                write_fault(f, i, dst)
            } else if f.vars[lhs as int] != f.vars[rhs as int] || f.vars[dst as int] != f.vars[lhs as int] {
                Some(VerifyError::TypeMismatch { index: idx })
            } else {
                None
            }
        },
        Inst::Return { src } => {
            if i < f.insts.len() - 1 {
                Some(VerifyError::InstAfterReturn { index: idx })
            } else if read_fault(f, i, src) is Some {
                read_fault(f, i, src)
            } else if f.results != seq![f.vars[src as int]] {
                Some(VerifyError::ReturnMismatch { index: idx })
            } else {
                None
            }
        },
    }
}

/// The block is non-empty and ends with a `return`.
pub open spec fn terminated(f: IrFunctionView) -> bool {
    f.insts.len() > 0 && f.insts.last() is Return
}

/// Every instruction is sound and the block is terminated.
pub open spec fn well_formed(f: IrFunctionView) -> bool {
    &&& forall|i: int| 0 <= i < f.insts.len() ==> #[trigger] inst_fault(f, i) is None
    &&& terminated(f)
}

/// The verifier's verdict on the instructions from position `i` on: the
/// first fault in order, then the terminator check.
pub open spec fn check_from(f: IrFunctionView, i: int) -> Result<(), VerifyError>
    decreases f.insts.len() - i,
{
    if i < 0 || i >= f.insts.len() {
        if terminated(f) { Ok(()) } else { Err(VerifyError::MissingTerminator) }
    } else if inst_fault(f, i) is Some {
        Err(inst_fault(f, i)->0)
    } else {
        check_from(f, i + 1)
    }
}

/// The verdict on the whole function.
pub open spec fn verdict(f: IrFunctionView) -> Result<(), VerifyError> {
    check_from(f, 0)
}

proof fn lemma_check_from_ok(f: IrFunctionView, i: int)
    requires
        0 <= i <= f.insts.len(),
    ensures
        check_from(f, i) is Ok <==> (terminated(f) && forall|j: int|
            i <= j < f.insts.len() ==> #[trigger] inst_fault(f, j) is None),
    decreases f.insts.len() - i,
{
    if i < f.insts.len() {
        lemma_check_from_ok(f, i + 1);
    }
}

/// The verdict is `Ok` exactly on well-formed functions.
pub proof fn lemma_verdict_ok(f: IrFunctionView)
    ensures
        verdict(f) is Ok <==> well_formed(f),
{
    lemma_check_from_ok(f, 0);
}

fn read_check(f: &IrFunction, defined: &Vec<bool>, i: usize, v: usize) -> (r: Option<VerifyError>)
    requires
        i < f.insts@.len(),
        defined@.len() == f.vars@.len(),
        forall|u: usize| u < f.vars@.len() ==> defined@[u as int] == defined_before(f@, i as int, u),
    ensures
        r == read_fault(f@, i as int, v),
{
    if v >= f.vars.len() {
        Some(VerifyError::UndeclaredVar { index: i, var: v })
    } else if !defined[v] {
        Some(VerifyError::UseBeforeDef { index: i, var: v })
    } else {
        None
    }
}

fn write_check(f: &IrFunction, defined: &Vec<bool>, i: usize, v: usize) -> (r: Option<VerifyError>)
    requires
        i < f.insts@.len(),
        defined@.len() == f.vars@.len(),
        forall|u: usize| u < f.vars@.len() ==> defined@[u as int] == defined_before(f@, i as int, u),
    ensures
        r == write_fault(f@, i as int, v),
{
    if v >= f.vars.len() {
        Some(VerifyError::UndeclaredVar { index: i, var: v })
    } else if defined[v] {
        Some(VerifyError::Redefined { index: i, var: v })
    } else {
        None
    }
}

fn inst_check(f: &IrFunction, defined: &Vec<bool>, i: usize) -> (r: Option<VerifyError>)
    requires
        i < f.insts@.len(),
        defined@.len() == f.vars@.len(),
        forall|u: usize| u < f.vars@.len() ==> defined@[u as int] == defined_before(f@, i as int, u),
    ensures
        r == inst_fault(f@, i as int),
{
    match f.insts[i] {
        Inst::Load { dst, param, offset } => {
            let w = write_check(f, defined, i, dst);
            if w.is_some() {
                w
            } else if param >= f.params.len() || f.params[param] != ScalarType::I64 {
                Some(VerifyError::BadParam { index: i, param })
            } else if f.vars[dst] != ScalarType::I64 {
                Some(VerifyError::TypeMismatch { index: i })
            } else {
                None
            }
        },
        Inst::Iconst { dst, imm } => {
            let w = write_check(f, defined, i, dst);
            if w.is_some() {
                w
            } else if f.vars[dst] == ScalarType::I32 && !(i32::MIN as i64 <= imm
                && imm <= i32::MAX as i64) {
                Some(VerifyError::TypeMismatch { index: i })
            } else {
                None
            }
        },
        Inst::Iadd { dst, lhs, rhs } => {
            let l = read_check(f, defined, i, lhs);
            if l.is_some() {
                return l;
            }
            let r = read_check(f, defined, i, rhs);
            if r.is_some() {
                return r;
            }
            let w = write_check(f, defined, i, dst);
            if w.is_some() {
                w
            } else if f.vars[lhs] != f.vars[rhs] || f.vars[dst] != f.vars[lhs] {
                Some(VerifyError::TypeMismatch { index: i })
            } else {
                None
            }
        },
        Inst::Return { src } => {
            if i < f.insts.len() - 1 {
                return Some(VerifyError::InstAfterReturn { index: i });
            }
            let s = read_check(f, defined, i, src);
            if s.is_some() {
                s
            } else if f.results.len() != 1 || f.results[0] != f.vars[src] {
                proof {
                    if f.results@.len() == 1 {
                        assert(f@.results != seq![f@.vars[src as int]]) by {
                            assert(seq![f@.vars[src as int]][0] == f@.vars[src as int]);
                        }
                    }
                }
                Some(VerifyError::ReturnMismatch { index: i })
            } else {
                assert(f@.results =~= seq![f@.vars[src as int]]);
                None
            }
        },
    }
}

/// Checks `f` and returns the first violation found, in instruction order,
/// then the terminator check. Pure: calling it again gives the same verdict.
pub fn verify(f: &IrFunction) -> (r: Result<(), VerifyError>)
    ensures
        r == verdict(f@),
        r is Ok <==> well_formed(f@),
{
    proof { lemma_verdict_ok(f@); }
    let n = f.insts.len();
    let mut defined: Vec<bool> = Vec::new();
    let mut k: usize = 0;
    while k < f.vars.len()
        invariant
            k <= f.vars@.len(),
            defined@.len() == k,
            forall|u: int| 0 <= u < k ==> !defined@[u],
        decreases f.vars@.len() - k,
    {
        defined.push(false);
        k = k + 1;
    }
    let mut i: usize = 0;
    while i < n
        invariant
            n == f.insts@.len(),
            i <= n,
            defined@.len() == f.vars@.len(),
            forall|u: usize| u < f.vars@.len() ==> defined@[u as int] == defined_before(f@, i as int, u),
            check_from(f@, 0) == check_from(f@, i as int),
        decreases n - i,
    {
        let fault = inst_check(f, &defined, i);
        if fault.is_some() {
            return Err(fault.unwrap());
        }
        match defined_by(&f.insts[i]) {
            Some(d) => {
                defined.set(d, true);
            },
            None => {},
        }
        proof {
            assert forall|u: usize| u < f.vars@.len() implies defined@[u as int] == defined_before(
                f@,
                i + 1,
                u,
            ) by {
                if defined_var(f@.insts[i as int]) == Some(u) {
                    assert(defined_before(f@, i + 1, u));
                }
                if defined_before(f@, i + 1, u) {
                    let j = choose|j: int| 0 <= j < i + 1 && #[trigger] defined_var(f@.insts[j]) == Some(u);
                    if j < i {
                        assert(defined_before(f@, i as int, u));
                    }
                }
                if defined_before(f@, i as int, u) {
                    let j = choose|j: int| 0 <= j < i && #[trigger] defined_var(f@.insts[j]) == Some(u);
                    assert(0 <= j < i + 1);
                }
            }
        }
        i = i + 1;
    }
    if n > 0 && f.insts[n - 1].is_return() {
        Ok(())
    } else {
        Err(VerifyError::MissingTerminator)
    }
}

/// The variable that an instruction writes, if any.
fn defined_by(inst: &Inst) -> (r: Option<usize>)
    ensures
        r == defined_var(*inst),
{
    match inst {
        Inst::Load { dst, .. } => Some(*dst),
        Inst::Iconst { dst, .. } => Some(*dst),
        Inst::Iadd { dst, .. } => Some(*dst),
        Inst::Return { .. } => None,
    }
}

} // verus!
