//! What a function means: the value it returns when its pointer parameter
//! references a given 64-bit integer.
use vstd::prelude::*;
use crate::ir::{adder_spec, defined_var, Inst, IrFunction, IrFunctionView, ScalarType, VAR_A, VAR_X, VAR_Y};
use crate::validate::{defined_before, inst_fault, lemma_verdict_ok, read_fault, verdict, well_formed};

verus! {

/// `x` reduced to the two's-complement range of `t`.
pub open spec fn wrap(t: ScalarType, x: int) -> int {
    match t {
        ScalarType::I32 => (x + 0x8000_0000) % 0x1_0000_0000 - 0x8000_0000,
        ScalarType::I64 => (x + 0x8000_0000_0000_0000) % 0x1_0000_0000_0000_0000
            - 0x8000_0000_0000_0000,
    }
}

/// The 64-bit two's-complement wrapping sum of `r` and `c`.
pub open spec fn wrapping_sum(r: i64, c: i64) -> int {
    wrap(ScalarType::I64, r + c)
}

/// Runs the instructions from position `i` on, with the variables bound in
/// `env`, where the pointer parameter references `cell`. `None` where a read
/// finds no value, a load leaves the referenced integer, or no `return` comes.
pub open spec fn run_from(f: IrFunctionView, i: int, env: Map<usize, int>, cell: i64) -> Option<int>
    decreases f.insts.len() - i,
{
    if i < 0 || i >= f.insts.len() {
        None
    } else {
        match f.insts[i] {
            Inst::Load { dst, offset, .. } => {
                if offset == 0 {
                    run_from(f, i + 1, env.insert(dst, cell as int), cell)
                } else {
                    None
                }
            },
            Inst::Iconst { dst, imm } => run_from(f, i + 1, env.insert(dst, imm as int), cell),
            Inst::Iadd { dst, lhs, rhs } => {
                if env.contains_key(lhs) && env.contains_key(rhs) && dst < f.vars.len() {
                    run_from(
                        f,
                        i + 1,
                        env.insert(dst, wrap(f.vars[dst as int], env[lhs] + env[rhs])),
                        cell,
                    )
                } else {
                    None
                }
            },
            Inst::Return { src } => {
                if env.contains_key(src) {
                    Some(env[src])
                } else {
                    None
                }
            },
        }
    }
}

/// The value that `f` returns when its pointer parameter references `cell`.
pub open spec fn eval(f: IrFunctionView, cell: i64) -> Option<int> {
    run_from(f, 0, Map::empty(), cell)
}

/// `x` lies in the two's-complement range of `t`.
pub open spec fn fits(t: ScalarType, x: int) -> bool {
    match t {
        ScalarType::I32 => i32::MIN <= x <= i32::MAX,
        ScalarType::I64 => i64::MIN <= x <= i64::MAX,
    }
}

/// Wrapping addition at type `t` of two values of that type.
fn add_at(t: ScalarType, a: i64, b: i64) -> (r: i64)
    requires
        fits(t, a as int),
        fits(t, b as int),
    ensures
        r as int == wrap(t, a + b),
        fits(t, r as int),
{
    match t {
        ScalarType::I32 => {
            let s = (a as i32).wrapping_add(b as i32);
            s as i64
        },
        ScalarType::I64 => a.wrapping_add(b),
    }
}

/// Runs a verified function with its pointer parameter referencing `cell`:
/// a reference evaluator for what the lowered code computes.
pub fn evaluate(f: &IrFunction, cell: i64) -> (r: Option<i64>)
    requires
        well_formed(f@),
    ensures
        r matches Some(v) ==> eval(f@, cell) == Some(v as int),
        r is None ==> eval(f@, cell) is None,
{
    let n = f.insts.len();
    let mut env: Vec<Option<i64>> = Vec::new();
    let mut k: usize = 0;
    while k < f.vars.len()
        invariant
            k <= f.vars@.len(),
            env@.len() == k,
            forall|u: int| 0 <= u < k ==> env@[u] is None,
        decreases f.vars@.len() - k,
    {
        env.push(None);
        k = k + 1;
    }
    let ghost mut m = Map::<usize, int>::empty();
    let mut i: usize = 0;
    while i < n
        invariant
            n == f.insts@.len(),
            well_formed(f@),
            env@.len() == f.vars@.len(),
            forall|u: usize| #[trigger] m.contains_key(u) ==> u < f.vars@.len(),
            forall|u: usize|
                u < f.vars@.len() ==> (#[trigger] env@[u as int] == if m.contains_key(u) {
                    Some(m[u] as i64)
                } else {
                    None::<i64>
                }),
            forall|u: usize| #[trigger] m.contains_key(u) ==> fits(f@.vars[u as int], m[u]),
            eval(f@, cell) == run_from(f@, i as int, m, cell),
        decreases n - i,
    {
        assert(inst_fault(f@, i as int) is None);
        match f.insts[i] {
            Inst::Load { dst, offset, .. } => {
                if offset != 0 {
                    return None;
                }
                env.set(dst, Some(cell));
                proof { m = m.insert(dst, cell as int); }
            },
            Inst::Iconst { dst, imm } => {
                env.set(dst, Some(imm));
                proof { m = m.insert(dst, imm as int); }
            },
            Inst::Iadd { dst, lhs, rhs } => {
                match (env[lhs], env[rhs]) {
                    (Some(a), Some(b)) => {
                        let s = add_at(f.vars[dst], a, b);
                        env.set(dst, Some(s));
                        proof { m = m.insert(dst, s as int); }
                    },
                    _ => {
                        return None;
                    },
                }
            },
            Inst::Return { src } => {
                return env[src];
            },
        }
        i = i + 1;
    }
    None
}

/// The adder's IR passes the verifier, whatever constant it embeds.
pub proof fn lemma_adder_well_formed(c: i64)
    ensures
        well_formed(adder_spec(c)),
        verdict(adder_spec(c)) is Ok,
{
    let f = adder_spec(c);
    assert(defined_var(f.insts[0]) == Some(VAR_X));
    assert(defined_var(f.insts[1]) == Some(VAR_Y));
    assert(defined_var(f.insts[2]) == Some(VAR_A));
    assert(!defined_before(f, 0, VAR_X));
    assert(!defined_before(f, 1, VAR_Y));
    assert(!defined_before(f, 2, VAR_A));
    assert(defined_before(f, 2, VAR_X));
    assert(defined_before(f, 2, VAR_Y));
    assert(defined_before(f, 3, VAR_A));
    assert(f.results =~= seq![f.vars[VAR_A as int]]);
    assert forall|i: int| 0 <= i < f.insts.len() implies #[trigger] inst_fault(f, i) is None by {
        if i == 0 {
        } else if i == 1 {
        } else if i == 2 {
        } else {
        }
    }
    lemma_verdict_ok(f);
}

/// Whatever integers `r` and `c` are, the adder returns their 64-bit
/// wrapping sum: `c` as an identity element is a special case, and so is the
/// wraparound of two minimal integers to zero.
pub proof fn lemma_adder_computes_wrapping_sum(r: i64, c: i64)
    ensures
        eval(adder_spec(c), r) == Some(wrapping_sum(r, c)),
        i64::MIN <= wrapping_sum(r, c) <= i64::MAX,
        i64::MIN <= r + c <= i64::MAX ==> wrapping_sum(r, c) == r + c,
        wrapping_sum(r, c) == vstd::wrapping::i64_specs::wrapping_add(r, c) as int,
{
    let f = adder_spec(c);
    let e0 = Map::<usize, int>::empty();
    let e1 = e0.insert(VAR_X, r as int);
    let e2 = e1.insert(VAR_Y, c as int);
    let e3 = e2.insert(VAR_A, wrap(ScalarType::I64, e2[VAR_X] + e2[VAR_Y]));
    assert(run_from(f, 3, e3, r) == Some(e3[VAR_A]));
    assert(run_from(f, 2, e2, r) == run_from(f, 3, e3, r));
    assert(run_from(f, 1, e1, r) == run_from(f, 2, e2, r));
    assert(run_from(f, 0, e0, r) == run_from(f, 1, e1, r));
}

/// A function in which some instruction reads a variable that no earlier
/// instruction wrote is rejected by the verifier.
pub proof fn lemma_read_before_write_rejected(f: IrFunctionView, i: int, v: usize)
    requires
        0 <= i < f.insts.len(),
        match f.insts[i] {
            Inst::Iadd { lhs, rhs, .. } => v == lhs || v == rhs,
            Inst::Return { src } => v == src,
            _ => false,
        },
        !defined_before(f, i, v),
    ensures
        !well_formed(f),
        verdict(f) is Err,
{
    assert(read_fault(f, i, v) is Some);
    assert(inst_fault(f, i) is Some);
    lemma_verdict_ok(f);
}

} // verus!
