//! Lowering of verified IR into a cranelift function: its signature, one
//! entry block that takes the function's parameters, and one cranelift
//! instruction per IR instruction, in order.
use vstd::prelude::*;
use crate::ir::{defined_var, Inst, IrFunction, IrFunctionView, ScalarType};
use crate::validate::{defined_before, inst_fault, read_fault, well_formed, write_fault};
use cranelift::codegen::cursor::{Cursor, FuncCursor};
use cranelift::codegen::ir::{AbiParam, Block, InstBuilder, MemFlagsData, Type, Value};
use cranelift::codegen::Context;

verus! {

#[verifier::external_type_specification]
#[verifier::external_body]
pub struct ExContext(cranelift::codegen::Context);

#[verifier::external_type_specification]
#[verifier::external_body]
pub struct ExValue(cranelift::codegen::ir::Value);

#[verifier::external_type_specification]
#[verifier::external_body]
pub struct ExBlock(cranelift::codegen::ir::Block);

#[verifier::external_type_specification]
#[verifier::external_body]
pub struct ExType(cranelift::codegen::ir::Type);

/// The cranelift type that stands for a scalar type.
pub uninterp spec fn clif_type_of(t: ScalarType) -> Type;

/// A cranelift instruction as the model records it, with its result.
pub enum ClifInst {
    Load { ty: Type, addr: Value, offset: i32, result: Value },
    Iconst { ty: Type, imm: i64, result: Value },
    Iadd { x: Value, y: Value, result: Value },
    Return { v: Value },
}

/// What has been built into a codegen context's function.
pub struct ClifModel {
    pub params: Seq<Type>,
    pub results: Seq<Type>,
    /// The blocks, in layout order.
    pub blocks: Seq<Block>,
    pub block_params: Map<Block, Seq<Value>>,
    /// Every value that the function defines.
    pub values: Set<Value>,
    /// The instructions, each with the block it was appended to.
    pub insts: Seq<(Block, ClifInst)>,
}

/// The model of a fresh function: no signature entries, blocks or values.
pub open spec fn empty_model() -> ClifModel {
    ClifModel {
        params: Seq::empty(),
        results: Seq::empty(),
        blocks: Seq::empty(),
        block_params: Map::empty(),
        values: Set::empty(),
        insts: Seq::empty(),
    }
}

/// A cranelift codegen context, with a model of the function it holds.
pub struct Codegen {
    pub ctx: Context,
    pub model: Ghost<ClifModel>,
}

/// Relies on `cranelift::codegen::ir::types::{I32, I64}`.
#[verifier::external_body]
fn clif_type(t: ScalarType) -> (r: Type)
    ensures
        r == clif_type_of(t),
{
    match t {
        ScalarType::I32 => cranelift::codegen::ir::types::I32,
        ScalarType::I64 => cranelift::codegen::ir::types::I64,
    }
}

/// Relies on `AbiParam::new`, pushed onto the parameters of the function's
/// signature.
#[verifier::external_body]
fn push_param(c: &mut Codegen, ty: Type)
    ensures
        final(c).model@ == (ClifModel { params: old(c).model@.params.push(ty), ..old(c).model@ }),
{
    c.ctx.func.signature.params.push(AbiParam::new(ty));
}

/// Relies on `AbiParam::new`, pushed onto the results of the function's
/// signature.
#[verifier::external_body]
fn push_result(c: &mut Codegen, ty: Type)
    ensures
        final(c).model@ == (ClifModel { results: old(c).model@.results.push(ty), ..old(c).model@ }),
{
    c.ctx.func.signature.returns.push(AbiParam::new(ty));
}

/// Relies on `DataFlowGraph::make_block`, a new block without parameters,
/// and `Layout::append_block`, which places it last in the layout.
#[verifier::external_body]
fn create_block(c: &mut Codegen) -> (b: Block)
    ensures
        !old(c).model@.blocks.contains(b),
        final(c).model@ == (ClifModel {
            blocks: old(c).model@.blocks.push(b),
            block_params: old(c).model@.block_params.insert(b, Seq::empty()),
            ..old(c).model@
        }),
{
    let b = c.ctx.func.dfg.make_block();
    c.ctx.func.layout.append_block(b);
    b
}

/// Relies on `DataFlowGraph::append_block_param`: a new value of type `ty`,
/// added as the block's last parameter.
#[verifier::external_body]
fn append_block_param(c: &mut Codegen, block: Block, ty: Type) -> (v: Value)
    requires
        old(c).model@.blocks.contains(block),
    ensures
        final(c).model@ == (ClifModel {
            block_params: old(c).model@.block_params.insert(
                block,
                old(c).model@.block_params[block].push(v),
            ),
            values: old(c).model@.values.insert(v),
            ..old(c).model@
        }),
{
    c.ctx.func.dfg.append_block_param(block, ty)
}

/// Relies on `InstBuilder::load` with `MemFlagsData::trusted()`, appended
/// at the bottom of `block` through a `FuncCursor`.
#[verifier::external_body]
fn ins_load(c: &mut Codegen, block: Block, ty: Type, addr: Value, offset: i32) -> (r: Value)
    requires
        old(c).model@.blocks.contains(block),
        old(c).model@.values.contains(addr),
    ensures
        final(c).model@ == (ClifModel {
            values: old(c).model@.values.insert(r),
            insts: old(c).model@.insts.push((block, ClifInst::Load { ty, addr, offset, result: r })),
            ..old(c).model@
        }),
{
    let mut pos = FuncCursor::new(&mut c.ctx.func).at_bottom(block);
    pos.ins().load(ty, MemFlagsData::trusted(), addr, offset)
}

/// Relies on `InstBuilder::iconst`, appended at the bottom of `block`.
#[verifier::external_body]
fn ins_iconst(c: &mut Codegen, block: Block, ty: Type, imm: i64) -> (r: Value)
    requires
        old(c).model@.blocks.contains(block),
    ensures
        final(c).model@ == (ClifModel {
            values: old(c).model@.values.insert(r),
            insts: old(c).model@.insts.push((block, ClifInst::Iconst { ty, imm, result: r })),
            ..old(c).model@
        }),
{
    let mut pos = FuncCursor::new(&mut c.ctx.func).at_bottom(block);
    pos.ins().iconst(ty, imm)
}

/// Relies on `InstBuilder::iadd`, appended at the bottom of `block`.
#[verifier::external_body]
fn ins_iadd(c: &mut Codegen, block: Block, x: Value, y: Value) -> (r: Value)
    requires
        old(c).model@.blocks.contains(block),
        old(c).model@.values.contains(x),
        old(c).model@.values.contains(y),
    ensures
        final(c).model@ == (ClifModel {
            values: old(c).model@.values.insert(r),
            insts: old(c).model@.insts.push((block, ClifInst::Iadd { x, y, result: r })),
            ..old(c).model@
        }),
{
    let mut pos = FuncCursor::new(&mut c.ctx.func).at_bottom(block);
    pos.ins().iadd(x, y)
}

/// Relies on `InstBuilder::return_` with one value, appended at the bottom
/// of `block`.
#[verifier::external_body]
fn ins_return(c: &mut Codegen, block: Block, v: Value)
    requires
        old(c).model@.blocks.contains(block),
        old(c).model@.values.contains(v),
    ensures
        final(c).model@ == (ClifModel {
            insts: old(c).model@.insts.push((block, ClifInst::Return { v })),
            ..old(c).model@
        }),
{
    let mut pos = FuncCursor::new(&mut c.ctx.func).at_bottom(block);
    pos.ins().return_(&[v]);
}

/// The cranelift instruction at position `i` of `m` is the lowering of the
/// IR instruction at position `i` of `f`, where `vals` gives each IR
/// variable's cranelift value.
pub open spec fn inst_lowered(f: IrFunctionView, m: ClifModel, vals: Map<usize, Value>, i: int) -> bool {
    m.insts[i].0 == m.blocks[0] && match f.insts[i] {
        Inst::Load { dst, param, offset } => m.insts[i].1 == ClifInst::Load {
            ty: clif_type_of(f.vars[dst as int]),
            addr: m.block_params[m.blocks[0]][param as int],
            offset,
            result: vals[dst],
        },
        Inst::Iconst { dst, imm } => m.insts[i].1 == ClifInst::Iconst {
            ty: clif_type_of(f.vars[dst as int]),
            imm,
            result: vals[dst],
        },
        Inst::Iadd { dst, lhs, rhs } => m.insts[i].1 == ClifInst::Iadd {
            x: vals[lhs],
            y: vals[rhs],
            result: vals[dst],
        },
        Inst::Return { src } => m.insts[i].1 == ClifInst::Return { v: vals[src] },
    }
}

/// `m` is the lowering of `f`: the same signature, one entry block whose
/// parameters are the function's, and one instruction per IR instruction,
/// in order, each reading the values that the IR's variables were bound to.
pub open spec fn lowered(f: IrFunctionView, m: ClifModel) -> bool {
    &&& m.params == f.params.map_values(|t: ScalarType| clif_type_of(t))
    &&& m.results == f.results.map_values(|t: ScalarType| clif_type_of(t))
    &&& m.blocks.len() == 1
    &&& m.block_params[m.blocks[0]].len() == f.params.len()
    &&& m.insts.len() == f.insts.len()
    &&& exists|vals: Map<usize, Value>| #[trigger] lowered_with(f, m, vals)
}

/// Every instruction of `f` is lowered into `m` under the binding `vals`.
pub open spec fn lowered_with(f: IrFunctionView, m: ClifModel, vals: Map<usize, Value>) -> bool {
    forall|i: int| 0 <= i < f.insts.len() ==> #[trigger] inst_lowered(f, m, vals, i)
}

/// The variables that the instruction at `j` reads or writes are all
/// written before position `i`.
proof fn lemma_touched_defined(f: IrFunctionView, j: int, i: int)
    requires
        well_formed(f),
        0 <= j < i <= f.insts.len(),
    ensures
        match f.insts[j] {
            Inst::Load { dst, .. } => defined_before(f, i, dst),
            Inst::Iconst { dst, .. } => defined_before(f, i, dst),
            Inst::Iadd { dst, lhs, rhs } => defined_before(f, i, dst) && defined_before(f, i, lhs)
                && defined_before(f, i, rhs),
            Inst::Return { src } => defined_before(f, i, src),
        },
{
    assert(inst_fault(f, j) is None);
    match f.insts[j] {
        Inst::Iadd { lhs, rhs, .. } => {
            assert(read_fault(f, j, lhs) is None);
            assert(read_fault(f, j, rhs) is None);
            let a = choose|k: int| 0 <= k < j && #[trigger] defined_var(f.insts[k]) == Some(lhs);
            let b = choose|k: int| 0 <= k < j && #[trigger] defined_var(f.insts[k]) == Some(rhs);
            assert(defined_var(f.insts[a]) == Some(lhs));
            assert(defined_var(f.insts[b]) == Some(rhs));
        },
        Inst::Return { src } => {
            assert(read_fault(f, j, src) is None);
            let a = choose|k: int| 0 <= k < j && #[trigger] defined_var(f.insts[k]) == Some(src);
            assert(defined_var(f.insts[a]) == Some(src));
        },
        _ => {},
    }
    // The instruction at `j` itself witnesses that its destination is written.
    assert(defined_var(f.insts[j]) == defined_var(f.insts[j]));
}

/// Lowers `f` into the fresh function of `c`. Every step is owed to
/// succeed on verified IR, so nothing is returned.
pub fn lower(f: &IrFunction, c: &mut Codegen)
    requires
        well_formed(f@),
        old(c).model@ == empty_model(),
    ensures
        lowered(f@, final(c).model@),
{
    assert(f@.params.take(0).map_values(|t: ScalarType| clif_type_of(t)) =~= Seq::<Type>::empty());
    assert(f@.results.take(0).map_values(|t: ScalarType| clif_type_of(t)) =~= Seq::<Type>::empty());
    let mut p: usize = 0;
    while p < f.params.len()
        invariant
            p <= f.params@.len(),
            c.model@ == (ClifModel {
                params: f@.params.take(p as int).map_values(|t: ScalarType| clif_type_of(t)),
                ..empty_model()
            }),
        decreases f.params@.len() - p,
    {
        let ty = clif_type(f.params[p]);
        push_param(c, ty);
        assert(f@.params.take(p + 1) =~= f@.params.take(p as int).push(f@.params[p as int]));
        assert(f@.params.take(p + 1).map_values(|t: ScalarType| clif_type_of(t)) =~= f@.params.take(
            p as int,
        ).map_values(|t: ScalarType| clif_type_of(t)).push(ty));
        p = p + 1;
    }
    assert(f@.params.take(f@.params.len() as int) =~= f@.params);
    let mut q: usize = 0;
    while q < f.results.len()
        invariant
            q <= f.results@.len(),
            f@.params.take(f@.params.len() as int) == f@.params,
            c.model@ == (ClifModel {
                params: f@.params.map_values(|t: ScalarType| clif_type_of(t)),
                results: f@.results.take(q as int).map_values(|t: ScalarType| clif_type_of(t)),
                ..empty_model()
            }),
        decreases f.results@.len() - q,
    {
        let ty = clif_type(f.results[q]);
        push_result(c, ty);
        assert(f@.results.take(q + 1) =~= f@.results.take(q as int).push(f@.results[q as int]));
        assert(f@.results.take(q + 1).map_values(|t: ScalarType| clif_type_of(t)) =~= f@.results.take(
            q as int,
        ).map_values(|t: ScalarType| clif_type_of(t)).push(ty));
        q = q + 1;
    }
    assert(f@.results.take(f@.results.len() as int) =~= f@.results);
    let block = create_block(c);
    assert(c.model@.blocks =~= seq![block]);
    assert(c.model@.blocks[0] == block);
    let mut params: Vec<Value> = Vec::new();
    let mut k: usize = 0;
    while k < f.params.len()
        invariant
            k <= f.params@.len(),
            params@.len() == k,
            c.model@.params == f@.params.map_values(|t: ScalarType| clif_type_of(t)),
            c.model@.results == f@.results.map_values(|t: ScalarType| clif_type_of(t)),
            c.model@.blocks == seq![block],
            c.model@.blocks.contains(block),
            c.model@.block_params.contains_key(block),
            c.model@.block_params[block] == params@,
            forall|u: int| 0 <= u < k ==> c.model@.values.contains(#[trigger] params@[u]),
            c.model@.insts.len() == 0,
        decreases f.params@.len() - k,
    {
        let ty = clif_type(f.params[k]);
        let v = append_block_param(c, block, ty);
        params.push(v);
        k = k + 1;
    }
    let mut env: Vec<Option<Value>> = Vec::new();
    let mut e: usize = 0;
    while e < f.vars.len()
        invariant
            e <= f.vars@.len(),
            env@.len() == e,
            forall|u: int| 0 <= u < e ==> env@[u] is None,
        decreases f.vars@.len() - e,
    {
        env.push(None);
        e = e + 1;
    }
    let ghost mut vals: Map<usize, Value> = Map::empty();
    let n = f.insts.len();
    let mut i: usize = 0;
    while i < n
        invariant
            n == f.insts@.len(),
            i <= n,
            well_formed(f@),
            params@.len() == f@.params.len(),
            env@.len() == f@.vars.len(),
            c.model@.params == f@.params.map_values(|t: ScalarType| clif_type_of(t)),
            c.model@.results == f@.results.map_values(|t: ScalarType| clif_type_of(t)),
            c.model@.blocks == seq![block],
            c.model@.blocks.contains(block),
            c.model@.block_params[block] == params@,
            forall|u: int| 0 <= u < params@.len() ==> c.model@.values.contains(#[trigger] params@[u]),
            c.model@.insts.len() == i,
            forall|u: usize|
                u < f@.vars.len() && defined_before(f@, i as int, u) ==> #[trigger] env@[u as int]
                    == Some(vals[u]) && c.model@.values.contains(vals[u]),
            forall|u: usize| #[trigger] vals.contains_key(u) ==> defined_before(f@, i as int, u),
            forall|u: usize| u < f@.vars.len() && defined_before(f@, i as int, u) ==> #[trigger] vals.contains_key(u),
            forall|j: int| 0 <= j < i ==> #[trigger] inst_lowered(f@, c.model@, vals, j),
        decreases n - i,
    {
        assert(inst_fault(f@, i as int) is None);
        let ghost old_m = c.model@;
        let ghost old_vals = vals;
        let ghost old_env = env@;
        let ghost mut dst_opt: Option<usize> = None;
        match f.insts[i] {
            Inst::Load { dst, param, offset } => {
                let ty = clif_type(f.vars[dst]);
                let v = ins_load(c, block, ty, params[param], offset);
                env.set(dst, Some(v));
                proof { vals = vals.insert(dst, v); dst_opt = Some(dst); }
            },
            Inst::Iconst { dst, imm } => {
                let ty = clif_type(f.vars[dst]);
                let v = ins_iconst(c, block, ty, imm);
                env.set(dst, Some(v));
                proof { vals = vals.insert(dst, v); dst_opt = Some(dst); }
            },
            Inst::Iadd { dst, lhs, rhs } => {
                let x = env[lhs].unwrap();
                let y = env[rhs].unwrap();
                let v = ins_iadd(c, block, x, y);
                env.set(dst, Some(v));
                proof { vals = vals.insert(dst, v); dst_opt = Some(dst); }
            },
            Inst::Return { src } => {
                let v = env[src].unwrap();
                ins_return(c, block, v);
            },
        }
        proof {
            assert(dst_opt == defined_var(f@.insts[i as int]));
            if let Some(d) = dst_opt {
                assert(write_fault(f@, i as int, d) is None);
                assert(!defined_before(f@, i as int, d));
                assert(!old_vals.contains_key(d));
            }
            assert forall|u: usize| #[trigger] defined_before(f@, i + 1, u) <==> (defined_before(
                f@,
                i as int,
                u,
            ) || dst_opt == Some(u)) by {
                if dst_opt == Some(u) {
                    assert(defined_var(f@.insts[i as int]) == Some(u));
                }
                if defined_before(f@, i + 1, u) {
                    let j = choose|j: int| 0 <= j < i + 1 && #[trigger] defined_var(f@.insts[j]) == Some(u);
                    if j < i {
                        assert(defined_before(f@, i as int, u));
                    }
                }
                if defined_before(f@, i as int, u) {
                    let j = choose|j: int| 0 <= j < i && #[trigger] defined_var(f@.insts[j]) == Some(u);
                    assert(0 <= j < i + 1);
                }
            }
            assert forall|u: usize| u < f@.vars.len() && defined_before(f@, i + 1, u) implies #[trigger] env@[u as int]
                == Some(vals[u]) && c.model@.values.contains(vals[u]) by {
                if dst_opt != Some(u) {
                    assert(defined_before(f@, i as int, u));
                    assert(old_env[u as int] == Some(old_vals[u]));
                    assert(old_m.values.contains(old_vals[u]));
                }
            }
            assert forall|j: int| 0 <= j < i + 1 implies #[trigger] inst_lowered(f@, c.model@, vals, j) by {
                if j < i {
                    assert(inst_lowered(f@, old_m, old_vals, j));
                    lemma_touched_defined(f@, j, i as int);
                    assert(c.model@.insts[j] == old_m.insts[j]);
                }
            }
        }
        i = i + 1;
    }
    proof {
        assert(lowered_with(f@, c.model@, vals));
    }
}

} // verus!
