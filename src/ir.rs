//! The intermediate representation: a single-block function over typed
//! SSA variables.
use vstd::prelude::*;

verus! {

/// Scalar types that a variable, a parameter or a return value may have.
#[derive(Clone, Copy, Debug, PartialEq, Eq, Structural)]
pub enum ScalarType {
    I32,
    I64,
}

/// One instruction of the entry block. Variables and parameters are named
/// by their index.
#[derive(Clone, Copy, Debug, PartialEq, Eq, Structural)]
pub enum Inst {
    /// `dst = load.i64 [param + offset]`: reads a 64-bit integer from the
    /// address held by a function parameter, with trusted memory semantics.
    Load { dst: usize, param: usize, offset: i32 },
    /// `dst = iconst imm`: materialises an immediate.
    Iconst { dst: usize, imm: i64 },
    /// `dst = iadd lhs, rhs`: two's-complement wrapping addition.
    Iadd { dst: usize, lhs: usize, rhs: usize },
    /// `return src`.
    Return { src: usize },
}

/// A function: its signature, its declared variables, and the instruction
/// stream of its single entry block (whose parameters are the function's).
#[derive(Debug)]
pub struct IrFunction {
    pub params: Vec<ScalarType>,
    pub results: Vec<ScalarType>,
    pub vars: Vec<ScalarType>,
    pub insts: Vec<Inst>,
}

/// The mathematical view of an [`IrFunction`].
pub struct IrFunctionView {
    pub params: Seq<ScalarType>,
    pub results: Seq<ScalarType>,
    pub vars: Seq<ScalarType>,
    pub insts: Seq<Inst>,
}

impl View for IrFunction {
    type V = IrFunctionView;

    open spec fn view(&self) -> IrFunctionView {
        IrFunctionView {
            params: self.params@,
            results: self.results@,
            vars: self.vars@,
            insts: self.insts@,
        }
    }
}

impl Inst {
    /// This instruction is a `return`.
    pub fn is_return(&self) -> (r: bool)
        ensures
            r == (*self is Return),
    {
        match self {
            Inst::Return { .. } => true,
            _ => false,
        }
    }
}

/// The variable an instruction writes, if any.
pub open spec fn defined_var(inst: Inst) -> Option<usize> {
    match inst {
        Inst::Load { dst, .. } => Some(dst),
        Inst::Iconst { dst, .. } => Some(dst),
        Inst::Iadd { dst, .. } => Some(dst),
        Inst::Return { .. } => None,
    }
}

/// The adder's variable `x`: the loaded runtime operand.
pub const VAR_X: usize = 0;

/// The adder's variable `y`: the embedded constant.
pub const VAR_Y: usize = 1;

/// The adder's variable `a`: the sum.
pub const VAR_A: usize = 2;

/// The adder: `fn(ptr) -> i64 { x = load [ptr]; y = c; a = x + y; return a }`.
pub open spec fn adder_spec(c: i64) -> IrFunctionView {
    IrFunctionView {
        params: seq![ScalarType::I64],
        results: seq![ScalarType::I64],
        vars: seq![ScalarType::I64, ScalarType::I64, ScalarType::I64],
        insts: seq![
            Inst::Load { dst: VAR_X, param: 0, offset: 0 },
            Inst::Iconst { dst: VAR_Y, imm: c },
            Inst::Iadd { dst: VAR_A, lhs: VAR_X, rhs: VAR_Y },
            Inst::Return { src: VAR_A },
        ],
    }
}

impl IrFunction {
    /// An empty function with the given signature.
    pub fn new(params: Vec<ScalarType>, results: Vec<ScalarType>) -> (r: IrFunction)
        ensures
            r@.params == params@,
            r@.results == results@,
            r@.vars == Seq::<ScalarType>::empty(),
            r@.insts == Seq::<Inst>::empty(),
    {
        IrFunction { params, results, vars: Vec::new(), insts: Vec::new() }
    }

    /// Declares a new variable of type `ty` and returns its index.
    pub fn declare_var(&mut self, ty: ScalarType) -> (v: usize)
        requires
            old(self).vars@.len() < usize::MAX,
        ensures
            v == old(self).vars@.len(),
            final(self)@.vars == old(self)@.vars.push(ty),
            final(self)@.params == old(self)@.params,
            final(self)@.results == old(self)@.results,
            final(self)@.insts == old(self)@.insts,
    {
        let v = self.vars.len();
        self.vars.push(ty);
        v
    }

    /// Appends an instruction to the entry block.
    pub fn push_inst(&mut self, inst: Inst)
        ensures
            final(self)@.insts == old(self)@.insts.push(inst),
            final(self)@.params == old(self)@.params,
            final(self)@.results == old(self)@.results,
            final(self)@.vars == old(self)@.vars,
    {
        self.insts.push(inst);
    }
}

/// Builds the adder function whose embedded constant is `c`.
pub fn build_adder(c: i64) -> (f: IrFunction)
    ensures
        f@ == adder_spec(c),
{
    let mut f = IrFunction::new(vec![ScalarType::I64], vec![ScalarType::I64]);
    let x = f.declare_var(ScalarType::I64);
    let y = f.declare_var(ScalarType::I64);
    let a = f.declare_var(ScalarType::I64);
    f.push_inst(Inst::Load { dst: x, param: 0, offset: 0 });
    f.push_inst(Inst::Iconst { dst: y, imm: c });
    f.push_inst(Inst::Iadd { dst: a, lhs: x, rhs: y });
    f.push_inst(Inst::Return { src: a });
    assert(f@.params =~= adder_spec(c).params);
    assert(f@.results =~= adder_spec(c).results);
    assert(f@.vars =~= adder_spec(c).vars);
    assert(f@.insts =~= adder_spec(c).insts);
    f
}

} // verus!
