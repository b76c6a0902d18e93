//! The two ways of realising the adder: compiled into this process (JIT),
//! or emitted as a relocatable object for an outside linker (AOT).
use vstd::prelude::*;
use crate::ir::{adder_spec, build_adder, IrFunction};
use crate::validate::{verify, VerifyError};
use crate::lower::{empty_model, lower, lowered, ClifModel, Codegen};
use crate::validate::well_formed;
use crate::semantics::lemma_adder_well_formed;
use cranelift::codegen::ir::Type;
use cranelift::jit::{JITBuilder, JITModule};
use cranelift::module::{FuncId, Linkage, Module};
use cranelift::object::{ObjectBuilder, ObjectModule};

verus! {

#[verifier::external_type_specification]
#[verifier::external_body]
pub struct ExJITModule(cranelift::jit::JITModule);

#[verifier::external_type_specification]
#[verifier::external_body]
pub struct ExObjectModule(cranelift::object::ObjectModule);

#[verifier::external_type_specification]
#[verifier::external_body]
pub struct ExFuncId(cranelift::module::FuncId);

/// The symbol under which the JIT backend registers the adder.
pub const JIT_SYMBOL: &'static str = "adder";

/// The symbol that the object backend exports.
pub const OBJECT_SYMBOL: &'static str = "main";

/// The name recorded in the emitted object.
pub const OBJECT_NAME: &'static str = "example";

/// Why the pipeline stopped.
#[derive(Clone, Debug, PartialEq, Eq)]
pub enum PipelineError {
    /// Not exactly two operands were given.
    Argument { count: usize },
    /// An operand is not a decimal 64-bit integer.
    NotAnInteger { index: usize },
    /// The host's instruction set or codegen settings are unsupported.
    TargetResolution { message: String },
    /// The IR failed the library's verifier.
    Verification { fault: VerifyError },
    /// The lowered function failed cranelift's verifier.
    LoweredVerification { message: String },
    /// Declaring the function in the module failed.
    Declaration { message: String },
    /// Compiling and defining the function failed.
    Definition { message: String },
    /// Resolving relocations and making the code executable failed.
    Finalization { message: String },
    /// Serialising the object failed.
    Emission { message: String },
}

/// Errors that only the outside compiler can cause.
pub open spec fn is_backend_error(e: PipelineError) -> bool {
    e is TargetResolution || e is LoweredVerification || e is Declaration || e is Definition
        || e is Finalization || e is Emission
}

/// A function declared in a module: its name, with export linkage, and
/// its signature.
pub struct Declared {
    pub name: Seq<char>,
    pub params: Seq<Type>,
    pub results: Seq<Type>,
}

/// A module that compiles into this process, with what it has declared
/// and defined.
pub struct JitHost {
    pub module: JITModule,
    pub decls: Ghost<Map<FuncId, Declared>>,
    pub defined: Ghost<Set<FuncId>>,
}

/// A module that emits a relocatable object, with what it has declared
/// and defined.
pub struct ObjectHost {
    pub module: ObjectModule,
    pub decls: Ghost<Map<FuncId, Declared>>,
    pub defined: Ghost<Set<FuncId>>,
}

/// Relies on `cranelift::native::builder` and `isa::Builder::finish` with
/// default flags (`settings::Flags::new(settings::builder())`, in which
/// `is_pic` is off), to resolve the host target; then `JITBuilder::with_isa`
/// with `default_libcall_names` and `JITModule::new`, which starts with no
/// declarations. Errors rendered as text.
#[verifier::external_body]
fn host_jit_module() -> (r: Result<JitHost, String>)
    ensures
        match r {
            Ok(h) => h.decls@ == Map::<FuncId, Declared>::empty() && h.defined@ == Set::<FuncId>::empty(),
            Err(_) => true,
        },
{
    let flags = cranelift::codegen::settings::Flags::new(cranelift::codegen::settings::builder());
    let isa_builder = cranelift::native::builder().map_err(|m| m.to_string())?;
    let isa = isa_builder.finish(flags).map_err(|e| e.to_string())?;
    let libcalls = cranelift::module::default_libcall_names();
    let module = JITModule::new(JITBuilder::with_isa(isa, libcalls));
    Ok(JitHost { module, decls: Ghost(Map::empty()), defined: Ghost(Set::empty()) })
}

/// Relies on `cranelift::native::builder` and `isa::Builder::finish` with
/// default flags, to resolve the host target; then `ObjectBuilder::new` with
/// `default_libcall_names` and `ObjectModule::new`, which starts with no
/// declarations. Errors rendered as text.
#[verifier::external_body]
fn host_object_module(name: &str) -> (r: Result<ObjectHost, String>)
    ensures
        match r {
            Ok(h) => h.decls@ == Map::<FuncId, Declared>::empty() && h.defined@ == Set::<FuncId>::empty(),
            Err(_) => true,
        },
{
    let flags = cranelift::codegen::settings::Flags::new(cranelift::codegen::settings::builder());
    let isa_builder = cranelift::native::builder().map_err(|m| m.to_string())?;
    let isa = isa_builder.finish(flags).map_err(|e| e.to_string())?;
    let libcalls = cranelift::module::default_libcall_names();
    let builder = ObjectBuilder::new(isa, name, libcalls).map_err(|e| e.to_string())?;
    Ok(ObjectHost { module: ObjectModule::new(builder), decls: Ghost(Map::empty()), defined: Ghost(Set::empty()) })
}

/// Relies on `Module::make_context` of `JITModule`: a context holding an
/// empty function in the host's default calling convention.
#[verifier::external_body]
fn jit_make_context(h: &JitHost) -> (c: Codegen)
    ensures
        c.model@ == empty_model(),
{
    Codegen { ctx: h.module.make_context(), model: Ghost(empty_model()) }
}

/// Relies on `Module::make_context` of `ObjectModule`: a context holding an
/// empty function in the host's default calling convention.
#[verifier::external_body]
fn object_make_context(h: &ObjectHost) -> (c: Codegen)
    ensures
        c.model@ == empty_model(),
{
    Codegen { ctx: h.module.make_context(), model: Ghost(empty_model()) }
}

/// Relies on `cranelift::codegen::verifier::verify_function` with default
/// flags; its errors rendered as text.
#[verifier::external_body]
fn verify_lowered(c: &Codegen) -> Result<(), String> {
    let flags = cranelift::codegen::settings::Flags::new(cranelift::codegen::settings::builder());
    cranelift::codegen::verifier::verify_function(&c.ctx.func, &flags).map_err(|e| e.to_string())
}

/// Relies on `Function::display`: the textual form of the lowered function.
#[verifier::external_body]
fn render(c: &Codegen) -> String {
    c.ctx.func.display().to_string()
}

/// Relies on `Module::declare_function` of `JITModule`, with export linkage
/// and the signature of the context's function. A name declared before with
/// that signature gives its earlier id.
#[verifier::external_body]
fn jit_declare(h: &mut JitHost, name: &str, c: &Codegen) -> (r: Result<FuncId, String>)
    ensures
        r matches Ok(id) ==> final(h).decls@ == old(h).decls@.insert(
            id,
            Declared { name: name@, params: c.model@.params, results: c.model@.results },
        ),
        final(h).defined@ == old(h).defined@,
        r is Err ==> final(h).decls@ == old(h).decls@,
{
    h.module.declare_function(name, Linkage::Export, &c.ctx.func.signature).map_err(|e| e.to_string())
}

/// Relies on `Module::declare_function` of `ObjectModule`, with export
/// linkage and the signature of the context's function.
#[verifier::external_body]
fn object_declare(h: &mut ObjectHost, name: &str, c: &Codegen) -> (r: Result<FuncId, String>)
    ensures
        r matches Ok(id) ==> final(h).decls@ == old(h).decls@.insert(
            id,
            Declared { name: name@, params: c.model@.params, results: c.model@.results },
        ),
        final(h).defined@ == old(h).defined@,
        r is Err ==> final(h).decls@ == old(h).decls@,
{
    h.module.declare_function(name, Linkage::Export, &c.ctx.func.signature).map_err(|e| e.to_string())
}

/// Relies on `Module::define_function` of `JITModule`, which compiles the
/// context's function (and may rewrite it) under a declared id.
#[verifier::external_body]
fn jit_define(h: &mut JitHost, id: FuncId, c: &mut Codegen) -> (r: Result<(), String>)
    requires
        old(h).decls@.contains_key(id),
    ensures
        final(h).decls@ == old(h).decls@,
        r is Ok ==> final(h).defined@ == old(h).defined@.insert(id),
        r is Err ==> final(h).defined@ == old(h).defined@,
{
    h.module.define_function(id, &mut c.ctx).map_err(|e| e.to_string())
}

/// Relies on `Module::define_function` of `ObjectModule` under a declared id.
#[verifier::external_body]
fn object_define(h: &mut ObjectHost, id: FuncId, c: &mut Codegen) -> (r: Result<(), String>)
    requires
        old(h).decls@.contains_key(id),
    ensures
        final(h).decls@ == old(h).decls@,
        r is Ok ==> final(h).defined@ == old(h).defined@.insert(id),
        r is Err ==> final(h).defined@ == old(h).defined@,
{
    h.module.define_function(id, &mut c.ctx).map_err(|e| e.to_string())
}

/// Relies on `JITModule::finalize_definitions`: resolves relocations and
/// makes the code executable. Every declared function is defined, so no
/// symbol is left to look up outside the module.
#[verifier::external_body]
fn jit_finalize(h: &mut JitHost) -> (r: Result<(), String>)
    requires
        old(h).defined@ == old(h).decls@.dom(),
    ensures
        final(h).decls@ == old(h).decls@,
        final(h).defined@ == old(h).defined@,
{
    h.module.finalize_definitions().map_err(|e| e.to_string())
}

/// Relies on `ObjectModule::finish`, which asserts that every exported
/// declaration is defined, and `ObjectProduct::emit`: the object's bytes.
#[verifier::external_body]
fn object_emit(h: ObjectHost) -> Result<Vec<u8>, String>
    requires
        h.defined@ == h.decls@.dom(),
{
    h.module.finish().emit().map_err(|e| e.to_string())
}

/// The value of a non-empty run of decimal digits.
pub open spec fn digits_value(s: Seq<char>) -> int
    decreases s.len(),
{
    if s.len() == 0 {
        0
    } else {
        digits_value(s.drop_last()) * 10 + ((s.last() as u32) as int - 48)
    }
}

/// `s` is one or more ASCII decimal digits.
pub open spec fn all_digits(s: Seq<char>) -> bool {
    s.len() > 0 && forall|i: int| 0 <= i < s.len() ==> '0' <= #[trigger] s[i] <= '9'
}

/// A decimal 64-bit integer: an optional `+` or `-`, then digits, whose
/// value lies in range.
pub open spec fn decimal_i64(s: Seq<char>) -> Option<i64> {
    let signed = s.len() > 0 && (s[0] == '-' || s[0] == '+');
    let body = if signed { s.subrange(1, s.len() as int) } else { s };
    let v = if signed && s[0] == '-' { -digits_value(body) } else { digits_value(body) };
    if all_digits(body) && i64::MIN <= v <= i64::MAX {
        Some(v as i64)
    } else {
        None
    }
}

/// Relies on `str::parse::<i64>`: an optional sign and decimal digits
/// whose value fits in 64 bits, or nothing.
#[verifier::external_body]
fn parse_i64(s: &String) -> (r: Option<i64>)
    ensures
        r == decimal_i64(s@),
{
    s.parse::<i64>().ok()
}

/// Reads the two operand tokens `r` and `c`. Any count but two is an
/// argument error; then the first token that is not an integer is named.
pub fn parse_operands(args: &Vec<String>) -> (r: Result<(i64, i64), PipelineError>)
    ensures
        args@.len() != 2 ==> r == Err::<(i64, i64), PipelineError>(
            PipelineError::Argument { count: args@.len() as usize },
        ),
        args@.len() == 2 ==> r == match (decimal_i64(args@[0]@), decimal_i64(args@[1]@)) {
            (Some(a), Some(b)) => Ok::<(i64, i64), PipelineError>((a, b)),
            (None, _) => Err(PipelineError::NotAnInteger { index: 0 }),
            (Some(_), None) => Err(PipelineError::NotAnInteger { index: 1 }),
        },
{
    if args.len() != 2 {
        return Err(PipelineError::Argument { count: args.len() });
    }
    let a = match parse_i64(&args[0]) {
        Some(a) => a,
        None => {
            return Err(PipelineError::NotAnInteger { index: 0 });
        },
    };
    match parse_i64(&args[1]) {
        Some(b) => Ok((a, b)),
        None => Err(PipelineError::NotAnInteger { index: 1 }),
    }
}

/// Splits the operands into the runtime operand `r` and the constant `c`;
/// any count but two is an argument error, found before any IR is built.
pub fn operands_of(operands: &Vec<i64>) -> (r: Result<(i64, i64), PipelineError>)
    ensures
        operands@.len() == 2 ==> r == Ok::<(i64, i64), PipelineError>((operands@[0], operands@[1])),
        operands@.len() != 2 ==> r == Err::<(i64, i64), PipelineError>(
            PipelineError::Argument { count: operands@.len() as usize },
        ),
{
    if operands.len() != 2 {
        Err(PipelineError::Argument { count: operands.len() })
    } else {
        Ok((operands[0], operands[1]))
    }
}

/// Builds the adder for constant `c` and runs the verifier on it, which
/// always accepts it.
pub fn verified_adder(c: i64) -> (r: Result<IrFunction, PipelineError>)
    ensures
        r matches Ok(f) && f@ == adder_spec(c),
{
    let f = build_adder(c);
    proof { lemma_adder_well_formed(c); }
    match verify(&f) {
        Ok(()) => Ok(f),
        Err(fault) => Err(PipelineError::Verification { fault }),
    }
}

/// Lowers verified IR into a fresh context, runs cranelift's verifier on
/// the result, and returns its textual form.
fn lower_checked(f: &IrFunction, c: &mut Codegen) -> (r: Result<String, PipelineError>)
    requires
        well_formed(f@),
        old(c).model@ == empty_model(),
    ensures
        lowered(f@, final(c).model@),
        r matches Err(e) ==> e is LoweredVerification,
{
    lower(f, c);
    match verify_lowered(c) {
        Ok(()) => Ok(render(c)),
        Err(message) => Err(PipelineError::LoweredVerification { message }),
    }
}

/// What the JIT backend hands back: the module that owns the code, the
/// function's id in it, the IR it was lowered from, the model of the
/// lowered function, and its text.
pub struct JitArtifact {
    pub host: JitHost,
    pub func: FuncId,
    pub ir: IrFunction,
    pub function: Ghost<ClifModel>,
    pub text: String,
}

/// What the object backend hands back: the object's bytes, the IR it was
/// lowered from, the model of the lowered function, and its text.
pub struct ObjectArtifact {
    pub bytes: Vec<u8>,
    pub ir: IrFunction,
    pub function: Ghost<ClifModel>,
    pub text: String,
}

/// The one function that a module holds: `id`, declared under `name` with
/// the signature of `m`, and defined.
pub open spec fn sole_function(
    decls: Map<FuncId, Declared>,
    defined: Set<FuncId>,
    id: FuncId,
    name: Seq<char>,
    m: ClifModel,
) -> bool {
    &&& decls == Map::<FuncId, Declared>::empty().insert(
        id,
        Declared { name, params: m.params, results: m.results },
    )
    &&& defined == Set::<FuncId>::empty().insert(id)
}

/// Builds, verifies and lowers the adder for constant `c` into this
/// process, declares it as `adder` with export linkage, defines it and
/// finalises it.
pub fn compile_jit(c: i64) -> (r: Result<JitArtifact, PipelineError>)
    ensures
        r matches Ok(a) ==> a.ir@ == adder_spec(c) && lowered(a.ir@, a.function@) && sole_function(
            a.host.decls@,
            a.host.defined@,
            a.func,
            JIT_SYMBOL@,
            a.function@,
        ),
        r matches Err(e) ==> is_backend_error(e),
{
    let f = match verified_adder(c) {
        Ok(f) => f,
        Err(e) => {
            return Err(e);
        },
    };
    let mut host = match host_jit_module() {
        Ok(h) => h,
        Err(message) => {
            return Err(PipelineError::TargetResolution { message });
        },
    };
    let mut ctx = jit_make_context(&host);
    proof { lemma_adder_well_formed(c); }
    let text = match lower_checked(&f, &mut ctx) {
        Ok(t) => t,
        Err(e) => {
            return Err(e);
        },
    };
    let function = Ghost(ctx.model@);
    let func = match jit_declare(&mut host, JIT_SYMBOL, &ctx) {
        Ok(id) => id,
        Err(message) => {
            return Err(PipelineError::Declaration { message });
        },
    };
    if let Err(message) = jit_define(&mut host, func, &mut ctx) {
        return Err(PipelineError::Definition { message });
    }
    assert(host.defined@ =~= host.decls@.dom());
    if let Err(message) = jit_finalize(&mut host) {
        return Err(PipelineError::Finalization { message });
    }
    Ok(JitArtifact { host, func, ir: f, function, text })
}

/// Builds, verifies and lowers the adder for the operands `(r, c)` into a
/// relocatable object whose one export is `main`, and returns its bytes.
/// Any operand count but two is refused before any IR is built.
pub fn build_native(operands: Vec<i64>) -> (r: Result<ObjectArtifact, PipelineError>)
    ensures
        operands@.len() != 2 ==> r == Err::<ObjectArtifact, PipelineError>(
            PipelineError::Argument { count: operands@.len() as usize },
        ),
        operands@.len() == 2 ==> (r matches Ok(a) ==> a.ir@ == adder_spec(operands@[1]) && lowered(
            a.ir@,
            a.function@,
        )),
        operands@.len() == 2 ==> (r matches Err(e) ==> is_backend_error(e)),
{
    let (_runtime, c) = match operands_of(&operands) {
        Ok(p) => p,
        Err(e) => {
            return Err(e);
        },
    };
    let f = match verified_adder(c) {
        Ok(f) => f,
        Err(e) => {
            return Err(e);
        },
    };
    let mut host = match host_object_module(OBJECT_NAME) {
        Ok(h) => h,
        Err(message) => {
            return Err(PipelineError::TargetResolution { message });
        },
    };
    let mut ctx = object_make_context(&host);
    proof { lemma_adder_well_formed(c); }
    let text = match lower_checked(&f, &mut ctx) {
        Ok(t) => t,
        Err(e) => {
            return Err(e);
        },
    };
    let function = Ghost(ctx.model@);
    let func = match object_declare(&mut host, OBJECT_SYMBOL, &ctx) {
        Ok(id) => id,
        Err(message) => {
            return Err(PipelineError::Declaration { message });
        },
    };
    if let Err(message) = object_define(&mut host, func, &mut ctx) {
        return Err(PipelineError::Definition { message });
    }
    assert(host.defined@ =~= host.decls@.dom());
    assert(sole_function(host.decls@, host.defined@, func, OBJECT_SYMBOL@, function@));
    match object_emit(host) {
        Ok(bytes) => Ok(ObjectArtifact { bytes, ir: f, function, text }),
        Err(message) => Err(PipelineError::Emission { message }),
    }
}

} // verus!
