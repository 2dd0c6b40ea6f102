//! Bindings to the `wasmi` interpreter.
//!
//! Everything the harness takes on trust about the interpreter lives here:
//! declarations of its types, and thin wrappers around the calls the
//! verified code makes. Each wrapper's body only makes the call and converts
//! values; its contract states no more than the interpreter's own
//! documentation and source show. Handles that the interpreter resolves
//! against a store (the instance and its functions) never cross a wrapper
//! boundary on their own: they live inside a [`Session`], created and used
//! by one store, so a mismatched pairing cannot be expressed.

use vstd::prelude::*;

use crate::errors::{InvokeError, LoadError, TrapKind};
use crate::host::HostFunction;
use crate::module_info::{ExportDesc, ImportDesc, ItemKind};
use crate::registry::{Global, MAX_HOST_FUNC_PARAMS};
use crate::value::{Value, ValueType};
use crate::vm::Vm;

verus! {

#[verifier::external_type_specification]
#[verifier::external_body]
pub struct ExEngine(wasmi::Engine);

#[verifier::external_type_specification]
#[verifier::external_body]
pub struct ExModule(wasmi::Module);

#[verifier::external_type_specification]
#[verifier::external_body]
#[verifier::reject_recursive_types(T)]
pub struct ExStore<T>(wasmi::Store<T>);

#[verifier::external_type_specification]
#[verifier::external_body]
#[verifier::reject_recursive_types(T)]
pub struct ExLinker<T>(wasmi::Linker<T>);

#[verifier::external_type_specification]
#[verifier::external_body]
pub struct ExInstance(wasmi::Instance);

#[verifier::external_type_specification]
#[verifier::external_body]
pub struct ExVal(wasmi::Val);

#[verifier::external_type_specification]
#[verifier::external_body]
pub struct ExValType(wasmi::ValType);

#[verifier::external_type_specification]
#[verifier::external_body]
pub struct ExTrapCode(wasmi::TrapCode);

#[verifier::external_type_specification]
#[verifier::external_body]
pub struct ExError(wasmi::Error);

#[verifier::external_type_specification]
#[verifier::external_body]
pub struct ExExternType(wasmi::ExternType);

/// Whether the interpreter accepts the bytes as a well-formed, supported
/// WebAssembly module. Its outcome is a function of the bytes alone; no
/// contract states what the name is on given bytes, so nothing about a
/// particular binary can be concluded without making the call.
pub uninterp spec fn spec_decode_ok(bytes: Seq<u8>) -> bool;

/// Relies on wasmi::Module::new: it parses and validates the given bytes
/// against a fresh default-configuration engine — a deterministic function
/// of the bytes — yielding the engine and module together on success, and
/// failing on any malformed or unsupported input without producing a
/// module. The default configuration also accepts the textual format;
/// `Vm::new` admits only bytes carrying the binary header, so no text ever
/// reaches this call through the library.
#[verifier::external_body]
pub(crate) fn load_module(wasm: &[u8]) -> (r: Result<(wasmi::Engine, wasmi::Module), LoadError>)
    ensures
        (r is Ok) <==> spec_decode_ok(wasm@),
        r matches Err(e) ==> e == LoadError::Decode,
{
    let engine = wasmi::Engine::default();
    match wasmi::Module::new(&engine, wasm) {
        Ok(module) => Ok((engine, module)),
        Err(_) => Err(LoadError::Decode),
    }
}

/// Relies on wasmi's ValType: the four numeric kinds map one to one; the
/// vector and reference kinds have no counterpart in this harness.
#[verifier::external_body]
fn value_type_of(t: &wasmi::ValType) -> (r: Option<ValueType>) {
    match t {
        wasmi::ValType::I32 => Some(ValueType::I32),
        wasmi::ValType::I64 => Some(ValueType::I64),
        wasmi::ValType::F32 => Some(ValueType::F32),
        wasmi::ValType::F64 => Some(ValueType::F64),
        _ => None,
    }
}

/// Relies on wasmi's ValType: the reverse of the numeric mapping above.
#[verifier::external_body]
fn wasmi_val_type(t: &ValueType) -> (r: wasmi::ValType) {
    match t {
        ValueType::I32 => wasmi::ValType::I32,
        ValueType::I64 => wasmi::ValType::I64,
        ValueType::F32 => wasmi::ValType::F32,
        ValueType::F64 => wasmi::ValType::F64,
    }
}

/// Relies on wasmi's Val: the numeric value constructors, with floats
/// carried as their bit patterns.
#[verifier::external_body]
fn val_of_value(v: &Value) -> (r: wasmi::Val) {
    match v {
        Value::I32(x) => wasmi::Val::I32(*x),
        Value::I64(x) => wasmi::Val::I64(*x),
        Value::F32Bits(b) => wasmi::Val::F32(wasmi::F32::from_bits(*b)),
        Value::F64Bits(b) => wasmi::Val::F64(wasmi::F64::from_bits(*b)),
    }
}

/// Relies on wasmi's Val: numeric values map back one to one; vector and
/// reference values have no counterpart here.
#[verifier::external_body]
fn value_of_val(v: &wasmi::Val) -> (r: Option<Value>) {
    match v {
        wasmi::Val::I32(x) => Some(Value::I32(*x)),
        wasmi::Val::I64(x) => Some(Value::I64(*x)),
        wasmi::Val::F32(x) => Some(Value::F32Bits(x.to_bits())),
        wasmi::Val::F64(x) => Some(Value::F64Bits(x.to_bits())),
        _ => None,
    }
}

/// Relies on wasmi's TrapCode: each interpreter trap code maps to the trap
/// kind of the same meaning; the three resource-limit codes share one kind.
#[verifier::external_body]
fn trap_kind_of(c: wasmi::TrapCode) -> (r: TrapKind) {
    match c {
        wasmi::TrapCode::UnreachableCodeReached => TrapKind::Unreachable,
        wasmi::TrapCode::MemoryOutOfBounds => TrapKind::MemoryOutOfBounds,
        wasmi::TrapCode::TableOutOfBounds => TrapKind::TableOutOfBounds,
        wasmi::TrapCode::IndirectCallToNull => TrapKind::IndirectCallToNull,
        wasmi::TrapCode::IntegerDivisionByZero => TrapKind::IntegerDivisionByZero,
        wasmi::TrapCode::IntegerOverflow => TrapKind::IntegerOverflow,
        wasmi::TrapCode::BadConversionToInteger => TrapKind::BadConversionToInteger,
        wasmi::TrapCode::StackOverflow => TrapKind::StackOverflow,
        wasmi::TrapCode::BadSignature => TrapKind::BadSignature,
        wasmi::TrapCode::OutOfFuel => TrapKind::ResourceExhausted,
        wasmi::TrapCode::GrowthOperationLimited => TrapKind::ResourceExhausted,
        wasmi::TrapCode::OutOfSystemMemory => TrapKind::ResourceExhausted,
    }
}

/// Relies on wasmi's TrapCode: the reverse of the mapping above, used to
/// surface a host callback's failure to the guest as a trap.
#[verifier::external_body]
fn trap_code_of(k: &TrapKind) -> (r: wasmi::TrapCode) {
    match k {
        TrapKind::Unreachable => wasmi::TrapCode::UnreachableCodeReached,
        TrapKind::MemoryOutOfBounds => wasmi::TrapCode::MemoryOutOfBounds,
        TrapKind::TableOutOfBounds => wasmi::TrapCode::TableOutOfBounds,
        TrapKind::IndirectCallToNull => wasmi::TrapCode::IndirectCallToNull,
        TrapKind::IntegerDivisionByZero => wasmi::TrapCode::IntegerDivisionByZero,
        TrapKind::IntegerOverflow => wasmi::TrapCode::IntegerOverflow,
        TrapKind::BadConversionToInteger => wasmi::TrapCode::BadConversionToInteger,
        TrapKind::StackOverflow => wasmi::TrapCode::StackOverflow,
        TrapKind::BadSignature => wasmi::TrapCode::BadSignature,
        TrapKind::ResourceExhausted => wasmi::TrapCode::OutOfSystemMemory,
    }
}

/// Relies on wasmi::Error::as_trap_code: an error carries a trap code
/// exactly when execution trapped; every other interpreter failure is
/// reported as an engine error.
#[verifier::external_body]
fn invoke_error_of(e: wasmi::Error) -> (r: InvokeError)
    ensures
        r matches InvokeError::Trap(_) || r == InvokeError::Engine,
{
    match e.as_trap_code() {
        Some(c) => InvokeError::Trap(trap_kind_of(c)),
        None => InvokeError::Engine,
    }
}

/// Relies on wasmi's ExternType: a function type carries its parameter and
/// result types; globals, memories and tables are tagged as such.
#[verifier::external_body]
fn item_kind_of(ty: &wasmi::ExternType) -> (r: ItemKind) {
    match ty {
        wasmi::ExternType::Func(ft) => {
            let params: Option<Vec<ValueType>> = ft.params().iter().map(value_type_of).collect();
            let results: Option<Vec<ValueType>> = ft.results().iter().map(value_type_of).collect();
            match (params, results) {
                (Some(params), Some(results)) => ItemKind::Func { params, results },
                _ => ItemKind::FuncNonNumeric,
            }
        },
        wasmi::ExternType::Global(_) => ItemKind::GlobalVar,
        wasmi::ExternType::Memory(_) => ItemKind::Memory,
        wasmi::ExternType::Table(_) => ItemKind::Table,
    }
}

/// Relies on wasmi::Module::imports: it yields every import the module
/// declares, in declaration order, with its pair and its type.
#[verifier::external_body]
pub(crate) fn module_imports(module: &wasmi::Module) -> (r: Vec<ImportDesc>) {
    module.imports().map(
        |imp| ImportDesc {
            module_name: imp.module().to_string(),
            field_name: imp.name().to_string(),
            kind: item_kind_of(imp.ty()),
        },
    ).collect()
}

/// Relies on wasmi::Module::exports: it yields every export the module
/// offers, with its name and its type.
#[verifier::external_body]
pub(crate) fn module_exports(module: &wasmi::Module) -> (r: Vec<ExportDesc>) {
    module.exports().map(
        |exp| ExportDesc { name: exp.name().to_string(), kind: item_kind_of(exp.ty()) },
    ).collect()
}

/// Relies on wasmi::Linker::new: a fresh linker with no definitions.
#[verifier::external_body]
pub(crate) fn linker_new<T>(engine: &wasmi::Engine) -> wasmi::Linker<T> {
    wasmi::Linker::new(engine)
}

/// The trampoline the interpreter runs when guest code calls a host-bound
/// function: it converts the raw arguments, dispatches into the registry
/// held as store data under the captured id, and writes the result back,
/// surfacing any dispatch failure as the corresponding trap.
#[verifier::external_body]
fn host_trampoline<H: HostFunction>(
    reg: &Global<H>,
    id: u64,
    args: &[wasmi::Val],
    outs: &mut [wasmi::Val],
) -> Result<(), wasmi::Error> {
    let vargs = match args.iter().map(value_of_val).collect::<Option<Vec<Value>>>() {
        Some(v) => v,
        None => return Err(wasmi::Error::from(wasmi::TrapCode::BadSignature)),
    };
    match reg.host_fn_call(id, &vargs) {
        Ok(Some(v)) if outs.len() == 1 => {
            outs[0] = val_of_value(&v);
            Ok(())
        },
        Ok(None) if outs.len() == 0 => Ok(()),
        Ok(_) => Err(wasmi::Error::from(wasmi::TrapCode::BadSignature)),
        Err(k) => Err(wasmi::Error::from(trap_code_of(&k))),
    }
}

/// Relies on wasmi::Linker::func_new: it defines, under the given pair, a
/// host function of the given signature whose trampoline dispatches into
/// the registry held as store data, by the given id. The parameter bound
/// keeps the call inside what the interpreter's function types carry, so
/// the call cannot fail abnormally; should the pair already be defined,
/// the linker keeps its first definition and the error is discarded (the
/// registry invariant keeps pairs unique, so its entries never collide).
#[verifier::external_body]
pub(crate) fn linker_define_host<H: HostFunction + 'static>(
    linker: &mut wasmi::Linker<Global<H>>,
    module_name: &str,
    field_name: &str,
    params: &Vec<ValueType>,
    ret: &Option<ValueType>,
    id: u64,
)
    requires
        params@.len() <= MAX_HOST_FUNC_PARAMS,
{
    let ps: Vec<wasmi::ValType> = params.iter().map(wasmi_val_type).collect();
    let rs: Vec<wasmi::ValType> = ret.iter().map(wasmi_val_type).collect();
    let ty = wasmi::FuncType::new(ps, rs);
    let _ = linker.func_new(
        module_name,
        field_name,
        ty,
        move |caller, args, outs| host_trampoline(caller.data(), id, args, outs),
    );
}

/// One instantiation of a `Vm`'s module, ready to have exports called: the
/// store, the host data it owns, and the instance the store produced. The
/// fields never separate, so every call inside runs against the store that
/// owns its handles.
#[verifier::reject_recursive_types(H)]
pub struct Session<H> {
    store: wasmi::Store<Global<H>>,
    instance: wasmi::Instance,
}

/// Relies on wasmi::Store::new and wasmi::Linker::instantiate_and_start:
/// a fresh store owning `data` is built from the `Vm`'s engine, and the
/// `Vm`'s module is instantiated in it against the `Vm`'s linker — engine,
/// module and linker were created together by `Vm::new`, which is what
/// lets the interpreter's same-engine checks always pass. Instantiation
/// binds the imports and runs the module's start function if it declares
/// one (`Vm::new` refuses such modules). Any failure is a trap or an
/// engine error.
#[verifier::external_body]
pub(crate) fn session_new<H: HostFunction + 'static>(vm: &Vm<H>, data: Global<H>) -> (r: Result<
    Session<H>,
    InvokeError,
>)
    ensures
        r matches Err(e) ==> (e matches InvokeError::Trap(_) || e == InvokeError::Engine),
{
    let mut store = wasmi::Store::new(&vm.engine, data);
    match vm.linker.instantiate_and_start(&mut store, &vm.module) {
        Ok(instance) => Ok(Session { store, instance }),
        Err(e) => Err(invoke_error_of(e)),
    }
}

/// Relies on wasmi::Instance::get_func and wasmi::Func::call, both against
/// the session's own store: the named export is looked up, and the call
/// checks the argument values and the result buffer against the callee's
/// signature before running any guest code, fails on any disagreement, and
/// on success fills the buffer with the callee's results. The buffer is
/// sized here from `want_ret`, so a value comes back exactly when one was
/// asked for and the call succeeded.
#[verifier::external_body]
pub(crate) fn session_call<H: HostFunction>(
    session: &mut Session<H>,
    name: &str,
    args: &Vec<Value>,
    want_ret: bool,
) -> (r: Result<Option<Value>, InvokeError>)
    ensures
        r matches Ok(Some(_)) ==> want_ret,
        r matches Ok(None) ==> !want_ret,
        r matches Err(e) ==> (e matches InvokeError::Trap(_) || e == InvokeError::Engine),
{
    let func = match session.instance.get_func(&session.store, name) {
        Some(f) => f,
        None => return Err(InvokeError::Engine),
    };
    let ins: Vec<wasmi::Val> = args.iter().map(val_of_value).collect();
    let mut outs: Vec<wasmi::Val> = if want_ret { vec![wasmi::Val::I32(0)] } else { Vec::new() };
    match func.call(&mut session.store, &ins, &mut outs) {
        Ok(()) => match outs.first() {
            Some(v) => value_of_val(v).map(Some).ok_or(InvokeError::Engine),
            None => Ok(None),
        },
        Err(e) => Err(invoke_error_of(e)),
    }
}

} // verus!
