//! The instantiation and invocation wrapper.
//!
//! A [`Vm`] owns a loaded module and a registry. Each invocation checks the
//! export's name and signature and the module's imports first, in verified
//! code over the module's reported surface; only then is the module
//! instantiated against the registry and the export called.

use vstd::prelude::*;

use crate::errors::{InvokeError, LoadError};
use crate::host::{FilMulHost, HostFunction};
use crate::interp;
use crate::module_info::{ExportDesc, ItemKind};
use crate::registry::Global;
use crate::value::{args_match, args_match_types, Value, ValueType};

verus! {

/// The index of the first export named `n`, if any.
pub open spec fn find_export(s: Seq<ExportDesc>, n: Seq<char>) -> Option<int>
    decreases s.len(),
{
    if s.len() == 0 {
        None
    } else if s[0].name@ == n {
        Some(0int)
    } else {
        match find_export(s.drop_first(), n) {
            Some(i) => Some(i + 1),
            None => None,
        }
    }
}

/// The signature under which this harness can invoke an exported item: its
/// parameter and result types, provided the item is a numeric function with
/// at most one result.
pub open spec fn spec_func_sig(k: ItemKind) -> Option<(Seq<ValueType>, Seq<ValueType>)> {
    match k {
        ItemKind::Func { params, results } => if results@.len() <= 1 {
            Some((params@, results@))
        } else {
            None
        },
        _ => None,
    }
}

proof fn lemma_find_export_at(s: Seq<ExportDesc>, n: Seq<char>, i: int)
    requires
        0 <= i < s.len(),
        s[i].name@ == n,
        forall|k: int| 0 <= k < i ==> (#[trigger] s[k]).name@ != n,
    ensures
        find_export(s, n) == Some(i),
    decreases i,
{
    if i > 0 {
        lemma_find_export_at(s.drop_first(), n, i - 1);
    }
}

proof fn lemma_find_export_none(s: Seq<ExportDesc>, n: Seq<char>)
    requires
        forall|k: int| 0 <= k < s.len() ==> (#[trigger] s[k]).name@ != n,
    ensures
        find_export(s, n) is None,
    decreases s.len(),
{
    if s.len() > 0 {
        lemma_find_export_none(s.drop_first(), n);
    }
}

/// A loaded guest module together with the registry its imports are bound
/// against. The module and registry are read-only after construction; each
/// invocation instantiates the module afresh. The engine, module and
/// linker are created together here and only here, so every later
/// interpreter call runs against matching handles.
#[verifier::reject_recursive_types(H)]
pub struct Vm<H> {
    pub(crate) registry: Global<H>,
    pub(crate) engine: wasmi::Engine,
    pub(crate) module: wasmi::Module,
    pub(crate) linker: wasmi::Linker<Global<H>>,
    pub(crate) imports: Vec<crate::module_info::ImportDesc>,
    pub(crate) exports: Vec<ExportDesc>,
}

impl<H: HostFunction + 'static> Vm<H> {
    /// The registry this module's imports are bound against.
    pub closed spec fn registry(&self) -> Global<H> {
        self.registry
    }

    /// The imports the loaded module declares, as the interpreter reported
    /// them at load time.
    pub closed spec fn imports(&self) -> Seq<crate::module_info::ImportDesc> {
        self.imports@
    }

    /// The exports the loaded module offers, as the interpreter reported
    /// them at load time.
    pub closed spec fn exports(&self) -> Seq<ExportDesc> {
        self.exports@
    }

    /// A well-formed `Vm` carries a well-formed registry.
    pub open spec fn wf(&self) -> bool {
        self.registry().wf()
    }

    /// Parses and validates a guest binary and pairs it with the given
    /// registry: a `Vm` comes back exactly when the bytes are the binary
    /// format, decode, and declare no start function. Only the binary
    /// format is accepted — input without the magic/version header is a
    /// decode failure, whatever else the interpreter's parser might make
    /// of it — a malformed binary is a decode failure too, and a module
    /// with a start section is refused, since this harness runs no guest
    /// code implicitly. In every failure no `Vm` is produced. The
    /// registry's host functions are bound into the linker here, one
    /// definition per entry.
    #[verifier::loop_isolation(false)]
    pub fn new(builtins: Global<H>, wasm_code: &[u8]) -> (r: Result<Self, LoadError>)
        requires
            builtins.wf(),
        ensures
            (r is Ok) <==> (crate::sections::spec_is_binary(wasm_code@)
                && interp::spec_decode_ok(wasm_code@)
                && !crate::sections::spec_has_start_section(wasm_code@)),
            !(crate::sections::spec_is_binary(wasm_code@) && interp::spec_decode_ok(wasm_code@))
                ==> r == Err::<Self, LoadError>(LoadError::Decode),
            (crate::sections::spec_is_binary(wasm_code@) && interp::spec_decode_ok(wasm_code@)
                && crate::sections::spec_has_start_section(wasm_code@)) ==> r == Err::<
                Self,
                LoadError,
            >(LoadError::StartFunction),
            r matches Ok(vm) ==> vm.wf() && vm.registry() == builtins,
    {
        if !crate::sections::is_binary(wasm_code) {
            return Err(LoadError::Decode);
        }
        let (engine, module) = match interp::load_module(wasm_code) {
            Ok(p) => p,
            Err(e) => {
                return Err(e);
            },
        };
        if crate::sections::has_start_section(wasm_code) {
            return Err(LoadError::StartFunction);
        }
        let imports = interp::module_imports(&module);
        let exports = interp::module_exports(&module);
        let mut linker: wasmi::Linker<Global<H>> = interp::linker_new(&engine);
        let n_funcs = builtins.num_funcs();
        let mut i: usize = 0;
        while i < n_funcs
            invariant
                0 <= i <= n_funcs,
            decreases n_funcs - i,
        {
            let e = builtins.func_at(i);
            interp::linker_define_host(
                &mut linker,
                e.module_name.as_str(),
                e.func_name.as_str(),
                &e.params,
                &e.ret,
                e.id,
            );
            i = i + 1;
        }
        Ok(Vm { registry: builtins, engine, module, linker, imports, exports })
    }

    /// Everything `invoke` promises about its result, for an export name,
    /// an argument list and an outcome.
    ///
    /// Every import must be bindable against the registry, the requested
    /// name must exist among the exports and be invocable, and the
    /// arguments must match its declared parameters exactly; each failure
    /// is reported as its own error, before any guest code runs, with a
    /// resolution failure taking precedence — the invocation model binds
    /// the imports before it looks anything up in the instance. When all
    /// of that holds, the call either yields a value of exactly the
    /// declared result type (none when none is declared), or fails with a
    /// trap or an engine error.
    pub open spec fn invoke_post(
        &self,
        name: Seq<char>,
        args: Seq<Value>,
        r: Result<Option<Value>, InvokeError>,
    ) -> bool {
        if exists|k: int|
            0 <= k < self.imports().len() && self.registry().import_fault(
                #[trigger] self.imports()[k],
            ) is Some {
            r matches Err(InvokeError::Resolution(e)) && exists|k: int|
                {
                    &&& 0 <= k < self.imports().len()
                    &&& forall|j: int|
                        0 <= j < k ==> self.registry().import_fault(
                            #[trigger] self.imports()[j],
                        ) is None
                    &&& self.registry().import_fault(#[trigger] self.imports()[k]) == Some(e)
                }
        } else {
            match find_export(self.exports(), name) {
                None => r matches Err(InvokeError::ExportNotFound { name: n2 }) && n2@ == name,
                Some(i) => match spec_func_sig(self.exports()[i].kind) {
                    None => r matches Err(InvokeError::UnsupportedExport { name: n2 }) && n2@
                        == name,
                    Some((params, results)) => if !args_match(params, args) {
                        r == Err::<Option<Value>, InvokeError>(InvokeError::SignatureMismatch)
                    } else {
                        &&& r matches Ok(Some(v)) ==> results.len() == 1 && v.spec_ty()
                            == results[0]
                        &&& r matches Ok(None) ==> results.len() == 0
                        &&& r matches Err(e) ==> (e matches InvokeError::Trap(_) || e
                            == InvokeError::Engine)
                    },
                },
            }
        }
    }

    /// Invokes the named export on the given arguments.
    ///
    /// The import resolution check, the export lookup and the signature
    /// check all happen before the module is instantiated, in that order —
    /// binding the imports precedes looking anything up in the instance —
    /// so an invocation that fails one of them executes no guest code. Instantiation itself
    /// follows the interpreter's semantics, which would run a start
    /// function had the module declared one; no `Vm` holds such a module,
    /// since loading refuses them. An entry point here is an ordinary
    /// export, invoked by name.
    #[verifier::loop_isolation(false)]
    pub fn invoke(&self, name: &str, args: &Vec<Value>) -> (r: Result<Option<Value>, InvokeError>)
        requires
            self.wf(),
        ensures
            self.invoke_post(name@, args@, r),
    {
        match self.registry.check_imports(&self.imports) {
            Err(e) => {
                return Err(InvokeError::Resolution(e));
            },
            Ok(()) => {},
        }
        let n_exports = self.exports.len();
        let mut idx: usize = 0;
        let name_owned = name.to_owned();
        loop
            invariant
                0 <= idx <= n_exports,
                forall|k: int| 0 <= k < idx ==> (#[trigger] self.exports@[k]).name@ != name@,
            decreases n_exports - idx,
        {
            if idx == n_exports {
                proof {
                    lemma_find_export_none(self.exports(), name@);
                }
                return Err(InvokeError::ExportNotFound { name: name_owned });
            }
            if self.exports[idx].name == name_owned {
                break;
            }
            idx = idx + 1;
        }
        proof {
            lemma_find_export_at(self.exports(), name@, idx as int);
        }
        let (params, results) = match &self.exports[idx].kind {
            ItemKind::Func { params, results } => {
                if results.len() > 1 {
                    return Err(InvokeError::UnsupportedExport { name: name_owned });
                }
                (params, results)
            },
            _ => {
                return Err(InvokeError::UnsupportedExport { name: name_owned });
            },
        };
        if !args_match_types(params, args) {
            return Err(InvokeError::SignatureMismatch);
        }
        let mut session = match interp::session_new(self, self.registry.clone()) {
            Ok(s) => s,
            Err(e) => {
                return Err(e);
            },
        };
        let want_ret = results.len() == 1;
        match interp::session_call(&mut session, name, args, want_ret) {
            Ok(Some(v)) => {
                if results.len() == 1 && v.ty() == results[0] {
                    Ok(Some(v))
                } else {
                    Err(InvokeError::Engine)
                }
            },
            Ok(None) => Ok(None),
            Err(e) => Err(e),
        }
    }

    /// Invokes the guest's `mul` export on two 32-bit integers; the guest
    /// routes the pair through the imported host function.
    pub fn exec_test_fn_mul(&self, a: i32, b: i32) -> (r: Result<Option<Value>, InvokeError>)
        requires
            self.wf(),
        ensures
            self.invoke_post("mul"@, seq![Value::I32(a), Value::I32(b)], r),
    {
        let mut args: Vec<Value> = Vec::new();
        args.push(Value::I32(a));
        args.push(Value::I32(b));
        proof {
            assert(args@ =~= seq![Value::I32(a), Value::I32(b)]);
        }
        self.invoke("mul", &args)
    }

    /// Invokes the guest's conventional entry export, `fil_start`, which
    /// takes no arguments.
    pub fn start(&self) -> (r: Result<Option<Value>, InvokeError>)
        requires
            self.wf(),
        ensures
            self.invoke_post("fil_start"@, Seq::empty(), r),
    {
        let args: Vec<Value> = Vec::new();
        proof {
            assert(args@ =~= Seq::<Value>::empty());
        }
        self.invoke("fil_start", &args)
    }
}

/// Builds the registry of built-in host functions: a single entry binding
/// `env.fil_mul` to the host's multiplication.
pub fn load_global_builtins() -> (r: Global<FilMulHost>)
    ensures
        r.wf(),
        r.entries().len() == 1,
        r.entries()[0].named("env"@, "fil_mul"@),
        r.entries()[0].params@ == seq![ValueType::I32, ValueType::I32],
        r.entries()[0].ret == Some(ValueType::I32),
        r.entries()[0].func == FilMulHost,
{
    let mut global: Global<FilMulHost> = Global::new();
    let mut params: Vec<ValueType> = Vec::new();
    params.push(ValueType::I32);
    params.push(ValueType::I32);
    proof {
        assert(params@ =~= seq![ValueType::I32, ValueType::I32]);
    }
    let added = global.add_func("env", "fil_mul", params, Some(ValueType::I32), FilMulHost);
    proof {
        assert(added is Ok);
    }
    global
}


} // verus!
