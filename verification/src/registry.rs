//! The host function registry.
//!
//! The registry maps a two-level namespace, `(module name, field name)`, to
//! host function entries, each carrying a declared signature, a synthetic
//! numeric id, and an executable implementation. The interpreter calls host
//! functions by id, so dispatch is an explicit, inspectable id-to-entry
//! lookup.

use vstd::prelude::*;

use crate::errors::{RegisterError, ResolutionError, TrapKind};
use crate::host::HostFunction;
use crate::module_info::{ImportDesc, ItemKind};
use crate::value::{Value, ValueType};

verus! {

/// Ids below and including this bound are reserved for the interpreter's own
/// function indices; registry ids start right above it.
pub const HOST_ID_BASE: u64 = 1000;

/// The most entries a registry accepts: a machine limit, not a policy. It
/// is exactly the point at which `HOST_ID_BASE + 1 + index` would leave the
/// machine's integer range, so every fresh pair below it registers.
pub const MAX_HOST_FUNCS: usize = usize::MAX - 1001;

/// The longest parameter list a registered signature may declare: the
/// interpreter's own bound on the parameter types a function type carries.
pub const MAX_HOST_FUNC_PARAMS: usize = 1000;

/// One registered host function.
#[derive(Clone)]
pub struct Entry<H> {
    pub module_name: String,
    pub func_name: String,
    pub params: Vec<ValueType>,
    pub ret: Option<ValueType>,
    pub id: u64,
    pub func: H,
}

impl<H> Entry<H> {
    /// Whether this entry is registered under the given pair.
    pub open spec fn named(&self, m: Seq<char>, f: Seq<char>) -> bool {
        self.module_name@ == m && self.func_name@ == f
    }
}

/// The registry of host functions, a process-wide, append-only configuration
/// table built once at startup and read-only afterwards.
#[derive(Clone)]
pub struct Global<H> {
    funcs: Vec<Entry<H>>,
}

/// The declared shape of a host result, held against what an implementation
/// actually returned: a result is passed through only when it is exactly the
/// declared shape, otherwise the call fails with a signature trap.
pub open spec fn shape_checked(
    res: Result<Option<Value>, TrapKind>,
    ret: Option<ValueType>,
) -> Result<Option<Value>, TrapKind> {
    match res {
        Err(k) => Err(k),
        Ok(out) => match (out, ret) {
            (Some(v), Some(t)) => if v.spec_ty() == t {
                Ok(Some(v))
            } else {
                Err(TrapKind::BadSignature)
            },
            (None, None) => Ok(None),
            _ => Err(TrapKind::BadSignature),
        },
    }
}

/// Whether an entry's declared signature agrees with an imported function
/// signature: same parameter types, and the entry's optional return type
/// written as a result list of length zero or one.
pub open spec fn sig_matches<H>(e: Entry<H>, params: Seq<ValueType>, results: Seq<ValueType>) -> bool {
    &&& e.params@ == params
    &&& match e.ret {
        None => results.len() == 0,
        Some(t) => results.len() == 1 && results[0] == t,
    }
}

impl<H: HostFunction> Global<H> {
    /// The registered entries, in registration order.
    pub closed spec fn entries(&self) -> Seq<Entry<H>> {
        self.funcs@
    }

    /// Whether some entry is registered under the pair.
    pub open spec fn spec_contains(&self, m: Seq<char>, f: Seq<char>) -> bool {
        exists|i: int|
            0 <= i < self.entries().len() && (#[trigger] self.entries()[i]).named(m, f)
    }

    /// The registry invariant: pairs are unique, and ids are unique and
    /// assigned consecutively starting right above the reserved range.
    pub open spec fn wf(&self) -> bool {
        &&& self.entries().len() <= MAX_HOST_FUNCS
        &&& forall|i: int, j: int|
            0 <= i < j < self.entries().len() ==> !(#[trigger] self.entries()[i]).named(
                (#[trigger] self.entries()[j]).module_name@,
                self.entries()[j].func_name@,
            )
        &&& forall|i: int|
            0 <= i < self.entries().len() ==> (#[trigger] self.entries()[i]).id == HOST_ID_BASE
                + 1 + i
        &&& forall|i: int|
            0 <= i < self.entries().len() ==> (#[trigger] self.entries()[i]).params@.len()
                <= MAX_HOST_FUNC_PARAMS
    }

    /// Creates an empty registry.
    pub fn new() -> (r: Self)
        ensures
            r.entries().len() == 0,
            r.wf(),
    {
        Global { funcs: Vec::new() }
    }

    /// Adds an entry under `(module_name, func_name)` with the declared
    /// signature and the given implementation, and returns its fresh id:
    /// every fresh pair registers, up to the machine limits. Fails, leaving
    /// the registry unchanged, if the pair is already registered, if the
    /// parameter list is longer than the interpreter's function types can
    /// carry, or if the next id would leave the machine's integer range.
    pub fn add_func(
        &mut self,
        module_name: &str,
        func_name: &str,
        func_params: Vec<ValueType>,
        func_ret: Option<ValueType>,
        func: H,
    ) -> (r: Result<u64, RegisterError>)
        requires
            old(self).wf(),
        ensures
            final(self).wf(),
            old(self).spec_contains(module_name@, func_name@) ==> (r matches Err(
                RegisterError::Duplicate { module_name: m2, field_name: f2 },
            ) && m2@ == module_name@ && f2@ == func_name@ && *final(self) == *old(self)),
            (!old(self).spec_contains(module_name@, func_name@) && func_params@.len()
                > MAX_HOST_FUNC_PARAMS) ==> (r == Err::<u64, RegisterError>(
                RegisterError::TooManyParams,
            ) && *final(self) == *old(self)),
            (!old(self).spec_contains(module_name@, func_name@) && func_params@.len()
                <= MAX_HOST_FUNC_PARAMS && old(self).entries().len() == MAX_HOST_FUNCS) ==> (r
                == Err::<u64, RegisterError>(RegisterError::CapacityExceeded) && *final(self)
                == *old(self)),
            (!old(self).spec_contains(module_name@, func_name@) && func_params@.len()
                <= MAX_HOST_FUNC_PARAMS && old(self).entries().len() < MAX_HOST_FUNCS) ==> (r
                matches Ok(id) && ({
                let e = final(self).entries().last();
                &&& final(self).entries().len() == old(self).entries().len() + 1
                &&& forall|k: int|
                    0 <= k < old(self).entries().len() ==> final(self).entries()[k] == old(
                        self,
                    ).entries()[k]
                &&& e.named(module_name@, func_name@)
                &&& e.params@ == func_params@
                &&& e.ret == func_ret
                &&& e.func == func
                &&& e.id == id
                &&& id == HOST_ID_BASE + 1 + old(self).entries().len()
            })),
    {
        let m = module_name.to_owned();
        let f = func_name.to_owned();
        let n = self.funcs.len();
        let mut i: usize = 0;
        while i < n
            invariant
                *self == *old(self),
                old(self).wf(),
                n == self.funcs.len(),
                0 <= i <= n,
                m@ == module_name@,
                f@ == func_name@,
                forall|k: int|
                    0 <= k < i ==> !(#[trigger] self.funcs@[k]).named(module_name@, func_name@),
            decreases n - i,
        {
            if self.funcs[i].module_name == m && self.funcs[i].func_name == f {
                return Err(RegisterError::Duplicate { module_name: m, field_name: f });
            }
            i = i + 1;
        }
        if func_params.len() > MAX_HOST_FUNC_PARAMS {
            return Err(RegisterError::TooManyParams);
        }
        if self.funcs.len() >= MAX_HOST_FUNCS {
            return Err(RegisterError::CapacityExceeded);
        }
        let id: u64 = HOST_ID_BASE + 1 + (self.funcs.len() as u64);
        self.funcs.push(
            Entry {
                module_name: m,
                func_name: f,
                params: func_params,
                ret: func_ret,
                id,
                func,
            },
        );
        Ok(id)
    }

    /// Looks an entry up by pair, for binding one function import. Fails
    /// with `Unresolved`, naming the pair, when nothing is registered under
    /// it.
    pub fn resolve_func(&self, module_name: &str, field_name: &str) -> (r: Result<
        &Entry<H>,
        ResolutionError,
    >)
        ensures
            match r {
                Ok(e) => e.named(module_name@, field_name@) && exists|i: int|
                    0 <= i < self.entries().len() && *e == #[trigger] self.entries()[i],
                Err(err) => !self.spec_contains(module_name@, field_name@) && (err matches ResolutionError::Unresolved {
                    module_name: m2,
                    field_name: f2,
                } && m2@ == module_name@ && f2@ == field_name@),
            },
    {
        let m = module_name.to_owned();
        let f = field_name.to_owned();
        let n = self.funcs.len();
        let mut i: usize = 0;
        while i < n
            invariant
                n == self.funcs.len(),
                0 <= i <= n,
                m@ == module_name@,
                f@ == field_name@,
                forall|k: int|
                    0 <= k < i ==> !(#[trigger] self.funcs@[k]).named(module_name@, field_name@),
            decreases n - i,
        {
            if self.funcs[i].module_name == m && self.funcs[i].func_name == f {
                let e = &self.funcs[i];
                proof {
                    assert(*e == self.entries()[i as int]);
                }
                return Ok(e);
            }
            i = i + 1;
        }
        Err(ResolutionError::Unresolved { module_name: m, field_name: f })
    }

    /// What, if anything, is wrong with binding one import against this
    /// registry: the import must be a numeric function import, some entry
    /// must be registered under its pair, and that entry's declared
    /// signature must agree with the imported one.
    pub open spec fn import_fault(&self, imp: ImportDesc) -> Option<ResolutionError> {
        match imp.kind {
            ItemKind::Func { params, results } => if !self.spec_contains(
                imp.module_name@,
                imp.field_name@,
            ) {
                Some(
                    ResolutionError::Unresolved {
                        module_name: imp.module_name,
                        field_name: imp.field_name,
                    },
                )
            } else if exists|i: int|
                0 <= i < self.entries().len() && (#[trigger] self.entries()[i]).named(
                    imp.module_name@,
                    imp.field_name@,
                ) && sig_matches(self.entries()[i], params@, results@) {
                None
            } else {
                Some(
                    ResolutionError::SignatureMismatch {
                        module_name: imp.module_name,
                        field_name: imp.field_name,
                    },
                )
            },
            ItemKind::FuncNonNumeric => Some(
                ResolutionError::SignatureMismatch {
                    module_name: imp.module_name,
                    field_name: imp.field_name,
                },
            ),
            _ => Some(
                ResolutionError::UnsupportedKind {
                    module_name: imp.module_name,
                    field_name: imp.field_name,
                },
            ),
        }
    }

    /// Checks that every import in the list can be bound against this
    /// registry, in order, and reports the first one that cannot, naming
    /// its pair. Instantiation proceeds only on `Ok`.
    pub fn check_imports(&self, imports: &Vec<ImportDesc>) -> (r: Result<(), ResolutionError>)
        requires
            self.wf(),
        ensures
            match r {
                Ok(()) => forall|i: int|
                    0 <= i < imports@.len() ==> self.import_fault(#[trigger] imports@[i]) is None,
                Err(e) => exists|i: int|
                    {
                        &&& 0 <= i < imports@.len()
                        &&& forall|k: int|
                            0 <= k < i ==> self.import_fault(#[trigger] imports@[k]) is None
                        &&& self.import_fault(#[trigger] imports@[i]) == Some(e)
                    },
            },
    {
        let n = imports.len();
        let mut j: usize = 0;
        while j < n
            invariant
                self.wf(),
                n == imports.len(),
                0 <= j <= n,
                forall|k: int|
                    0 <= k < j ==> self.import_fault(#[trigger] imports@[k]) is None,
            decreases n - j,
        {
            let imp = &imports[j];
            match &imp.kind {
                ItemKind::Func { params, results } => {
                    match self.resolve_func(imp.module_name.as_str(), imp.field_name.as_str()) {
                        Err(_) => {
                            return Err(
                                ResolutionError::Unresolved {
                                    module_name: imp.module_name.clone(),
                                    field_name: imp.field_name.clone(),
                                },
                            );
                        },
                        Ok(e) => {
                            let ok_params = crate::value::value_types_eq(&e.params, params);
                            let ok_ret = match &e.ret {
                                None => results.len() == 0,
                                Some(t) => results.len() == 1 && results[0] == *t,
                            };
                            if !(ok_params && ok_ret) {
                                proof {
                                    self.lemma_no_other_named(*e, imp.module_name@, imp.field_name@);
                                }
                                return Err(
                                    ResolutionError::SignatureMismatch {
                                        module_name: imp.module_name.clone(),
                                        field_name: imp.field_name.clone(),
                                    },
                                );
                            }
                        },
                    }
                },
                ItemKind::FuncNonNumeric => {
                    return Err(
                        ResolutionError::SignatureMismatch {
                            module_name: imp.module_name.clone(),
                            field_name: imp.field_name.clone(),
                        },
                    );
                },
                _ => {
                    return Err(
                        ResolutionError::UnsupportedKind {
                            module_name: imp.module_name.clone(),
                            field_name: imp.field_name.clone(),
                        },
                    );
                },
            }
            j = j + 1;
        }
        Ok(())
    }

    /// The number of registered entries.
    pub fn num_funcs(&self) -> (n: usize)
        ensures
            n == self.entries().len(),
    {
        self.funcs.len()
    }

    /// The entry at a registration index.
    pub fn func_at(&self, i: usize) -> (e: &Entry<H>)
        requires
            i < self.entries().len(),
        ensures
            *e == self.entries()[i as int],
    {
        &self.funcs[i]
    }

    /// Under the registry invariant, the entry found for a pair is the only
    /// entry registered under that pair.
    proof fn lemma_no_other_named(&self, e: Entry<H>, m: Seq<char>, f: Seq<char>)
        requires
            self.wf(),
            e.named(m, f),
            exists|i: int| 0 <= i < self.entries().len() && e == #[trigger] self.entries()[i],
        ensures
            forall|i: int|
                0 <= i < self.entries().len() && (#[trigger] self.entries()[i]).named(m, f)
                    ==> self.entries()[i] == e,
    {
        let i0 = choose|i0: int| 0 <= i0 < self.entries().len() && e == #[trigger] self.entries()[i0];
        assert forall|i: int|
            0 <= i < self.entries().len() && (#[trigger] self.entries()[i]).named(m, f)
                implies self.entries()[i] == e by {
            if i < i0 {
                assert(!self.entries()[i].named(
                    self.entries()[i0].module_name@,
                    self.entries()[i0].func_name@,
                ));
            } else if i0 < i {
                assert(!self.entries()[i0].named(
                    self.entries()[i].module_name@,
                    self.entries()[i].func_name@,
                ));
            }
        }
    }

    /// Dispatches a host callback by id, as the interpreter does when guest
    /// code calls an imported function: the entry's implementation runs on
    /// the arguments and its result is held against the entry's declared
    /// return type. An id no entry carries fails with an unreachable trap
    /// instead of touching host state.
    pub fn host_fn_call(&self, func_id: u64, args: &Vec<Value>) -> (r: Result<
        Option<Value>,
        TrapKind,
    >)
        ensures
            (forall|i: int|
                0 <= i < self.entries().len() ==> (#[trigger] self.entries()[i]).id != func_id)
                ==> r == Err::<Option<Value>, TrapKind>(TrapKind::Unreachable),
            (exists|i: int|
                0 <= i < self.entries().len() && (#[trigger] self.entries()[i]).id == func_id)
                ==> exists|i: int|
                {
                    &&& 0 <= i < self.entries().len()
                    &&& (#[trigger] self.entries()[i]).id == func_id
                    &&& forall|k: int| 0 <= k < i ==> (#[trigger] self.entries()[k]).id != func_id
                    &&& r == shape_checked(
                        self.entries()[i].func.host_spec(args@),
                        self.entries()[i].ret,
                    )
                },
    {
        let n = self.funcs.len();
        let mut i: usize = 0;
        while i < n
            invariant
                n == self.funcs.len(),
                0 <= i <= n,
                forall|k: int| 0 <= k < i ==> (#[trigger] self.funcs@[k]).id != func_id,
            decreases n - i,
        {
            if self.funcs[i].id == func_id {
                let out = self.funcs[i].func.call_host(args);
                return match (out, &self.funcs[i].ret) {
                    (Err(k), _) => Err(k),
                    (Ok(Some(v)), Some(t)) => if v.ty() == *t {
                        Ok(Some(v))
                    } else {
                        Err(TrapKind::BadSignature)
                    },
                    (Ok(None), None) => Ok(None),
                    _ => Err(TrapKind::BadSignature),
                };
            }
            i = i + 1;
        }
        Err(TrapKind::Unreachable)
    }
}

} // verus!
