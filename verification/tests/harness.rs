//! End-to-end tests running hand-assembled guest binaries through the
//! harness, with the real interpreter linked.

use std::cell::Cell;
use std::rc::Rc;

use filvm::errors::{InvokeError, LoadError, RegisterError, ResolutionError, TrapKind};
use filvm::host::{FilMulHost, HostFunction};
use filvm::registry::Global;
use filvm::value::{Value, ValueType};
use filvm::vm::{load_global_builtins, Vm};

/// The guest module: exports `add`, `mul` and `fil_start`, imports
/// `env.fil_mul`. `add` adds its operands itself; `mul` just calls the
/// import; `fil_start` computes `mul(10, add(10, 20))`.
fn guest_wasm() -> Vec<u8> {
    vec![
        // header
        0x00, 0x61, 0x73, 0x6D, 0x01, 0x00, 0x00, 0x00,
        // type section: (i32,i32)->i32 and ()->i32
        0x01, 0x0B, 0x02, 0x60, 0x02, 0x7F, 0x7F, 0x01, 0x7F, 0x60, 0x00, 0x01, 0x7F,
        // import section: func "env"."fil_mul" of type 0
        0x02, 0x0F, 0x01, 0x03, 0x65, 0x6E, 0x76, 0x07, 0x66, 0x69, 0x6C, 0x5F, 0x6D, 0x75,
        0x6C, 0x00, 0x00,
        // function section: add, mul of type 0; fil_start of type 1
        0x03, 0x04, 0x03, 0x00, 0x00, 0x01,
        // export section: "add", "mul", "fil_start"
        0x07, 0x19, 0x03, 0x03, 0x61, 0x64, 0x64, 0x00, 0x01, 0x03, 0x6D, 0x75, 0x6C, 0x00,
        0x02, 0x09, 0x66, 0x69, 0x6C, 0x5F, 0x73, 0x74, 0x61, 0x72, 0x74, 0x00, 0x03,
        // code section
        0x0A, 0x1F, 0x03,
        // add: local.get 0; local.get 1; i32.add
        0x07, 0x00, 0x20, 0x00, 0x20, 0x01, 0x6A, 0x0B,
        // mul: local.get 0; local.get 1; call $fil_mul
        0x08, 0x00, 0x20, 0x00, 0x20, 0x01, 0x10, 0x00, 0x0B,
        // fil_start: i32.const 10; i32.const 10; i32.const 20; call add; call mul
        0x0C, 0x00, 0x41, 0x0A, 0x41, 0x0A, 0x41, 0x14, 0x10, 0x01, 0x10, 0x02, 0x0B,
    ]
}

/// A module that imports a linear memory (`env.mem`) and exports a `noop`
/// function, to exercise the unsupported-import-kind path.
fn memory_import_wasm() -> Vec<u8> {
    vec![
        0x00, 0x61, 0x73, 0x6D, 0x01, 0x00, 0x00, 0x00,
        // type section: ()->()
        0x01, 0x04, 0x01, 0x60, 0x00, 0x00,
        // import section: memory "env"."mem", min 1 page
        0x02, 0x0C, 0x01, 0x03, 0x65, 0x6E, 0x76, 0x03, 0x6D, 0x65, 0x6D, 0x02, 0x00, 0x01,
        // function section
        0x03, 0x02, 0x01, 0x00,
        // export section: "noop"
        0x07, 0x08, 0x01, 0x04, 0x6E, 0x6F, 0x6F, 0x70, 0x00, 0x00,
        // code section: empty body
        0x0A, 0x04, 0x01, 0x02, 0x00, 0x0B,
    ]
}

/// A module that defines and exports a linear memory under the name `mem`.
fn memory_export_wasm() -> Vec<u8> {
    vec![
        0x00, 0x61, 0x73, 0x6D, 0x01, 0x00, 0x00, 0x00,
        // memory section: one memory, min 1 page
        0x05, 0x03, 0x01, 0x00, 0x01,
        // export section: "mem"
        0x07, 0x07, 0x01, 0x03, 0x6D, 0x65, 0x6D, 0x02, 0x00,
    ]
}

/// A module exporting `div`, a signed 32-bit division of its operands.
fn div_wasm() -> Vec<u8> {
    vec![
        0x00, 0x61, 0x73, 0x6D, 0x01, 0x00, 0x00, 0x00,
        0x01, 0x07, 0x01, 0x60, 0x02, 0x7F, 0x7F, 0x01, 0x7F,
        0x03, 0x02, 0x01, 0x00,
        0x07, 0x07, 0x01, 0x03, 0x64, 0x69, 0x76, 0x00, 0x00,
        0x0A, 0x09, 0x01, 0x07, 0x00, 0x20, 0x00, 0x20, 0x01, 0x6D, 0x0B,
    ]
}

/// A module that declares its own start function (an empty body).
fn start_section_wasm() -> Vec<u8> {
    vec![
        0x00, 0x61, 0x73, 0x6D, 0x01, 0x00, 0x00, 0x00,
        // type section: ()->()
        0x01, 0x04, 0x01, 0x60, 0x00, 0x00,
        // function section
        0x03, 0x02, 0x01, 0x00,
        // start section: function 0
        0x08, 0x01, 0x00,
        // code section: empty body
        0x0A, 0x04, 0x01, 0x02, 0x00, 0x0B,
    ]
}

/// A module exporting `boom`, whose body is a single `unreachable`.
fn trap_wasm() -> Vec<u8> {
    vec![
        0x00, 0x61, 0x73, 0x6D, 0x01, 0x00, 0x00, 0x00,
        0x01, 0x04, 0x01, 0x60, 0x00, 0x00,
        0x03, 0x02, 0x01, 0x00,
        0x07, 0x08, 0x01, 0x04, 0x62, 0x6F, 0x6F, 0x6D, 0x00, 0x00,
        0x0A, 0x05, 0x01, 0x03, 0x00, 0x00, 0x0B,
    ]
}

/// A host implementation that counts how often it is called and adds its
/// operands instead of multiplying, so a result can only come from the
/// callback, not from guest-side arithmetic.
#[derive(Clone)]
struct CountingAddHost {
    hits: Rc<Cell<u32>>,
}

impl HostFunction for CountingAddHost {
    fn call_host(&self, args: &Vec<Value>) -> Result<Option<Value>, TrapKind> {
        self.hits.set(self.hits.get() + 1);
        match (args.get(0), args.get(1)) {
            (Some(Value::I32(a)), Some(Value::I32(b))) if args.len() == 2 => {
                Ok(Some(Value::I32(a.wrapping_add(*b))))
            }
            _ => Err(TrapKind::BadSignature),
        }
    }
}

fn counting_registry(hits: &Rc<Cell<u32>>) -> Global<CountingAddHost> {
    let mut g = Global::new();
    let added = g.add_func(
        "env",
        "fil_mul",
        vec![ValueType::I32, ValueType::I32],
        Some(ValueType::I32),
        CountingAddHost { hits: hits.clone() },
    );
    assert!(added.is_ok());
    g
}

#[test]
fn mul_routes_through_host_callback() {
    let vm = Vm::new(load_global_builtins(), &guest_wasm()).unwrap();
    assert_eq!(vm.exec_test_fn_mul(10, 3), Ok(Some(Value::I32(30))));
}

#[test]
fn fil_start_computes_300() {
    let vm = Vm::new(load_global_builtins(), &guest_wasm()).unwrap();
    assert_eq!(vm.start(), Ok(Some(Value::I32(300))));
}

#[test]
fn add_export_runs_without_host_help() {
    let vm = Vm::new(load_global_builtins(), &guest_wasm()).unwrap();
    let r = vm.invoke("add", &vec![Value::I32(10), Value::I32(20)]);
    assert_eq!(r, Ok(Some(Value::I32(30))));
}

#[test]
fn host_callback_is_what_runs() {
    // With the import bound to addition instead of multiplication, `mul`
    // returns the sum: the guest's `mul` body performs no arithmetic of
    // its own.
    let hits = Rc::new(Cell::new(0));
    let vm = Vm::new(counting_registry(&hits), &guest_wasm()).unwrap();
    assert_eq!(vm.exec_test_fn_mul(10, 3), Ok(Some(Value::I32(13))));
    assert_eq!(hits.get(), 1);
}

#[test]
fn register_duplicate_pair_fails() {
    let mut g = load_global_builtins();
    let r = g.add_func(
        "env",
        "fil_mul",
        vec![ValueType::I32, ValueType::I32],
        Some(ValueType::I32),
        FilMulHost,
    );
    assert_eq!(
        r,
        Err(RegisterError::Duplicate {
            module_name: "env".to_string(),
            field_name: "fil_mul".to_string(),
        })
    );
}

#[test]
fn register_distinct_pairs_get_distinct_ids() {
    let mut g: Global<FilMulHost> = Global::new();
    let a = g.add_func("env", "one", vec![], None, FilMulHost).unwrap();
    let b = g.add_func("env", "two", vec![], None, FilMulHost).unwrap();
    assert_ne!(a, b);
    assert!(a > 1000 && b > 1000);
}

#[test]
fn unregistered_import_aborts_instantiation() {
    let empty: Global<FilMulHost> = Global::new();
    let vm = Vm::new(empty, &guest_wasm()).unwrap();
    let r = vm.invoke("mul", &vec![Value::I32(10), Value::I32(3)]);
    assert_eq!(
        r,
        Err(InvokeError::Resolution(ResolutionError::Unresolved {
            module_name: "env".to_string(),
            field_name: "fil_mul".to_string(),
        }))
    );
}

#[test]
fn import_signature_mismatch_aborts_instantiation() {
    // Registered under the right pair, but with the wrong declared
    // signature.
    let mut g: Global<FilMulHost> = Global::new();
    g.add_func("env", "fil_mul", vec![ValueType::I64], None, FilMulHost)
        .unwrap();
    let vm = Vm::new(g, &guest_wasm()).unwrap();
    let r = vm.invoke("mul", &vec![Value::I32(10), Value::I32(3)]);
    assert_eq!(
        r,
        Err(InvokeError::Resolution(ResolutionError::SignatureMismatch {
            module_name: "env".to_string(),
            field_name: "fil_mul".to_string(),
        }))
    );
}

#[test]
fn unsupported_import_kind_aborts_instantiation() {
    let vm = Vm::new(load_global_builtins(), &memory_import_wasm()).unwrap();
    let r = vm.invoke("noop", &vec![]);
    assert_eq!(
        r,
        Err(InvokeError::Resolution(ResolutionError::UnsupportedKind {
            module_name: "env".to_string(),
            field_name: "mem".to_string(),
        }))
    );
}

#[test]
fn missing_export_runs_no_guest_code() {
    let hits = Rc::new(Cell::new(0));
    let vm = Vm::new(counting_registry(&hits), &guest_wasm()).unwrap();
    let r = vm.invoke("nope", &vec![]);
    assert_eq!(
        r,
        Err(InvokeError::ExportNotFound {
            name: "nope".to_string()
        })
    );
    assert_eq!(hits.get(), 0);
}

#[test]
fn wrong_argument_count_is_rejected() {
    let vm = Vm::new(load_global_builtins(), &guest_wasm()).unwrap();
    let r = vm.invoke("mul", &vec![Value::I32(10)]);
    assert_eq!(r, Err(InvokeError::SignatureMismatch));
}

#[test]
fn wrong_argument_tag_is_rejected() {
    let vm = Vm::new(load_global_builtins(), &guest_wasm()).unwrap();
    let r = vm.invoke("add", &vec![Value::I64(10), Value::I64(20)]);
    assert_eq!(r, Err(InvokeError::SignatureMismatch));
}

#[test]
fn malformed_binary_is_a_decode_error() {
    let r = Vm::new(load_global_builtins(), &[0x00, 0x61, 0x73]);
    assert!(matches!(r, Err(LoadError::Decode)));
}

#[test]
fn text_format_is_refused_at_load() {
    // Only the binary format is accepted: textual modules are a decode
    // failure, with or without a start function, so no start declaration
    // can slip past the binary section scan.
    let with_start = b"(module (func) (start 0))";
    assert!(matches!(
        Vm::new(load_global_builtins(), with_start),
        Err(LoadError::Decode)
    ));
    let plain = b"(module)";
    assert!(matches!(
        Vm::new(load_global_builtins(), plain),
        Err(LoadError::Decode)
    ));
}

#[test]
fn resolution_failure_precedes_export_lookup() {
    // With an unbindable import, even a request for a missing export
    // reports the resolution error: imports are bound before anything is
    // looked up in the instance.
    let empty: Global<FilMulHost> = Global::new();
    let vm = Vm::new(empty, &guest_wasm()).unwrap();
    let r = vm.invoke("nope", &vec![]);
    assert_eq!(
        r,
        Err(InvokeError::Resolution(ResolutionError::Unresolved {
            module_name: "env".to_string(),
            field_name: "fil_mul".to_string(),
        }))
    );
}

#[test]
fn module_with_start_function_is_refused_at_load() {
    let r = Vm::new(load_global_builtins(), &start_section_wasm());
    assert!(matches!(r, Err(LoadError::StartFunction)));
}

#[test]
fn entry_computation_follows_any_bound_import() {
    // fil_start relative to an arbitrary import binding: with addition
    // bound instead of multiplication, the entry yields 10 + 30.
    let hits = Rc::new(Cell::new(0));
    let host = CountingAddHost { hits: hits.clone() };
    assert_eq!(
        filvm::guest::fil_start_with(&host),
        Ok(Some(Value::I32(40)))
    );
    assert_eq!(hits.get(), 1);
}

#[test]
fn unreachable_guest_code_traps() {
    let vm = Vm::new(load_global_builtins(), &trap_wasm()).unwrap();
    let r = vm.invoke("boom", &vec![]);
    assert_eq!(r, Err(InvokeError::Trap(TrapKind::Unreachable)));
}

#[test]
fn every_fresh_pair_registers() {
    let mut g: Global<FilMulHost> = Global::new();
    for i in 0..4096u32 {
        let name = format!("f{}", i);
        assert!(g.add_func("env", &name, vec![], None, FilMulHost).is_ok());
    }
}

#[test]
fn oversized_parameter_list_is_refused() {
    let mut g: Global<FilMulHost> = Global::new();
    let r = g.add_func(
        "env",
        "wide",
        vec![ValueType::I32; 1001],
        Some(ValueType::I32),
        FilMulHost,
    );
    assert_eq!(r, Err(RegisterError::TooManyParams));
    let ok = g.add_func(
        "env",
        "wide",
        vec![ValueType::I32; 1000],
        Some(ValueType::I32),
        FilMulHost,
    );
    assert!(ok.is_ok());
}

#[test]
fn non_function_export_is_refused_unrun() {
    let vm = Vm::new(load_global_builtins(), &memory_export_wasm()).unwrap();
    let r = vm.invoke("mem", &vec![]);
    assert_eq!(
        r,
        Err(InvokeError::UnsupportedExport {
            name: "mem".to_string()
        })
    );
}

#[test]
fn division_by_zero_traps() {
    let vm = Vm::new(load_global_builtins(), &div_wasm()).unwrap();
    let r = vm.invoke("div", &vec![Value::I32(7), Value::I32(0)]);
    assert_eq!(r, Err(InvokeError::Trap(TrapKind::IntegerDivisionByZero)));
    let ok = vm.invoke("div", &vec![Value::I32(7), Value::I32(2)]);
    assert_eq!(ok, Ok(Some(Value::I32(3))));
}

#[test]
fn dispatch_by_id_reaches_the_entry() {
    let g = load_global_builtins();
    let args = vec![Value::I32(10), Value::I32(3)];
    assert_eq!(g.host_fn_call(1001, &args), Ok(Some(Value::I32(30))));
}

#[test]
fn dispatch_with_unknown_id_traps_unreachable() {
    let g = load_global_builtins();
    let args = vec![Value::I32(10), Value::I32(3)];
    assert_eq!(g.host_fn_call(7, &args), Err(TrapKind::Unreachable));
}

#[test]
fn resolve_finds_registered_pair_only() {
    let g = load_global_builtins();
    assert!(g.resolve_func("env", "fil_mul").is_ok());
    match g.resolve_func("env", "fil_div") {
        Err(ResolutionError::Unresolved {
            module_name,
            field_name,
        }) => {
            assert_eq!(module_name, "env");
            assert_eq!(field_name, "fil_div");
        }
        _ => panic!("expected the pair to be unresolved"),
    }
}
