//! Error taxonomy of the harness.
//!
//! Decode errors come from loading a binary, resolution errors from binding
//! imports, invocation errors from calling an export, and traps from guest
//! execution. All are returned as typed results; none corrupts host state.

use vstd::prelude::*;

verus! {

/// A runtime fault during guest execution (or during a host callback).
/// Guest state after a trap is invalid; the instance is discarded, never
/// reused. The variants mirror the interpreter's trap codes.
#[derive(Clone, Copy, Debug, PartialEq, Eq, Structural)]
pub enum TrapKind {
    /// An `unreachable` instruction was executed, or a host callback was
    /// dispatched with an id that no registry entry carries.
    Unreachable,
    /// An out-of-bounds linear memory access.
    MemoryOutOfBounds,
    /// An out-of-bounds table access.
    TableOutOfBounds,
    /// An indirect call through an uninitialized table slot.
    IndirectCallToNull,
    /// An integer division by zero.
    IntegerDivisionByZero,
    /// An integer operation whose result is not representable.
    IntegerOverflow,
    /// An invalid conversion to an integer.
    BadConversionToInteger,
    /// Call stack exhaustion.
    StackOverflow,
    /// A call whose signature disagrees with the callee's, raised by an
    /// indirect call or by a host callback returning a value of the wrong
    /// shape for its declared signature.
    BadSignature,
    /// Execution exceeded a configured resource limit of the interpreter.
    ResourceExhausted,
}

/// Failure to add an entry to the host function registry. Registration
/// happens at startup, so either failure is a configuration error.
#[derive(Clone, Debug, PartialEq, Eq)]
pub enum RegisterError {
    /// The `(module name, field name)` pair is already registered.
    Duplicate { module_name: String, field_name: String },
    /// The declared parameter list is longer than what the interpreter's
    /// function types can carry.
    TooManyParams,
    /// The registry cannot assign another id without its arithmetic leaving
    /// the machine's integer range.
    CapacityExceeded,
}

/// Failure to satisfy one import of a module at instantiation time, reported
/// with the offending `(module name, field name)` pair.
#[derive(Clone, Debug, PartialEq, Eq)]
pub enum ResolutionError {
    /// No registry entry exists under the pair.
    Unresolved { module_name: String, field_name: String },
    /// The import is not a function import: only function imports are
    /// supported, so the module cannot be instantiated.
    UnsupportedKind { module_name: String, field_name: String },
    /// A registry entry exists but its declared signature disagrees with the
    /// signature the module imports under the pair.
    SignatureMismatch { module_name: String, field_name: String },
}

/// Failure to load a guest binary. No partial state is produced.
#[derive(Clone, Copy, Debug, PartialEq, Eq, Structural)]
pub enum LoadError {
    /// The bytes are not a well-formed, supported WebAssembly module.
    Decode,
    /// The module declares its own start function. This harness never runs
    /// guest code implicitly — an entry point is an ordinary export,
    /// invoked by name — so such a module is refused outright.
    StartFunction,
}

/// Failure of a single export invocation.
#[derive(Clone, Debug, PartialEq, Eq)]
pub enum InvokeError {
    /// No export of the requested name exists. Reported before any guest
    /// code executes.
    ExportNotFound { name: String },
    /// An export of the requested name exists but cannot be invoked by this
    /// harness: it is not a function, or its signature falls outside the
    /// numeric, at-most-one-result surface. Reported before any guest code
    /// executes.
    UnsupportedExport { name: String },
    /// The argument count or tags disagree with the export's declared
    /// parameter types. Reported before any guest code executes.
    SignatureMismatch,
    /// An import could not be bound against the registry; instantiation was
    /// aborted.
    Resolution(ResolutionError),
    /// Guest execution trapped.
    Trap(TrapKind),
    /// The interpreter reported a failure outside the cases above, for
    /// example an instantiation limit.
    Engine,
}

} // verus!
