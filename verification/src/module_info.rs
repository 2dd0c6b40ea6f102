//! Plain descriptions of a loaded module's imports and exports.
//!
//! The interpreter reports each imported and exported item once, at load
//! time; the harness keeps them as plain data so that import resolution and
//! export lookup are ordinary verified code.

use vstd::prelude::*;

use crate::value::ValueType;

verus! {

/// The shape of one imported or exported item.
#[derive(Clone, Debug)]
pub enum ItemKind {
    /// A function whose parameters and results are all numeric. The
    /// interpreter allows several results; this harness invokes only
    /// functions with at most one, and refuses the rest when asked.
    Func { params: Vec<ValueType>, results: Vec<ValueType> },
    /// A function whose signature mentions a non-numeric type (a vector or
    /// a reference type); outside this harness's surface.
    FuncNonNumeric,
    /// A global variable.
    GlobalVar,
    /// A linear memory.
    Memory,
    /// A table.
    Table,
}

/// One import a module declares: the `(module name, field name)` pair it
/// must be bound under, and the item's shape.
#[derive(Clone, Debug)]
pub struct ImportDesc {
    pub module_name: String,
    pub field_name: String,
    pub kind: ItemKind,
}

/// One export a module offers: its name and the item's shape.
#[derive(Clone, Debug)]
pub struct ExportDesc {
    pub name: String,
    pub kind: ItemKind,
}

} // verus!
