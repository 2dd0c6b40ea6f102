//! A small harness for embedding a WebAssembly interpreter in a host process.
//!
//! A guest module exports arithmetic functions and imports one host function;
//! the harness keeps a registry of host functions keyed by
//! `(module name, field name)`, binds a loaded module's imports against that
//! registry, and invokes named exports with typed arguments.

pub mod builtins;
pub mod errors;
pub mod guest;
pub mod host;
pub mod interp;
pub mod module_info;
pub mod registry;
pub mod sections;
pub mod value;
pub mod vm;
