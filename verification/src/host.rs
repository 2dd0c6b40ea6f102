//! Host functions callable from guest code.

use vstd::prelude::*;

use crate::errors::TrapKind;
use crate::value::Value;

verus! {

/// An executable host function implementation: it takes the argument values
/// the guest passed and produces a typed result, or fails with a trap.
///
/// Embedders implement this trait for whatever carries their host-side
/// behaviour and hand instances to the registry. `host_spec` states what the
/// implementation returns; `call_host` must return exactly that, so verified
/// callers can reason about dispatch.
pub trait HostFunction: Sized + Clone {
    /// What this host function returns for the given arguments. An
    /// implementation that does not say otherwise is specified to fail, so
    /// anything a verified caller learns of it must come from an override.
    open spec fn host_spec(&self, args: Seq<Value>) -> Result<Option<Value>, TrapKind> {
        Err(TrapKind::Unreachable)
    }

    /// Runs the host function on the given arguments.
    fn call_host(&self, args: &Vec<Value>) -> (r: Result<Option<Value>, TrapKind>)
        ensures
            r == self.host_spec(args@),
    ;
}

/// The host implementation registered under `env.fil_mul`: wrapping
/// multiplication of the two 32-bit operands, exactly what a guest-side
/// `i32.mul` would compute on the same bit patterns. Any argument list that
/// is not two 32-bit values fails with a signature trap.
#[derive(Clone, Copy, Debug)]
pub struct FilMulHost;

impl HostFunction for FilMulHost {
    open spec fn host_spec(&self, args: Seq<Value>) -> Result<Option<Value>, TrapKind> {
        if args.len() == 2 {
            match (args[0], args[1]) {
                (Value::I32(a), Value::I32(b)) => Ok(
                    Some(Value::I32(vstd::wrapping::i32_specs::wrapping_mul(a, b))),
                ),
                _ => Err(TrapKind::BadSignature),
            }
        } else {
            Err(TrapKind::BadSignature)
        }
    }

    fn call_host(&self, args: &Vec<Value>) -> (r: Result<Option<Value>, TrapKind>)
    {
        if args.len() == 2 {
            match (args[0], args[1]) {
                (Value::I32(a), Value::I32(b)) => Ok(Some(Value::I32(a.wrapping_mul(b)))),
                _ => Err(TrapKind::BadSignature),
            }
        } else {
            Err(TrapKind::BadSignature)
        }
    }
}

} // verus!
