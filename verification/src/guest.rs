//! Reference semantics of the guest module's exports.
//!
//! The guest is shipped as a WebAssembly binary; these functions state, as
//! verified host code, what its exports compute when its one import,
//! `env.fil_mul`, is bound to [`crate::builtins::fil_mul`].

use vstd::prelude::*;

use crate::errors::TrapKind;
use crate::host::HostFunction;
use crate::value::Value;

verus! {

/// The guest's `add` export: 32-bit signed addition.
pub fn add(a: i32, b: i32) -> (r: i32)
    requires
        i32::MIN <= a + b <= i32::MAX,
    ensures
        r == a + b,
{
    a + b
}

/// The guest's `mul` export. The guest does not multiply itself: it routes
/// both operands through the imported host function `env.fil_mul`.
pub fn mul(a: u32, b: u32) -> (r: u32)
    ensures
        r == crate::builtins::spec_fil_mul(a, b),
{
    crate::builtins::fil_mul(a, b)
}

/// The guest's `mul` export relative to an arbitrary binding of its one
/// import: both operands are handed to the bound function unchanged, as
/// 32-bit values, in one call, and its result is returned unchanged — the
/// guest performs no arithmetic of its own here. [`mul`] is this with the
/// import bound to the host's multiplication.
pub fn mul_with<H: HostFunction>(h: &H, a: i32, b: i32) -> (r: Result<Option<Value>, TrapKind>)
    ensures
        r == h.host_spec(seq![Value::I32(a), Value::I32(b)]),
{
    let mut args: Vec<Value> = Vec::new();
    args.push(Value::I32(a));
    args.push(Value::I32(b));
    proof {
        assert(args@ =~= seq![Value::I32(a), Value::I32(b)]);
    }
    h.call_host(&args)
}

/// The guest's entry computation relative to an arbitrary binding of its
/// import: whatever function stands for `fil_mul` is called exactly once,
/// with the operands `10` and `add(10, 20)`, and its result is the entry's
/// result. [`fil_start`] is this with the import bound to the host's
/// multiplication, which makes the result `300`.
pub fn fil_start_with<H: HostFunction>(h: &H) -> (r: Result<Option<Value>, TrapKind>)
    ensures
        r == h.host_spec(seq![Value::I32(10), Value::I32(30)]),
{
    let a: i32 = 10;
    let b: i32 = 20;
    let s = crate::guest::add(a, b);
    crate::guest::mul_with(h, 10, s)
}

/// The guest's `fil_start` entry export: `mul(10, add(10, 20))`, which with
/// the host's multiplication bound to `env.fil_mul` evaluates to `300`.
pub fn fil_start() -> (r: u32)
    ensures
        r == crate::builtins::spec_fil_mul(10, (10 + 20) as u32),
        r == 300,
{
    let a: i32 = 10;
    let b: i32 = 20;
    let s = crate::guest::add(a, b);
    crate::guest::mul(10, s as u32)
}

} // verus!
