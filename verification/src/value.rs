//! Typed values crossing the host/guest boundary.

use vstd::prelude::*;

verus! {

/// The numeric kinds that the interpreter supports at the host/guest
/// boundary: 32- and 64-bit integers and 32- and 64-bit floats.
#[derive(Clone, Copy, Debug, PartialEq, Eq, Structural)]
pub enum ValueType {
    I32,
    I64,
    F32,
    F64,
}

/// A tagged value of one of the kinds in [`ValueType`].
///
/// WebAssembly does not distinguish signed from unsigned integers: operations
/// interpret the bits as one or the other. Floats are carried as raw IEEE 754
/// bit patterns, so the harness itself performs no floating-point arithmetic.
#[derive(Clone, Copy, Debug, PartialEq, Eq, Structural)]
pub enum Value {
    I32(i32),
    I64(i64),
    F32Bits(u32),
    F64Bits(u64),
}

impl Value {
    /// The tag of this value.
    pub open spec fn spec_ty(&self) -> ValueType {
        match self {
            Value::I32(_) => ValueType::I32,
            Value::I64(_) => ValueType::I64,
            Value::F32Bits(_) => ValueType::F32,
            Value::F64Bits(_) => ValueType::F64,
        }
    }

    /// Returns the tag of this value.
    #[verifier::when_used_as_spec(spec_ty)]
    pub fn ty(&self) -> (t: ValueType)
        ensures
            t == self.spec_ty(),
    {
        match self {
            Value::I32(_) => ValueType::I32,
            Value::I64(_) => ValueType::I64,
            Value::F32Bits(_) => ValueType::F32,
            Value::F64Bits(_) => ValueType::F64,
        }
    }
}

/// Whether a list of argument values matches a list of declared parameter
/// types exactly: same count, and each value's tag equals the declared type.
/// No implicit coercion is ever applied.
pub open spec fn args_match(params: Seq<ValueType>, args: Seq<Value>) -> bool {
    &&& params.len() == args.len()
    &&& forall|i: int| 0 <= i < params.len() ==> #[trigger] args[i].spec_ty() == params[i]
}

/// Checks that `args` matches `params`, count and tags.
pub fn args_match_types(params: &Vec<ValueType>, args: &Vec<Value>) -> (r: bool)
    ensures
        r == args_match(params@, args@),
{
    if params.len() != args.len() {
        return false;
    }
    let n = params.len();
    let mut i: usize = 0;
    while i < n
        invariant
            n == params.len() == args.len(),
            0 <= i <= n,
            forall|k: int| 0 <= k < i ==> #[trigger] args@[k].spec_ty() == params@[k],
        decreases n - i,
    {
        if args[i].ty() != params[i] {
            return false;
        }
        i = i + 1;
    }
    true
}

/// Checks two lists of value types for equality.
pub fn value_types_eq(a: &Vec<ValueType>, b: &Vec<ValueType>) -> (r: bool)
    ensures
        r == (a@ == b@),
{
    if a.len() != b.len() {
        return false;
    }
    let n = a.len();
    let mut i: usize = 0;
    while i < n
        invariant
            n == a.len() == b.len(),
            0 <= i <= n,
            forall|k: int| 0 <= k < i ==> #[trigger] a@[k] == b@[k],
        decreases n - i,
    {
        if a[i] != b[i] {
            return false;
        }
        i = i + 1;
    }
    proof {
        assert(a@ =~= b@);
    }
    true
}

} // verus!
