//! Host-side built-in functions offered to guest modules.

use vstd::prelude::*;

verus! {

/// Multiplication of two 32-bit integers with WebAssembly `i32.mul`
/// semantics: the product is taken modulo `2^32`.
pub open spec fn spec_fil_mul(a: u32, b: u32) -> u32 {
    ((a as nat * b as nat) % 0x1_0000_0000nat) as u32
}

/// The host implementation behind the `env.fil_mul` import: plain
/// multiplication, wrapping as the guest's own `i32.mul` would.
pub fn fil_mul(a: u32, b: u32) -> (r: u32)
    ensures
        r == spec_fil_mul(a, b),
{
    a.wrapping_mul(b)
}

} // verus!
