use vstd::prelude::*;

verus! {

/// Whether the mathematical integer `n` fits in an `i64` scalar.
pub open spec fn fits_i64(n: int) -> bool {
    i64::MIN <= n <= i64::MAX
}

} // verus!
