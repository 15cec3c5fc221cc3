use vstd::prelude::*;

verus! {

/// The numeric collaborator.
///
/// The detector's control flow is verified, but IEEE-754 arithmetic and the
/// seasonal-trend decomposition lie outside the verifier's reach, so both
/// are obtained through this trait. Values cross the boundary as raw bit
/// patterns: `u32` for binary32, `u64` for binary64. The methods carry no
/// contracts: nothing about the returned values is assumed anywhere, and
/// every property this library proves holds for any implementation.
///
/// An implementation is expected to compute the IEEE-754 operation each
/// method is named after, and `seasonal` is expected to run a robust
/// seasonal-trend decomposition (as `stlrs` provides) and hand back the
/// seasonal component; the worked examples among the tests only come out
/// right for such an implementation.
pub trait Numerics {
    /// binary32 addition: bits of `a + b`.
    fn add32(&self, a: u32, b: u32) -> u32;

    /// binary32 subtraction: bits of `a - b`.
    fn sub32(&self, a: u32, b: u32) -> u32;

    /// binary32 multiplication: bits of `a * b`.
    fn mul32(&self, a: u32, b: u32) -> u32;

    /// binary32 division: bits of `a / b`.
    fn div32(&self, a: u32, b: u32) -> u32;

    /// binary32 square root.
    fn sqrt32(&self, a: u32) -> u32;

    /// The binary32 nearest to the integer `n`.
    fn int_to_32(&self, n: usize) -> u32;

    /// Exact widening of a binary32 to a binary64.
    fn widen(&self, a: u32) -> u64;

    /// Rounding of a binary64 to the nearest binary32.
    fn narrow(&self, a: u64) -> u32;

    /// binary64 addition: bits of `a + b`.
    fn add64(&self, a: u64, b: u64) -> u64;

    /// binary64 subtraction: bits of `a - b`.
    fn sub64(&self, a: u64, b: u64) -> u64;

    /// binary64 multiplication: bits of `a * b`.
    fn mul64(&self, a: u64, b: u64) -> u64;

    /// binary64 division: bits of `a / b`.
    fn div64(&self, a: u64, b: u64) -> u64;

    /// binary64 square root.
    fn sqrt64(&self, a: u64) -> u64;

    /// binary64 cosine.
    fn cos64(&self, a: u64) -> u64;

    /// binary64 sine.
    fn sin64(&self, a: u64) -> u64;

    /// binary64 natural logarithm.
    fn ln64(&self, a: u64) -> u64;

    /// binary64 exponential.
    fn exp64(&self, a: u64) -> u64;

    /// binary64 power: bits of `a` raised to `b`.
    fn pow64(&self, a: u64, b: u64) -> u64;

    /// The binary64 nearest to the integer `n`.
    fn int_to_64(&self, n: u64) -> u64;

    /// Robust seasonal-trend decomposition of the series (given as binary32
    /// bit patterns): the seasonal component, one value per observation, or
    /// `None` when the decomposition reports failure.
    fn seasonal(&self, series: &[u32], period: usize) -> Option<Vec<u32>>;
}

} // verus!
