//! The numeric backend: the small set of primitive operations on
//! double-precision values that waveform evaluation is built from.
//!
//! The library never computes on floating-point values itself.  Every
//! double-precision value is carried as its IEEE-754 bit pattern (a `u64`),
//! and every primitive operation is performed by a backend function that the
//! embedding build supplies once: a plain function from an operation tag and
//! two operand bit patterns to a result bit pattern.  Choosing the backend
//! (the platform's native math library, or a portable software
//! implementation) is thereby a build-time decision of the embedding crate;
//! the evaluation logic here is verified for every backend alike.

use vstd::prelude::*;

verus! {

/// Bit pattern of the double-precision value `2.0`.
pub const TWO_BITS: u64 = 0x4000000000000000;

/// Bit pattern of the double-precision value closest to pi.
pub const PI_BITS: u64 = 0x400921FB54442D18;

/// One primitive operation of the numeric backend.
///
/// `Add`, `Sub` and `Mul` are the carrier arithmetic of the sample type.
/// `Frac` (signed fractional part), `Sin` (sine, radians), `Floor`, and
/// `PowNegOne` (minus one raised to the integer-valued operand) are the
/// transcendental and rounding primitives.  The unary operations read only
/// the first operand; callers pass `0` in the unused slot.
#[derive(Clone, Copy, Debug, PartialEq, Eq, Structural)]
pub enum MathOp {
    Add,
    Sub,
    Mul,
    Frac,
    Sin,
    Floor,
    PowNegOne,
}

/// The backend behaves as the mathematical model `m`: every result the
/// backend can return for given operands is the one value `m` assigns to
/// them.  A backend whose primitives are pure functions of their operands
/// (as both the native and the software math libraries are) satisfies this
/// for exactly one model.
pub open spec fn backend_models<F: Fn(MathOp, u64, u64) -> u64>(
    backend: F,
    m: spec_fn(MathOp, u64, u64) -> u64,
) -> bool {
    forall|op: MathOp, a: u64, b: u64, r: u64|
        #[trigger] call_ensures(backend, (op, a, b), r) ==> r == m(op, a, b)
}

/// Apply one primitive operation of the backend to two operand bit patterns.
pub fn math_op<F: Fn(MathOp, u64, u64) -> u64>(backend: F, op: MathOp, a: u64, b: u64) -> (r: u64)
    requires
        call_requires(backend, (op, a, b)),
    ensures
        call_ensures(backend, (op, a, b), r),
{
    backend(op, a, b)
}

} // verus!
