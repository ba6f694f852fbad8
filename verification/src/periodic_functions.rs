//! Definitions of periodic functions.
//!
//! A [`PeriodicFunction`] captures the parameters of one waveform family —
//! DC bias, sawtooth, sine or square — at construction time and is
//! evaluated lazily at any caller-chosen time value.  Parameters and times
//! are double-precision reals carried as IEEE-754 bit patterns; see the
//! crate documentation for the backend convention.

use crate::backend::{MathOp, PI_BITS, TWO_BITS, backend_models};
use vstd::prelude::*;

verus! {

/// One periodic waveform: a deterministic, stateless mapping from a time
/// value to an amplitude.  The captured parameters are immutable for the
/// lifetime of the value; changing a parameter means building a new value.
///
/// `frequency` is in hertz, `amplitude` in 0-to-peak units, and `phase` in
/// whole periods (a phase of one is a shift by one full period), each as
/// the bit pattern of a double-precision value.
#[derive(Clone, Copy, Debug)]
pub enum PeriodicFunction {
    /// Ignores its time argument and always yields `bias`.
    DcBias { bias: u64 },
    /// A linear ramp from minus `amplitude` to plus `amplitude` once per
    /// period, resetting sharply at each period boundary:
    /// `2 * amplitude * frac(t * frequency + phase) - amplitude`.
    Sawtooth { frequency: u64, amplitude: u64, phase: u64 },
    /// The standard sinusoid
    /// `sin(2 * pi * frequency * t + phase * 2 * pi) * amplitude`.
    Sine { frequency: u64, amplitude: u64, phase: u64 },
    /// Alternates between plus and minus `amplitude` every half period:
    /// `amplitude * (-1) ^ floor(2 * (t - phase) * frequency)`.  The duty
    /// cycle is fixed at one half; there is no pulse-width parameter.
    Square { frequency: u64, amplitude: u64, phase: u64 },
}

impl PeriodicFunction {
    /// The amplitude of this waveform at time `t`, as computed by a
    /// backend whose primitives behave as the model `m`.  This is the
    /// defining formula of each family, spelled out over the backend's
    /// primitive operations in the exact order evaluation applies them.
    pub open spec fn value_with(self, m: spec_fn(MathOp, u64, u64) -> u64, t: u64) -> u64 {
        match self {
            PeriodicFunction::DcBias { bias } => bias,
            PeriodicFunction::Sawtooth { frequency, amplitude, phase } => m(
                MathOp::Sub,
                m(
                    MathOp::Mul,
                    m(MathOp::Mul, TWO_BITS, amplitude),
                    m(MathOp::Frac, m(MathOp::Add, m(MathOp::Mul, t, frequency), phase), 0),
                ),
                amplitude,
            ),
            PeriodicFunction::Sine { frequency, amplitude, phase } => m(
                MathOp::Mul,
                m(
                    MathOp::Sin,
                    m(
                        MathOp::Add,
                        m(MathOp::Mul, m(MathOp::Mul, m(MathOp::Mul, TWO_BITS, PI_BITS), frequency), t),
                        m(MathOp::Mul, m(MathOp::Mul, phase, TWO_BITS), PI_BITS),
                    ),
                    0,
                ),
                amplitude,
            ),
            PeriodicFunction::Square { frequency, amplitude, phase } => m(
                MathOp::Mul,
                amplitude,
                m(
                    MathOp::PowNegOne,
                    m(
                        MathOp::Floor,
                        m(MathOp::Mul, m(MathOp::Mul, TWO_BITS, m(MathOp::Sub, t, phase)), frequency),
                        0,
                    ),
                    0,
                ),
            ),
        }
    }

    /// Evaluate this waveform at time `t` with the given backend.
    ///
    /// For every model the backend behaves as, the result is exactly the
    /// family's formula under that model; a DC bias yields its bias
    /// bit-for-bit whatever the backend does.
    pub fn invoke<F: Fn(MathOp, u64, u64) -> u64>(&self, t: u64, backend: F) -> (r: u64)
        requires
            forall|op: MathOp, a: u64, b: u64| #[trigger] call_requires(backend, (op, a, b)),
        ensures
            forall|m: spec_fn(MathOp, u64, u64) -> u64|
                #[trigger] backend_models(backend, m) ==> r == self.value_with(m, t),
            self matches PeriodicFunction::DcBias { bias } ==> r == bias,
    {
        match self {
            PeriodicFunction::DcBias { bias } => *bias,
            PeriodicFunction::Sawtooth { frequency, amplitude, phase } => {
                let turns = backend(MathOp::Mul, t, *frequency);
                let shifted = backend(MathOp::Add, turns, *phase);
                let ramp = backend(MathOp::Frac, shifted, 0);
                let twice_amp = backend(MathOp::Mul, TWO_BITS, *amplitude);
                let scaled = backend(MathOp::Mul, twice_amp, ramp);
                let r = backend(MathOp::Sub, scaled, *amplitude);
                r
            },
            PeriodicFunction::Sine { frequency, amplitude, phase } => {
                let tau = backend(MathOp::Mul, TWO_BITS, PI_BITS);
                let angular = backend(MathOp::Mul, tau, *frequency);
                let swept = backend(MathOp::Mul, angular, t);
                let phase_turns = backend(MathOp::Mul, *phase, TWO_BITS);
                let phase_radians = backend(MathOp::Mul, phase_turns, PI_BITS);
                let radians = backend(MathOp::Add, swept, phase_radians);
                let sine_value = backend(MathOp::Sin, radians, 0);
                let r = backend(MathOp::Mul, sine_value, *amplitude);
                r
            },
            PeriodicFunction::Square { frequency, amplitude, phase } => {
                let base = backend(MathOp::Sub, t, *phase);
                let doubled = backend(MathOp::Mul, TWO_BITS, base);
                let half_periods = backend(MathOp::Mul, doubled, *frequency);
                let parity = backend(MathOp::Floor, half_periods, 0);
                let sign = backend(MathOp::PowNegOne, parity, 0);
                let r = backend(MathOp::Mul, *amplitude, sign);
                r
            },
        }
    }
}

/// DC bias builder: the returned waveform yields `bias` at every time.
pub fn dc_bias(bias: u64) -> (r: PeriodicFunction)
    ensures
        r == (PeriodicFunction::DcBias { bias }),
{
    PeriodicFunction::DcBias { bias }
}

/// Sawtooth builder: a ramp of the given frequency, 0-to-peak amplitude
/// and phase (in whole periods).
pub fn sawtooth(frequency: u64, amplitude: u64, phase: u64) -> (r: PeriodicFunction)
    ensures
        r == (PeriodicFunction::Sawtooth { frequency, amplitude, phase }),
{
    PeriodicFunction::Sawtooth { frequency, amplitude, phase }
}

/// Sine builder: a sinusoid of the given frequency, 0-to-peak amplitude
/// and phase (in whole periods).
pub fn sine(frequency: u64, amplitude: u64, phase: u64) -> (r: PeriodicFunction)
    ensures
        r == (PeriodicFunction::Sine { frequency, amplitude, phase }),
{
    PeriodicFunction::Sine { frequency, amplitude, phase }
}

/// Square builder: a square wave of the given frequency, 0-to-peak
/// amplitude and phase, with a fixed duty cycle of one half.
pub fn square(frequency: u64, amplitude: u64, phase: u64) -> (r: PeriodicFunction)
    ensures
        r == (PeriodicFunction::Square { frequency, amplitude, phase }),
{
    PeriodicFunction::Square { frequency, amplitude, phase }
}

/// A caller-supplied time-to-amplitude function wrapped into the same
/// evaluate-at-a-time shape as the built-in waveform families.  The caller
/// is responsible for the function being well defined over the domain it
/// will be invoked on; the library adds no validation of its own.
pub struct Custom<F: Fn(u64) -> u64> {
    f: F,
}

/// Wraps a custom periodic function.
pub fn custom<F: Fn(u64) -> u64>(f: F) -> (r: Custom<F>)
    ensures
        r.wrapped() == f,
{
    Custom { f }
}

impl<F: Fn(u64) -> u64> Custom<F> {
    /// The wrapped function itself.
    pub closed spec fn wrapped(self) -> F {
        self.f
    }

    /// Evaluate the wrapped function at time `t`: the result is exactly a
    /// result the wrapped function can return for `t`.
    pub fn invoke(&self, t: u64) -> (r: u64)
        requires
            call_requires(self.wrapped(), (t,)),
        ensures
            call_ensures(self.wrapped(), (t,), r),
    {
        (self.f)(t)
    }
}

/// Law: a DC bias waveform has the same amplitude — its bias, exactly —
/// at every time and under every backend model.
pub proof fn lemma_dc_bias_is_constant(bias: u64, m: spec_fn(MathOp, u64, u64) -> u64, t: u64)
    ensures
        (PeriodicFunction::DcBias { bias }).value_with(m, t) == bias,
{
}

/// Law: evaluation is deterministic.  Any two results that the evaluation
/// contract admits for the same waveform, the same time and the same
/// backend are bitwise identical, provided the backend behaves as some
/// model — as every backend whose primitives are pure functions of their
/// operands does.
pub proof fn lemma_invoke_is_deterministic<F: Fn(MathOp, u64, u64) -> u64>(
    pf: PeriodicFunction,
    backend: F,
    m: spec_fn(MathOp, u64, u64) -> u64,
    t: u64,
    r1: u64,
    r2: u64,
)
    requires
        backend_models(backend, m),
        forall|m2: spec_fn(MathOp, u64, u64) -> u64|
            #[trigger] backend_models(backend, m2) ==> r1 == pf.value_with(m2, t),
        forall|m2: spec_fn(MathOp, u64, u64) -> u64|
            #[trigger] backend_models(backend, m2) ==> r2 == pf.value_with(m2, t),
    ensures
        r1 == r2,
{
    assert(r1 == pf.value_with(m, t));
    assert(r2 == pf.value_with(m, t));
}

} // verus!
