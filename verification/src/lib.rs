//! Periodic real-valued functions of time.
//!
//! Waveform builders — DC bias, sawtooth, sine, square, and a custom
//! adapter — each capture their parameters into a value that can be
//! evaluated at any time, any number of times, with no retained state.
//! Times and amplitudes are double-precision reals carried as their
//! IEEE-754 bit patterns; the floating-point primitives themselves are
//! supplied by a numeric backend chosen once by the embedding build (see
//! [`backend`]), and evaluation is verified against every backend alike.

pub mod backend;
pub mod periodic_functions;

pub use backend::{MathOp, PI_BITS, TWO_BITS, backend_models, math_op};
pub use periodic_functions::{Custom, PeriodicFunction, custom, dc_bias, sawtooth, sine, square};
