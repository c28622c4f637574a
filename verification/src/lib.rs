//! Random draws for simulations ported from Python to Rust: each draw can be
//! made by Rust's `StdRng` or by numpy's global generator, so that a port can
//! be checked against the Python program number for number.
pub mod helper;
pub mod py_rng;
pub mod rng_wrapper;
pub mod sampling;
