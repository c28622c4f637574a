# prng_wrapper

Random draws for simulations ported from Python to Rust. Each draw is made
either by Rust's `StdRng` or by numpy's global generator, so that the port can
be compared with the Python program number for number.

- `src/` is the verified library (Verus): which neighbours stay eligible for a
  weighted choice (`helper`), the state kept for numpy's generator between
  draws and the two steps of every numpy-backed draw (`py_rng::PythonRng`),
  the two wrapper enums with their integer draws, and what every draw of
  several entries satisfies (`sampling`).
- `app/` holds what draws or weighs with `f64` values (uniform and Poisson
  draws, weighted choices, the weight normalisation of
  `NeighboursAndWeights`) and the numpy side of the Python-backed draws.
  That numpy code needs the `inline_python` crate on a nightly toolchain and
  stands behind the `nightly-features` feature; this crate names neither, so
  the code is never compiled here and every Python-backed draw stops with a
  panic that says so.
