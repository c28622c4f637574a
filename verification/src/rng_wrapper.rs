//! The wrapper over a persistent Python context: numpy's generator is seeded
//! once when the context is created and then drawn from in place. Creating
//! that context needs a nightly toolchain with an embedded interpreter; the
//! Rust-backed draws need neither.
use vstd::prelude::*;
use rand::rngs::StdRng;
use crate::sampling::{draw_size, generator_moved, is_draw_of, slice_choose_multiple};

verus! {

/// A handle on the Python context that holds numpy's generator.
pub struct PythonRng {}

/// Either a borrowed Rust generator or the Python context.
pub enum RngWrapper<'a> {
    RustRng(&'a mut StdRng),
    PythonRng(PythonRng),
}

impl<'a> RngWrapper<'a> {
    /// Draws `num_selected` entries of `select_from` without putting any back,
    /// or all of them when there are fewer. The Rust generator backs this
    /// draw: it moves on whenever at least one entry is drawn, and stays
    /// where it was when none is.
    pub fn choose_multiple(&mut self, select_from: &Vec<usize>, num_selected: usize) -> (infected: Vec<usize>)
        requires
            *old(self) is RustRng,
        ensures
            *final(self) is RustRng,
            is_draw_of(select_from@, num_selected as nat, infected@),
            generator_moved(
                *old(self)->RustRng_0,
                *final(self)->RustRng_0,
                draw_size(select_from@.len(), num_selected as nat),
            ),
    {
        match self {
            RngWrapper::RustRng(rng) => slice_choose_multiple(rng, select_from, num_selected),
            RngWrapper::PythonRng(_) => Vec::new(),
        }
    }
}

} // verus!
