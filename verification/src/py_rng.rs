//! A generator that is either Rust's `StdRng` or numpy's global generator,
//! driven from Rust so that a program ported from Python can replay the
//! random numbers that the Python program drew.
//!
//! Numpy's generator lives in a Python interpreter that is torn down after
//! every call, so [`PythonRng`] keeps what is needed to put it back where it
//! stood: the seed for the first draw, and after that the Mersenne-Twister
//! state and position that the previous draw left behind. Each draw is two
//! steps around the interpreter: [`PythonRng::draw_start`] says how numpy must
//! be set up, and [`PythonRng::record_draw`] stores what numpy reported after
//! the draw.
use vstd::prelude::*;
use rand::rngs::StdRng;
use crate::sampling::{draw_size, generator_moved, is_draw_of, slice_choose_multiple};

verus! {

/// How numpy's generator must be set up before a draw: seeded afresh, or put
/// back to a saved Mersenne-Twister state at a position within it.
#[derive(Debug)]
pub enum PyStart {
    Seed(u64),
    Resume(Vec<u32>, u32),
}

/// What persists of numpy's generator between two draws.
#[derive(Debug)]
pub struct PythonRng {
    /// Seeds numpy's generator for the first draw.
    pub seed: u64,
    /// The Mersenne-Twister state that the last draw left.
    state: Option<Vec<u32>>,
    /// The position within `state` that the last draw reached.
    iter: u32,
    /// Whether the next draw resumes from `state` rather than from `seed`:
    /// true once any draw has been recorded.
    active: bool,
}

impl PythonRng {
    /// A saved state is there whenever draws resume from it.
    #[verifier::type_invariant]
    spec fn wf(&self) -> bool {
        self.active ==> self.state is Some
    }

    /// The seed for the first draw.
    pub closed spec fn initial_seed(&self) -> u64 {
        self.seed
    }

    /// Whether the next draw resumes from the saved state.
    pub closed spec fn is_active(&self) -> bool {
        self.active
    }

    /// The Mersenne-Twister state that the last recorded draw left, if any.
    pub closed spec fn recorded(&self) -> Option<Seq<u32>> {
        match self.state {
            Some(v) => Some(v@),
            None => None,
        }
    }

    /// The position within the saved state.
    pub closed spec fn position(&self) -> u32 {
        self.iter
    }

    /// Seed, saved state (empty when there is none) and position, as
    /// `return_info` reports them.
    pub open spec fn info(&self) -> (u64, Seq<u32>, u32) {
        (
            self.initial_seed(),
            match self.recorded() {
                Some(st) => st,
                None => Seq::empty(),
            },
            self.position(),
        )
    }

    /// `start` is how the next draw sets numpy up: from the seed before the
    /// generator is active, from the saved state and position after.
    pub open spec fn start_matches(&self, start: &PyStart) -> bool {
        match start {
            PyStart::Seed(s) => !self.is_active() && *s == self.initial_seed(),
            PyStart::Resume(st, it) => self.is_active() && self.recorded() == Some(st@) && *it
                == self.position(),
        }
    }

    /// `self` is `before` once a draw left numpy at `state_after`, position
    /// `iter`: the state and position are saved, the seed kept, and the
    /// generator is active, so that the next draw resumes from them.
    pub open spec fn follows(&self, before: &PythonRng, state_after: Seq<u32>, iter: u32) -> bool {
        &&& self.initial_seed() == before.initial_seed()
        &&& self.recorded() == Some(state_after)
        &&& self.position() == iter
        &&& self.is_active()
    }

    /// A generator that has not drawn yet: the first draw seeds numpy with
    /// `new_seed`.
    pub fn new(new_seed: u64) -> (rng: PythonRng)
        ensures
            !rng.is_active(),
            rng.info() == (new_seed, Seq::<u32>::empty(), 0u32),
    {
        PythonRng { seed: new_seed, state: None, iter: 0, active: false }
    }

    /// The seed, the saved Mersenne-Twister state (empty before any draw was
    /// recorded) and the position within it.
    pub fn return_info(&self) -> (info: (u64, Vec<u32>, u32))
        ensures
            (info.0, info.1@, info.2) == self.info(),
    {
        let state = match &self.state {
            Some(v) => v.clone(),
            None => Vec::new(),
        };
        (self.seed, state, self.iter)
    }

    /// How numpy's generator must be set up for the next draw.
    pub fn draw_start(&self) -> (start: PyStart)
        ensures
            self.start_matches(&start),
    {
        proof {
            use_type_invariant(self);
        }
        if self.active {
            match &self.state {
                Some(v) => PyStart::Resume(v.clone(), self.iter),
                None => PyStart::Seed(self.seed),
            }
        } else {
            PyStart::Seed(self.seed)
        }
    }

    /// Stores the state and position that numpy reported after a draw, of
    /// whatever kind, and marks the generator active: from now on every draw
    /// resumes from the stored state instead of reseeding.
    pub fn record_draw(&mut self, state_after: Vec<u32>, iter: u32)
        ensures
            final(self).follows(old(self), state_after@, iter),
    {
        self.state = Some(state_after);
        self.iter = iter;
        if !self.active {
            self.active = true;
        }
    }
}

/// After a draw the next draw resumes from exactly the state and position it
/// recorded, and `return_info` reports them beside the unchanged seed.
pub proof fn lemma_next_draw_resumes(
    before: PythonRng,
    after: PythonRng,
    state_after: Seq<u32>,
    iter: u32,
    start: PyStart,
)
    requires
        after.follows(&before, state_after, iter),
        after.start_matches(&start),
    ensures
        start matches PyStart::Resume(st, it) && st@ == state_after && it == iter,
        after.info() == (before.initial_seed(), state_after, iter),
{
}

/// What numpy reports of its Mersenne-Twister generator: a key of 624 words
/// and a position within it.
pub open spec fn is_mt19937_report(state: Seq<u32>, iter: u32) -> bool {
    state.len() == 624 && iter <= 624
}

/// Over a run of draws on a generator made by `PythonRng::new(seed)`, where
/// `gens[i + 1]` is `gens[i]` after the draw that reported `reports[i]`: the
/// seed stays `seed`; before any draw nothing is saved and numpy is seeded;
/// after the first draw the generator is active and `return_info` reports
/// the seed with the last state and position recorded, so that when every
/// report is a Mersenne-Twister key the saved state is one too.
pub proof fn lemma_run_of_draws(seed: u64, gens: Seq<PythonRng>, reports: Seq<(Seq<u32>, u32)>)
    requires
        gens.len() == reports.len() + 1,
        !gens[0].is_active(),
        gens[0].info() == (seed, Seq::<u32>::empty(), 0u32),
        forall|i: int|
            0 <= i < reports.len() ==> #[trigger] gens[i + 1].follows(&gens[i], reports[i].0, reports[i].1),
    ensures
        gens.last().initial_seed() == seed,
        reports.len() == 0 ==> !gens.last().is_active() && gens.last().info() == (
            seed,
            Seq::<u32>::empty(),
            0u32,
        ),
        reports.len() > 0 ==> gens.last().is_active() && gens.last().info() == (
            seed,
            reports.last().0,
            reports.last().1,
        ),
        (forall|i: int| 0 <= i < reports.len() ==> is_mt19937_report(#[trigger] reports[i].0, reports[i].1))
            && reports.len() > 0 ==> is_mt19937_report(gens.last().info().1, gens.last().info().2),
    decreases reports.len(),
{
    if reports.len() > 0 {
        let k = reports.len() - 1;
        lemma_run_of_draws(seed, gens.drop_last(), reports.drop_last());
        assert(gens.drop_last().last() == gens[k]);
        assert(gens[k + 1].follows(&gens[k], reports[k].0, reports[k].1));
        if forall|i: int| 0 <= i < reports.len() ==> is_mt19937_report(#[trigger] reports[i].0, reports[i].1) {
            assert(is_mt19937_report(reports[k].0, reports[k].1));
        }
    }
}

/// Either a borrowed Rust generator or the numpy-backed one.
#[derive(Debug)]
pub enum RngWrapper<'a> {
    RustRng(&'a mut StdRng),
    PythonRng(PythonRng),
}

impl<'a> RngWrapper<'a> {
    /// The numpy generator's seed, saved state and position. Only the
    /// numpy-backed wrapper has them.
    pub fn return_info(&self) -> (info: (u64, Vec<u32>, u32))
        requires
            self is PythonRng,
        ensures
            (info.0, info.1@, info.2) == self->PythonRng_0.info(),
    {
        match self {
            RngWrapper::PythonRng(py_rng) => py_rng.return_info(),
            RngWrapper::RustRng(_) => (0, Vec::new(), 0),
        }
    }

    /// Draws `num_selected` entries of `select_from` without putting any back,
    /// or all of them when there are fewer. The Rust generator backs this
    /// draw: it moves on whenever at least one entry is drawn, and stays
    /// where it was when none is.
    pub fn choose_multiple(&mut self, select_from: &Vec<usize>, num_selected: usize) -> (infected: Vec<usize>)
        requires
            *old(self) is RustRng,
        ensures
            *final(self) is RustRng,
            is_draw_of(select_from@, num_selected as nat, infected@),
            generator_moved(
                *old(self)->RustRng_0,
                *final(self)->RustRng_0,
                draw_size(select_from@.len(), num_selected as nat),
            ),
    {
        match self {
            RngWrapper::RustRng(rng) => slice_choose_multiple(rng, select_from, num_selected),
            RngWrapper::PythonRng(_) => Vec::new(),
        }
    }
}

} // verus!
