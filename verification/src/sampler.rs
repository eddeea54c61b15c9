//! The seed sampler: buffers the candidate records of each window and draws
//! one of them when the window closes.

use crate::activity::PagOutput;
use crate::buffer::{append_to_window, buffered, take_window};
use rand::rngs::StdRng;
use rand::seq::SliceRandom;
use std::collections::HashMap;
use vstd::prelude::*;

verus! {

#[verifier::external_type_specification]
#[verifier::external_body]
pub struct ExStdRng(StdRng);

/// Draws with rand's `SliceRandom::choose` on the candidates as a slice:
/// nothing from an empty slice, else the element at an index that the
/// generator picks below the length. Which one it is depends on the
/// generator, so only membership is claimed.
#[verifier::external_body]
fn choose_candidate<'a>(candidates: &'a Vec<PagOutput>, rng: &mut StdRng) -> (picked: Option<
    &'a PagOutput,
>)
    ensures
        candidates@.len() == 0 ==> picked is None,
        candidates@.len() > 0 ==> picked is Some && candidates@.contains(*picked->Some_0),
{
    candidates[..].choose(rng)
}

/// Draws one of `candidates`, or nothing where there is none.
pub fn draw_seed(candidates: &Vec<PagOutput>, rng: &mut StdRng) -> (seed: Option<PagOutput>)
    ensures
        candidates@.len() == 0 ==> seed is None,
        candidates@.len() > 0 ==> seed is Some && candidates@.contains(seed->Some_0),
{
    match choose_candidate(candidates, rng) {
        Some(picked) => Some(*picked),
        None => None,
    }
}

/// The candidate seeds of the open windows.
pub struct SeedSampler {
    windows: HashMap<u64, Vec<PagOutput>>,
}

impl SeedSampler {
    /// Whether the sampler holds state for `window`.
    pub closed spec fn is_open(&self, window: u64) -> bool {
        self.windows@.contains_key(window)
    }

    /// The candidates buffered for `window`, in the order of their arrival.
    pub closed spec fn candidates(&self, window: u64) -> Seq<PagOutput> {
        buffered(self.windows@, window)
    }

    /// A sampler without state.
    pub fn new() -> (sampler: SeedSampler)
        ensures
            forall|window: u64| !sampler.is_open(window),
            forall|window: u64| sampler.candidates(window) == Seq::<PagOutput>::empty(),
    {
        SeedSampler { windows: HashMap::new() }
    }

    /// Buffers `records` as candidates of `window`.
    pub fn buffer(&mut self, window: u64, records: &Vec<PagOutput>)
        ensures
            final(self).is_open(window),
            final(self).candidates(window) == old(self).candidates(window) + records@,
            forall|other: u64|
                other != window ==> final(self).is_open(other) == old(self).is_open(other),
            forall|other: u64|
                other != window ==> #[trigger] final(self).candidates(other) == old(
                    self,
                ).candidates(other),
    {
        append_to_window(&mut self.windows, window, records);
    }

    /// Closes `window`: draws the seed among its candidates, nothing where
    /// it has none, and drops the window's state.
    pub fn close(&mut self, window: u64, rng: &mut StdRng) -> (seed: Option<PagOutput>)
        ensures
            !final(self).is_open(window),
            final(self).candidates(window) == Seq::<PagOutput>::empty(),
            forall|other: u64|
                other != window ==> final(self).is_open(other) == old(self).is_open(other),
            forall|other: u64|
                other != window ==> #[trigger] final(self).candidates(other) == old(
                    self,
                ).candidates(other),
            old(self).candidates(window).len() == 0 ==> seed is None,
            old(self).candidates(window).len() > 0 ==> seed is Some && old(self).candidates(
                window,
            ).contains(seed->Some_0),
    {
        match take_window(&mut self.windows, window) {
            Some(candidates) => draw_seed(&candidates, rng),
            None => None,
        }
    }
}

} // verus!
