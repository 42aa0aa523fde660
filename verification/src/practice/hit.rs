//! Counting the player's hits, and the first-hit forced step.

use super::Verdict;
use super::load::{Generation, PerLoad};
use crate::thread::MainThread;
use vstd::prelude::*;

verus! {

/// The death hook's per-load state.
pub struct HitState {
    /// The number of `Player::die` calls counted since the load.
    pub hits: PerLoad<u32>,
    /// Set when the hit count goes from 0 to 1; cleared when the input hook consumes it.
    pub forced_step_owed: PerLoad<bool>,
}

impl HitState {
    /// No load has any hits or an owed step.
    pub fn new() -> (r: Self)
        ensures
            forall|g: Generation| r.hits.value_at(g) == 0 && !r.forced_step_owed.value_at(g),
    {
        HitState { hits: PerLoad::new(0), forced_step_owed: PerLoad::new(false) }
    }

    /// Returns the number of hits counted for the load `generation`.
    pub fn count(&self, thread: MainThread, generation: Generation) -> (r: u32)
        ensures
            r == self.hits.value_at(generation),
    {
        self.hits.get(thread, generation)
    }

    /// Consumes the load's pending first-hit forced step, returning whether one was owed.
    pub fn take_forced_step(&mut self, thread: MainThread, generation: Generation) -> (owed: bool)
        ensures
            owed == old(self).forced_step_owed.value_at(generation),
            !final(self).forced_step_owed.value_at(generation),
            !owed ==> final(self).forced_step_owed == old(self).forced_step_owed,
            final(self).hits == old(self).hits,
    {
        let r = self.forced_step_owed.update(thread, generation, take_owed);
        r.is_some()
    }

    /// The death hook. While a controller is connected, the hit is counted for the load
    /// `generation` (the first one owes a forced step) and the death sequence is suppressed,
    /// unless the episode asked for real deaths. With no controller the game runs as usual.
    pub fn on_player_die(
        &mut self,
        thread: MainThread,
        generation: Generation,
        connected: bool,
        real_deaths: bool,
    ) -> (v: Verdict)
        ensures
            !connected ==> v == Verdict::Run && *final(self) == *old(self),
            connected ==> {
                &&& v == (if real_deaths {
                    Verdict::Run
                } else {
                    Verdict::Divert
                })
                &&& final(self).hits.value_at(generation)
                    == vstd::wrapping::u32_specs::wrapping_add(
                    old(self).hits.value_at(generation),
                    1,
                )
                &&& final(self).forced_step_owed.value_at(generation) == (old(self).hits.value_at(
                    generation,
                ) == 0 || old(self).forced_step_owed.value_at(generation))
            },
    {
        if !connected {
            return Verdict::Run;
        }
        let first_hit = self.hits.update(thread, generation, count_hit);
        if first_hit == Some(true) {
            self.forced_step_owed.set(thread, generation, true);
        }
        if real_deaths {
            Verdict::Run
        } else {
            Verdict::Divert
        }
    }
}

/// Hands out an owed step, if any.
fn take_owed(owed: bool) -> (out: Option<(bool, ())>)
    ensures
        out == (if owed {
            Some((false, ()))
        } else {
            None::<(bool, ())>
        }),
{
    if owed {
        Some((false, ()))
    } else {
        None
    }
}

/// Counts one hit, reporting whether it is the first.
fn count_hit(hits: u32) -> (out: Option<(u32, bool)>)
    ensures
        out == Some((vstd::wrapping::u32_specs::wrapping_add(hits, 1), hits == 0)),
{
    Some((hits.wrapping_add(1), hits == 0))
}

} // verus!
