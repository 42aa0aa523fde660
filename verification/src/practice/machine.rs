//! The reset/load state machine.
//!
//! Transitions are methods that take what the main thread observed of the environment and
//! return the writes for the caller to perform.

use super::PracticeParams;
use super::data::{rank_matches_stage, section_stage, spec_rank_matches_stage, spec_section_stage};
use super::ecl::EclUndo;
use super::load::{Generation, LoadStatus};
use vstd::prelude::*;

verus! {

/// What became of the reset numbered `reset_seq`, as the observation reports it.
#[derive(Debug, Clone, Copy, PartialEq, Eq, Structural)]
pub enum Outcome {
    Idle,
    Pending,
    Applied,
    Vanilla,
    /// The reload landed on a stage other than the requested section's.
    FailedStageMismatch,
    /// The stage's ECL files were not resolvable when the warp was attempted.
    FailedNoEcl,
    /// A reset asked to restart the live stage at an invalid difficulty (Extra stage segments
    /// only exist on the Extra difficulty).
    FailedDifficultyMismatch,
    /// A reset specified a character other than the one currently being used.
    FailedCharacterMismatch,
}

/// The wire code of each outcome.
pub open spec fn outcome_code(o: Outcome) -> u32 {
    match o {
        Outcome::Idle => 0,
        Outcome::Pending => 1,
        Outcome::Applied => 2,
        Outcome::Vanilla => 3,
        Outcome::FailedStageMismatch => 4,
        Outcome::FailedNoEcl => 5,
        Outcome::FailedDifficultyMismatch => 6,
        Outcome::FailedCharacterMismatch => 7,
    }
}

impl Outcome {
    /// The wire code of the `reset_outcome` word.
    pub fn to_wire(self) -> (r: u32)
        ensures
            r == outcome_code(self),
    {
        match self {
            Outcome::Idle => 0,
            Outcome::Pending => 1,
            Outcome::Applied => 2,
            Outcome::Vanilla => 3,
            Outcome::FailedStageMismatch => 4,
            Outcome::FailedNoEcl => 5,
            Outcome::FailedDifficultyMismatch => 6,
            Outcome::FailedCharacterMismatch => 7,
        }
    }
}

/// Where the latest reset stands.
#[derive(Debug, Clone, Copy, PartialEq, Eq, Structural)]
pub enum ResetState {
    /// No reset has ever been accepted.
    Idle,
    /// Reset accepted; waiting for a stable in-stage frame without an unpublished load.
    Requested { seq: u32, params: PracticeParams },
    /// The reload has been triggered (teardown queued, tick guard holding); waiting for it to
    /// publish.
    Reloading { seq: u32, params: PracticeParams },
    /// Reported until replaced by the next command.
    Done { seq: u32, outcome: Outcome },
}

/// The last consumed load.
#[derive(Debug, Clone, Copy, PartialEq, Eq, Structural)]
pub struct CurrentLoad {
    pub generation: Generation,
    /// The section applied to it, or `0`.
    pub section: u32,
}

/// What the tick guard should do with a tick.
#[derive(Debug, Clone, Copy, PartialEq, Eq, Structural)]
pub enum TickDecision {
    /// There is no reload in progress. The tick is untouched.
    Run,
    /// A reload has not published yet, or the loader thread is managing the ECL buffers. The
    /// tick is held.
    Hold,
    /// A reload has been published. The tick is consumed, the previous warp is reverted, and the
    /// new warp is applied iff `params.active`.
    Consume { params: PracticeParams, generation: Generation },
}

/// The writes that start a reload.
#[derive(Debug, Clone, Copy, PartialEq, Eq, Structural)]
pub struct ReloadPlan {
    /// `STAGE_SELECT` value when the reset involves a warp with a decodable stage.
    pub stage_select: Option<u32>,
    /// `DIFFICULTY` value.
    pub difficulty: u32,
    /// Whether the upcoming load should take an arm (i.e. whether its first tick applies a warp).
    pub arms_load: bool,
}

/// A warp whose ECL patches are live.
pub struct LiveWarp {
    /// The stage affected by the ECL patches.
    pub stage: u32,
    pub undo: EclUndo,
}

/// Everything that the main thread knows about the reset/load lifecycle.
pub struct Lifecycle {
    pub reset: ResetState,
    /// The last consumed load.
    pub current_load: CurrentLoad,
    /// The live warp's undo record.
    pub last_warp: Option<LiveWarp>,
    /// Whether the player has been placed for the pending consume.
    pub placed: bool,
}

/// Whether a reset is outstanding: accepted and not yet done.
pub open spec fn reset_pending(r: ResetState) -> bool {
    r is Requested || r is Reloading
}

/// Whether the accepted params of an outstanding reset can be carried out.
pub open spec fn reset_wf(r: ResetState) -> bool {
    match r {
        ResetState::Requested { params, .. } => params.wf(),
        ResetState::Reloading { params, .. } => params.wf(),
        _ => true,
    }
}

/// Whether a load other than the last consumed one could still publish or has published
/// unconsumed.
pub open spec fn load_window_open(status: LoadStatus, loader_running: bool, current: Generation) -> bool {
    loader_running || match status {
        LoadStatus::InFlight => true,
        LoadStatus::Settled { generation, .. } => generation != current,
    }
}

/// The reset state after a start attempt, and the writes to perform.
pub open spec fn spec_try_start(
    reset: ResetState,
    current: Generation,
    stable_ingame: bool,
    status: LoadStatus,
    loader_running: bool,
    current_stage: u32,
    current_character: u32,
) -> (ResetState, Option<ReloadPlan>) {
    match reset {
        ResetState::Requested { seq, params } => {
            if !stable_ingame || load_window_open(status, loader_running, current) {
                (reset, None)
            } else if params.character != current_character {
                (ResetState::Done { seq, outcome: Outcome::FailedCharacterMismatch }, None)
            } else if !params.active && !spec_rank_matches_stage(current_stage, params.difficulty) {
                (ResetState::Done { seq, outcome: Outcome::FailedDifficultyMismatch }, None)
            } else {
                (
                    ResetState::Reloading { seq, params },
                    Some(
                        ReloadPlan {
                            stage_select: if params.active {
                                spec_section_stage(params.section)
                            } else {
                                None
                            },
                            difficulty: params.difficulty,
                            arms_load: params.active,
                        },
                    ),
                )
            }
        },
        _ => (reset, None),
    }
}

/// The tick guard's decision.
pub open spec fn spec_tick(reset: ResetState, current: Generation, status: LoadStatus) -> TickDecision {
    match reset {
        ResetState::Reloading { params, .. } => match status {
            LoadStatus::InFlight => TickDecision::Hold,
            LoadStatus::Settled { generation, .. } => if generation == current {
                TickDecision::Hold
            } else {
                TickDecision::Consume { params, generation }
            },
        },
        _ => TickDecision::Run,
    }
}

/// The load handoff agrees with the reset request: a publish that the guard would consume took
/// the arm exactly when the reset warps.
pub open spec fn handoff_agrees(reset: ResetState, current: Generation, status: LoadStatus) -> bool {
    match (reset, status) {
        (ResetState::Reloading { params, .. }, LoadStatus::Settled { generation, armed }) => {
            generation != current ==> armed == params.active
        },
        _ => true,
    }
}

/// The `(reset_seq, reset_outcome)` wire values of a reset state.
pub open spec fn spec_reset_wire(reset: ResetState) -> (u32, Outcome) {
    match reset {
        ResetState::Idle => (0, Outcome::Idle),
        ResetState::Requested { seq, .. } => (seq, Outcome::Pending),
        ResetState::Reloading { seq, .. } => (seq, Outcome::Pending),
        ResetState::Done { seq, outcome } => (seq, outcome),
    }
}

impl Lifecycle {
    /// The lifecycle's invariant: an outstanding reset's params can be carried out.
    pub open spec fn wf(&self) -> bool {
        reset_wf(self.reset)
    }

    /// The initial state. No reset has been accepted, the generation is 0 and consumed, and
    /// there are no ECL patches to undo.
    pub fn init() -> (r: Self)
        ensures
            r.wf(),
            r.reset == ResetState::Idle,
            r.current_load == (CurrentLoad { generation: Generation(0), section: 0 }),
            r.last_warp is None,
            !r.placed,
    {
        Lifecycle {
            reset: ResetState::Idle,
            current_load: CurrentLoad { generation: Generation::pre_load(), section: 0 },
            last_warp: None,
            placed: false,
        }
    }

    /// Accepts a decoded RESET command. Returns `false`, changing nothing, if a previous reset is
    /// still outstanding (which means a protocol violation).
    pub fn accept(&mut self, seq: u32, params: PracticeParams) -> (r: bool)
        requires
            old(self).wf(),
            params.wf(),
        ensures
            final(self).wf(),
            r == !reset_pending(old(self).reset),
            final(self).reset == (if r {
                ResetState::Requested { seq, params }
            } else {
                old(self).reset
            }),
            final(self).current_load == old(self).current_load,
            final(self).last_warp == old(self).last_warp,
            final(self).placed == old(self).placed,
    {
        match self.reset {
            ResetState::Requested { .. } | ResetState::Reloading { .. } => false,
            _ => {
                self.reset = ResetState::Requested { seq, params };
                true
            },
        }
    }

    /// Observes one supervisor frame, consuming a settled publish unless a reset reload is in
    /// progress (the tick guard consumes that one).
    pub fn observe(&mut self, status: LoadStatus)
        ensures
            final(self).reset == old(self).reset,
            final(self).last_warp == old(self).last_warp,
            final(self).placed == old(self).placed,
            final(self).current_load == (match status {
                LoadStatus::Settled { generation, .. } => if generation
                    != old(self).current_load.generation && !(old(self).reset is Reloading) {
                    CurrentLoad { generation, section: 0 }
                } else {
                    old(self).current_load
                },
                LoadStatus::InFlight => old(self).current_load,
            }),
    {
        if let LoadStatus::Settled { generation, .. } = status {
            let reloading = match self.reset {
                ResetState::Reloading { .. } => true,
                _ => false,
            };
            if generation != self.current_load.generation && !reloading {
                self.consume_load(generation, 0);
            }
        }
    }

    /// Moves a requested reset to `Reloading` once the game is in stable gameplay and no other
    /// load can publish; returns the writes that start the reload. A reset for another
    /// character, or an inactive reset at a difficulty the live stage does not run at, is
    /// refused and done. Otherwise the state stays as it is and `None` is returned.
    pub fn try_start_reload(
        &mut self,
        stable_ingame: bool,
        status: LoadStatus,
        loader_running: bool,
        current_stage: u32,
        current_character: u32,
    ) -> (r: Option<ReloadPlan>)
        requires
            old(self).wf(),
        ensures
            final(self).wf(),
            (final(self).reset, r) == spec_try_start(
                old(self).reset,
                old(self).current_load.generation,
                stable_ingame,
                status,
                loader_running,
                current_stage,
                current_character,
            ),
            final(self).current_load == old(self).current_load,
            final(self).last_warp == old(self).last_warp,
            final(self).placed == old(self).placed,
    {
        let (seq, params) = match self.reset {
            ResetState::Requested { seq, params } => (seq, params),
            _ => {
                return None;
            },
        };
        let window_open = loader_running || match status {
            LoadStatus::InFlight => true,
            LoadStatus::Settled { generation, .. } => generation != self.current_load.generation,
        };
        if !stable_ingame || window_open {
            return None;
        }
        if params.character != current_character {
            self.reset = ResetState::Done { seq, outcome: Outcome::FailedCharacterMismatch };
            return None;
        }
        if !params.active && !rank_matches_stage(current_stage, params.difficulty) {
            self.reset = ResetState::Done { seq, outcome: Outcome::FailedDifficultyMismatch };
            return None;
        }
        self.reset = ResetState::Reloading { seq, params };
        let stage_select = if params.active {
            section_stage(params.section)
        } else {
            None
        };
        Some(
            ReloadPlan { stage_select, difficulty: params.difficulty, arms_load: params.active },
        )
    }

    /// Decides the tick guard's action. The handoff must agree with the request (a reload's
    /// publish took the arm exactly when the reset warps).
    pub fn tick_decision(&self, status: LoadStatus) -> (r: TickDecision)
        requires
            handoff_agrees(self.reset, self.current_load.generation, status),
        ensures
            r == spec_tick(self.reset, self.current_load.generation, status),
    {
        let params = match self.reset {
            ResetState::Reloading { params, .. } => params,
            _ => {
                return TickDecision::Run;
            },
        };
        match status {
            LoadStatus::InFlight => TickDecision::Hold,
            LoadStatus::Settled { generation, .. } => {
                if generation == self.current_load.generation {
                    TickDecision::Hold
                } else {
                    TickDecision::Consume { params, generation }
                }
            },
        }
    }

    /// The params of a reload whose publish the guard will consume, while the player has not
    /// been placed for it yet.
    pub fn pending_consume(&self, status: LoadStatus) -> (r: Option<PracticeParams>)
        ensures
            r == (match spec_tick(self.reset, self.current_load.generation, status) {
                TickDecision::Consume { params, .. } => if self.placed {
                    None
                } else {
                    Some(params)
                },
                _ => None,
            }),
    {
        if self.placed {
            return None;
        }
        match self.reset {
            ResetState::Reloading { params, .. } => match status {
                LoadStatus::Settled { generation, .. } => {
                    if generation != self.current_load.generation {
                        Some(params)
                    } else {
                        None
                    }
                },
                LoadStatus::InFlight => None,
            },
            _ => None,
        }
    }

    /// Records that the player was placed for the pending consume.
    pub fn mark_placed(&mut self)
        ensures
            final(self).placed,
            final(self).reset == old(self).reset,
            final(self).current_load == old(self).current_load,
            final(self).last_warp == old(self).last_warp,
    {
        self.placed = true;
    }

    /// Postpones the pending consume to a later tick: the player is placed again for it.
    pub fn defer_consume(&mut self)
        ensures
            !final(self).placed,
            final(self).reset == old(self).reset,
            final(self).current_load == old(self).current_load,
            final(self).last_warp == old(self).last_warp,
    {
        self.placed = false;
    }

    /// Consumes the reload's publish `generation` with `section` applied and reports `outcome`:
    /// `Reloading` becomes `Done`.
    pub fn finish_reload(&mut self, generation: Generation, outcome: Outcome, section: u32)
        requires
            old(self).wf(),
        ensures
            final(self).wf(),
            final(self).current_load == (CurrentLoad { generation, section }),
            final(self).reset == (match old(self).reset {
                ResetState::Reloading { seq, .. } => ResetState::Done { seq, outcome },
                other => other,
            }),
            final(self).last_warp == old(self).last_warp,
            !final(self).placed,
    {
        self.consume_load(generation, section);
        self.placed = false;
        if let ResetState::Reloading { seq, .. } = self.reset {
            self.reset = ResetState::Done { seq, outcome };
        }
    }

    fn consume_load(&mut self, generation: Generation, section: u32)
        ensures
            final(self).current_load == (CurrentLoad { generation, section }),
            final(self).reset == old(self).reset,
            final(self).last_warp == old(self).last_warp,
            final(self).placed == old(self).placed,
    {
        self.current_load = CurrentLoad { generation, section };
    }

    /// Returns the `(load_generation, reset_seq, reset_outcome, applied_section)` wire values.
    pub fn wire(&self) -> (r: (Generation, u32, Outcome, u32))
        ensures
            r == (
                self.current_load.generation,
                spec_reset_wire(self.reset).0,
                spec_reset_wire(self.reset).1,
                self.current_load.section,
            ),
    {
        let (reset_seq, reset_outcome) = match self.reset {
            ResetState::Idle => (0, Outcome::Idle),
            ResetState::Requested { seq, .. } => (seq, Outcome::Pending),
            ResetState::Reloading { seq, .. } => (seq, Outcome::Pending),
            ResetState::Done { seq, outcome } => (seq, outcome),
        };
        (self.current_load.generation, reset_seq, reset_outcome, self.current_load.section)
    }
}

/// A reset stays outstanding, and is reported `Pending`, from its acceptance until its reload
/// is finished or it is refused: starting the reload never reports an outcome, and only a
/// character or difficulty mismatch ends the request without a reload.
pub proof fn lemma_start_keeps_or_refuses(
    reset: ResetState,
    current: Generation,
    stable_ingame: bool,
    status: LoadStatus,
    loader_running: bool,
    current_stage: u32,
    current_character: u32,
)
    requires
        reset is Requested,
    ensures
        ({
            let (next, plan) = spec_try_start(
                reset,
                current,
                stable_ingame,
                status,
                loader_running,
                current_stage,
                current_character,
            );
            &&& plan is Some <==> next is Reloading
            &&& plan is Some ==> spec_reset_wire(next) == spec_reset_wire(reset)
            &&& plan is None ==> (next == reset || next == ResetState::Done {
                seq: reset->Requested_seq,
                outcome: Outcome::FailedCharacterMismatch,
            } || next == ResetState::Done {
                seq: reset->Requested_seq,
                outcome: Outcome::FailedDifficultyMismatch,
            })
            &&& (!stable_ingame || load_window_open(status, loader_running, current)) ==> next
                == reset
        }),
{
}

/// Once a reload is finished, the guard lets every tick run until the next reset starts
/// reloading, whatever the handoff reports.
pub proof fn lemma_finished_reload_runs(
    reset: ResetState,
    generation: Generation,
    outcome: Outcome,
    status: LoadStatus,
)
    requires
        reset is Reloading,
    ensures
        spec_tick(
            ResetState::Done { seq: reset->Reloading_seq, outcome },
            generation,
            status,
        ) == TickDecision::Run,
{
}

/// The guard never consumes the publish it already consumed: with the consumed generation
/// settled, a reload is held rather than consumed again.
pub proof fn lemma_consumed_publish_held(reset: ResetState, current: Generation, armed: bool)
    ensures
        spec_tick(reset, current, LoadStatus::Settled { generation: current, armed }) !is Consume,
{
}

/// A warp reset starts its reload whatever stage is live: in a stable frame with no load
/// window open and the requested character, a requested warp becomes `Reloading` with a plan
/// that selects the warp section's stage, sets the requested difficulty and arms the load. The
/// live stage plays no part: the outcome is the same for any two live stages.
pub proof fn lemma_warp_reload_starts(
    seq: u32,
    params: PracticeParams,
    current: Generation,
    status: LoadStatus,
    loader_running: bool,
    live_stage: u32,
    other_stage: u32,
)
    requires
        params.wf(),
        params.active,
        !load_window_open(status, loader_running, current),
    ensures
        ({
            let reset = ResetState::Requested { seq, params };
            let (next, plan) = spec_try_start(
                reset,
                current,
                true,
                status,
                loader_running,
                live_stage,
                params.character,
            );
            &&& next == ResetState::Reloading { seq, params }
            &&& plan matches Some(p) && p.stage_select == spec_section_stage(params.section)
                && p.stage_select is Some && p.difficulty == params.difficulty && p.arms_load
            &&& spec_try_start(
                reset,
                current,
                true,
                status,
                loader_running,
                other_stage,
                params.character,
            ) == (next, plan)
        }),
{
}

/// A restart of the live stage (a reset without a warp) is refused for a difficulty mismatch
/// exactly when the requested difficulty cannot run the live stage; otherwise it reloads
/// without arming the load or selecting a stage.
pub proof fn lemma_restart_checks_live_difficulty(
    seq: u32,
    params: PracticeParams,
    current: Generation,
    status: LoadStatus,
    loader_running: bool,
    live_stage: u32,
)
    requires
        !params.active,
        !load_window_open(status, loader_running, current),
    ensures
        ({
            let (next, plan) = spec_try_start(
                ResetState::Requested { seq, params },
                current,
                true,
                status,
                loader_running,
                live_stage,
                params.character,
            );
            &&& !spec_rank_matches_stage(live_stage, params.difficulty) ==> next
                == ResetState::Done { seq, outcome: Outcome::FailedDifficultyMismatch } && plan is None
            &&& spec_rank_matches_stage(live_stage, params.difficulty) ==> next
                == ResetState::Reloading { seq, params } && plan == Some(
                ReloadPlan { stage_select: None, difficulty: params.difficulty, arms_load: false },
            )
        }),
{
}

} // verus!
