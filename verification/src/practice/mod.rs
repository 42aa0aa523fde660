//! Practice navigation, stage-load tracking and the reset lifecycle.
//!
//! This module holds the RESET command's parameter block: its wire layout, validation and
//! clamping.

pub mod catalog;
pub mod chapter;
pub mod data;
pub mod ecl;
pub mod hit;
pub mod load;
pub mod machine;
pub mod warps;

use crate::bytes::{le_i32, le_i64, le_u32, read_i32_le, read_i64_le, read_u32_le};
use crate::input::{Action, action_bits_ok};
use catalog::{apply_section, run_prims};
use chapter::{ChapterIntent, no_intent};
use ecl::{Ecl, EclError, EclFiles, FilesView, spec_revert, spec_select};
use hit::HitState;
use load::{Generation, LoadHandoff, LoadStatus, PerLoad, load_generation};
use machine::{
    CurrentLoad, Lifecycle, LiveWarp, Outcome, ReloadPlan, ResetState, TickDecision,
    spec_reset_wire, spec_tick, spec_try_start, handoff_agrees,
};
use crate::thread::MainThread;
use data::{
    EXTRA_DIFFICULTY, spec_section_prims, MAX_CHARACTER, rank_matches_stage, section_mapped, section_stage,
    spec_rank_matches_stage, spec_section_mapped, spec_section_stage,
};
use vstd::prelude::*;

verus! {

/// A detour handler's decision.
#[derive(Debug, Clone, Copy, PartialEq, Eq, Structural)]
pub enum Verdict {
    /// Fall through into the displaced original path.
    Run,
    /// Divert from the original path (suppress the death, hold the tick, skip the scoring).
    Divert,
}

/// The slowest supported control rate (one decision per second).
pub const MAX_STEP_INTERVAL: u32 = 60;

/// Leave dialogue to the controller instead of skipping it.
pub const FLAG_RAW_DIALOGUE: u32 = 1;
/// Let hits run the game's own death sequence instead of suppressing it. Hits are still counted.
pub const FLAG_REAL_DEATHS: u32 = 2;
/// The reset carries a stage record to apply at the stage start.
pub const FLAG_RECORD: u32 = 4;
pub const KNOWN_FLAGS: u32 = FLAG_RAW_DIALOGUE | FLAG_REAL_DEATHS | FLAG_RECORD;

/// The length of a RESET command's params block.
pub const PARAMS_LEN: usize = 80;

// Byte offsets of the params block's fields (all little-endian).
pub const OFF_SECTION: usize = 0;
pub const OFF_ACTIVE: usize = 4;
pub const OFF_SCORE: usize = 8;
pub const OFF_GRAZE: usize = 16;
pub const OFF_VALUE: usize = 20;
pub const OFF_POWER: usize = 24;
pub const OFF_LIVES: usize = 28;
pub const OFF_LIFE_FRAGMENTS: usize = 32;
pub const OFF_BOMBS: usize = 36;
pub const OFF_BOMB_FRAGMENTS: usize = 40;
pub const OFF_PHASE: usize = 44;
pub const OFF_DIFFICULTY: usize = 48;
pub const OFF_CHARACTER: usize = 52;
pub const OFF_RNG_SEED: usize = 56;
pub const OFF_STEP_INTERVAL: usize = 60;
pub const OFF_FLAGS: usize = 64;
pub const OFF_INITIAL_ACTION: usize = 68;
pub const OFF_PLAYER_X: usize = 72;
pub const OFF_PLAYER_Y: usize = 76;

/// A decoded RESET parameter block.
#[derive(Debug, Clone, Copy, PartialEq, Eq, Structural)]
pub struct PracticeParams {
    /// Whether to warp to `section` and `phase` at the next stage load.
    pub active: bool,
    /// The warp target ID. Read only when `active`.
    pub section: u32,
    /// The sub-phase within the section. Read only when `active`.
    pub phase: u32,
    /// The difficulty (0–4) applied at the reset. 4 = Extra.
    pub difficulty: u32,
    /// The character (0–3) required by the reset.
    pub character: u32,
    pub score: i64,
    pub graze: i32,
    pub value: i32,
    pub power: i32,
    pub lives: i32,
    pub life_fragments: i32,
    pub bombs: i32,
    pub bomb_fragments: i32,
    pub rng_seed: u16,
    /// Game frames per RL step for this episode (1–[`MAX_STEP_INTERVAL`]).
    pub step_interval: u32,
    /// Episode behavior flags; see the `FLAG_*` constants.
    pub flags: u32,
    /// The action held from the reset's acceptance until the driver's first ACT.
    pub initial_action: u32,
    /// The IEEE-754 single-precision bits of the player's start position.
    pub player_x_bits: u32,
    pub player_y_bits: u32,
}

/// Whether a single-precision bit pattern is finite: its exponent field is not all ones.
pub open spec fn f32_bits_finite(bits: u32) -> bool {
    bits / 0x80_0000 % 0x100 != 0xff
}

/// `x` limited to `lo..=hi`.
pub open spec fn clamp(x: int, lo: int, hi: int) -> int {
    if x < lo {
        lo
    } else if x > hi {
        hi
    } else {
        x
    }
}

/// The most life fragments at a difficulty: 5 per life in Extra, 3 elsewhere.
pub open spec fn max_life_fragments(difficulty: u32) -> int {
    if difficulty == EXTRA_DIFFICULTY {
        5
    } else {
        3
    }
}

/// Whether `b` is a valid params block.
pub open spec fn params_valid(b: Seq<u8>) -> bool {
    let difficulty = le_i32(b, OFF_DIFFICULTY as int);
    let character = le_i32(b, OFF_CHARACTER as int);
    let section = le_u32(b, OFF_SECTION as int);
    let phase = le_u32(b, OFF_PHASE as int);
    let step_interval = le_u32(b, OFF_STEP_INTERVAL as int);
    &&& b.len() == PARAMS_LEN
    &&& 0 <= difficulty <= EXTRA_DIFFICULTY
    &&& 0 <= character <= MAX_CHARACTER
    &&& le_u32(b, OFF_RNG_SEED as int) <= 0xFFFF
    &&& 1 <= step_interval <= MAX_STEP_INTERVAL
    &&& le_u32(b, OFF_FLAGS as int) & !KNOWN_FLAGS == 0
    &&& action_bits_ok(le_u32(b, OFF_INITIAL_ACTION as int))
    &&& f32_bits_finite(le_u32(b, OFF_PLAYER_X as int))
    &&& f32_bits_finite(le_u32(b, OFF_PLAYER_Y as int))
    &&& le_u32(b, OFF_ACTIVE as int) != 0 ==> {
        &&& spec_section_stage(section) is Some
        &&& spec_rank_matches_stage(spec_section_stage(section)->0, difficulty as u32)
        &&& spec_section_mapped(section, phase)
    }
}

/// The params that a valid block `b` decodes to, with the resources clamped to their ranges.
pub open spec fn params_decoded(b: Seq<u8>) -> PracticeParams {
    let difficulty = le_i32(b, OFF_DIFFICULTY as int) as u32;
    PracticeParams {
        active: le_u32(b, OFF_ACTIVE as int) != 0,
        section: le_u32(b, OFF_SECTION as int),
        phase: le_u32(b, OFF_PHASE as int),
        difficulty,
        character: le_i32(b, OFF_CHARACTER as int) as u32,
        score: clamp(le_i64(b, OFF_SCORE as int) as int, 0, 9_999_999_990) as i64,
        graze: clamp(le_i32(b, OFF_GRAZE as int) as int, 0, 999_999) as i32,
        value: clamp(le_i32(b, OFF_VALUE as int) as int, 0, 999_990) as i32,
        power: clamp(le_i32(b, OFF_POWER as int) as int, 0, 400) as i32,
        lives: clamp(le_i32(b, OFF_LIVES as int) as int, 0, 8) as i32,
        life_fragments: clamp(
            le_i32(b, OFF_LIFE_FRAGMENTS as int) as int,
            0,
            max_life_fragments(difficulty),
        ) as i32,
        bombs: clamp(le_i32(b, OFF_BOMBS as int) as int, 0, 8) as i32,
        bomb_fragments: clamp(le_i32(b, OFF_BOMB_FRAGMENTS as int) as int, 0, 4) as i32,
        rng_seed: le_u32(b, OFF_RNG_SEED as int) as u16,
        step_interval: le_u32(b, OFF_STEP_INTERVAL as int),
        flags: le_u32(b, OFF_FLAGS as int),
        initial_action: le_u32(b, OFF_INITIAL_ACTION as int),
        player_x_bits: le_u32(b, OFF_PLAYER_X as int),
        player_y_bits: le_u32(b, OFF_PLAYER_Y as int),
    }
}

fn clamp_i32(x: i32, lo: i32, hi: i32) -> (r: i32)
    requires
        lo <= hi,
    ensures
        r == clamp(x as int, lo as int, hi as int),
{
    if x < lo {
        lo
    } else if x > hi {
        hi
    } else {
        x
    }
}

fn f32_bits_are_finite(bits: u32) -> (r: bool)
    ensures
        r == f32_bits_finite(bits),
{
    bits / 0x80_0000 % 0x100 != 0xff
}

impl PracticeParams {
    /// Whether the params can be carried out as parsed: an active warp names a dispatchable
    /// `(section, phase)` pair on a stage that runs at the difficulty, and the step interval is
    /// in range.
    pub open spec fn wf(&self) -> bool {
        &&& 1 <= self.step_interval <= MAX_STEP_INTERVAL
        &&& 0 <= self.score <= 9_999_999_990
        &&& 0 <= self.graze <= 999_999
        &&& 0 <= self.value <= 999_990
        &&& 0 <= self.power <= 400
        &&& 0 <= self.lives <= 8
        &&& 0 <= self.life_fragments <= 5
        &&& 0 <= self.bombs <= 8
        &&& 0 <= self.bomb_fragments <= 4
        &&& self.active ==> {
            &&& spec_section_mapped(self.section, self.phase)
            &&& spec_section_stage(self.section) is Some
            &&& spec_rank_matches_stage(spec_section_stage(self.section)->0, self.difficulty)
        }
    }

    /// The action held from the reset's acceptance until the driver's first ACT.
    pub fn initial_action(&self) -> (r: u32)
        ensures
            r == self.initial_action,
    {
        self.initial_action
    }

    /// Whether the episode flags include `flag`.
    pub fn has_flag(&self, flag: u32) -> (r: bool)
        ensures
            r == (self.flags & flag != 0),
    {
        self.flags & flag != 0
    }

    /// Validates and decodes a RESET command's params block. Returns `None` on a protocol
    /// violation: a wrong length, a difficulty or character out of range, an RNG seed wider
    /// than 16 bits, a step interval outside `1..=MAX_STEP_INTERVAL`, an unknown flag, an initial
    /// action outside the action mask, a non-finite start position, or (for an active warp) a
    /// section that is not on a stage runnable at the difficulty or that has no warp for the
    /// phase. The resources are clamped to their ranges.
    pub fn parse(payload: &[u8]) -> (r: Option<Self>)
        ensures
            r is Some <==> params_valid(payload@),
            r matches Some(p) ==> p == params_decoded(payload@) && p.wf(),
    {
        if payload.len() != PARAMS_LEN {
            return None;
        }
        let difficulty = read_i32_le(payload, OFF_DIFFICULTY);
        let character = read_i32_le(payload, OFF_CHARACTER);
        if difficulty < 0 || character < 0 {
            return None;
        }
        let difficulty = difficulty as u32;
        let character = character as u32;
        if difficulty > EXTRA_DIFFICULTY || character > MAX_CHARACTER {
            return None;
        }
        let rng_seed = read_u32_le(payload, OFF_RNG_SEED);
        if rng_seed > 0xFFFF {
            return None;
        }
        let step_interval = read_u32_le(payload, OFF_STEP_INTERVAL);
        if step_interval < 1 || step_interval > MAX_STEP_INTERVAL {
            return None;
        }
        let flags = read_u32_le(payload, OFF_FLAGS);
        if flags & !KNOWN_FLAGS != 0 {
            return None;
        }
        let initial_action = read_u32_le(payload, OFF_INITIAL_ACTION);
        if Action::from_wire(initial_action).is_none() {
            return None;
        }
        let player_x_bits = read_u32_le(payload, OFF_PLAYER_X);
        let player_y_bits = read_u32_le(payload, OFF_PLAYER_Y);
        if !(f32_bits_are_finite(player_x_bits) && f32_bits_are_finite(player_y_bits)) {
            return None;
        }

        let section = read_u32_le(payload, OFF_SECTION);
        let phase = read_u32_le(payload, OFF_PHASE);
        let active = read_u32_le(payload, OFF_ACTIVE) != 0;
        if active {
            let stage = match section_stage(section) {
                Some(stage) => stage,
                None => return None,
            };
            if !rank_matches_stage(stage, difficulty) {
                return None;
            }
            if !section_mapped(section, phase) {
                return None;
            }
        }

        let score = read_i64_le(payload, OFF_SCORE);
        let score = if score < 0 {
            0
        } else if score > 9_999_999_990 {
            9_999_999_990
        } else {
            score
        };
        let graze = clamp_i32(read_i32_le(payload, OFF_GRAZE), 0, 999_999);
        let value = clamp_i32(read_i32_le(payload, OFF_VALUE), 0, 999_990);
        let power = clamp_i32(read_i32_le(payload, OFF_POWER), 0, 400);
        let lives = clamp_i32(read_i32_le(payload, OFF_LIVES), 0, 8);
        // 5 fragments per life in Extra; 3 fragments per life elsewhere
        let life_fragments = clamp_i32(
            read_i32_le(payload, OFF_LIFE_FRAGMENTS),
            0,
            if difficulty == EXTRA_DIFFICULTY {
                5
            } else {
                3
            },
        );
        let bombs = clamp_i32(read_i32_le(payload, OFF_BOMBS), 0, 8);
        let bomb_fragments = clamp_i32(read_i32_le(payload, OFF_BOMB_FRAGMENTS), 0, 4);

        Some(
            PracticeParams {
                active,
                section,
                phase,
                difficulty,
                character,
                score,
                graze,
                value,
                power,
                lives,
                life_fragments,
                bombs,
                bomb_fragments,
                rng_seed: rng_seed as u16,
                step_interval,
                flags,
                initial_action,
                player_x_bits,
                player_y_bits,
            },
        )
    }
}

/// A reset whose params parsed can always be carried out: an active warp names a dispatchable
/// `(section, phase)` pair on a stage that runs at the reset's difficulty.
pub proof fn lemma_parsed_warp_dispatches(b: Seq<u8>)
    requires
        params_valid(b),
        params_decoded(b).active,
    ensures
        spec_section_mapped(params_decoded(b).section, params_decoded(b).phase),
        spec_section_stage(params_decoded(b).section) is Some,
        spec_rank_matches_stage(
            spec_section_stage(params_decoded(b).section)->0,
            params_decoded(b).difficulty,
        ),
{
}

/// Parsed resources lie in their ranges, so the game's 32-bit stores of `score / 10` and
/// `value * 100` cannot overflow.
pub proof fn lemma_parsed_resources_in_range(b: Seq<u8>)
    requires
        params_valid(b),
    ensures
        0 <= params_decoded(b).score <= 9_999_999_990,
        params_decoded(b).score / 10 <= u32::MAX,
        0 <= params_decoded(b).value * 100 <= i32::MAX,
        0 <= params_decoded(b).lives <= 8,
        0 <= params_decoded(b).life_fragments <= 5,
        params_decoded(b).difficulty <= EXTRA_DIFFICULTY,
        params_decoded(b).character <= MAX_CHARACTER,
        1 <= params_decoded(b).step_interval <= MAX_STEP_INTERVAL,
{
}


// ---------------------------------------------------------------------------------------------
// The episode: what the hooks decide on each frame and tick.

/// The number of frames between RL steps.
pub const READ_INTERVAL: u32 = 3;

/// The length of a stage record plus its run's info block.
pub const RECORD_LEN: usize = 0x2dc;
/// Where the globals image starts in a record.
pub const RECORD_GLOBALS: usize = 0x14;
/// Where the player's start position (two `i32`, 1/128 units) lies in a record.
pub const RECORD_PLAYER_POS: usize = 0xc;
/// Where the game thread image starts in a record's info block.
pub const INFO_GAME_THREAD: usize = 0x250;
/// The length of the globals image.
pub const GLOBALS_INNER_LEN: usize = 0x1cc;
/// The offset of the game thread image inside the game thread object.
pub const GAME_THREAD_INNER: usize = 0x24;
/// The length of the game thread image.
pub const GAME_THREAD_INNER_LEN: usize = 0x6c;

/// The practice state that lives on the main thread.
pub struct Practice {
    pub lifecycle: Lifecycle,
    /// The committed warp's chapter intent.
    pub scheduled: PerLoad<ChapterIntent>,
    /// The number of live stage frames the input hook has seen for each load.
    pub stage_frames: PerLoad<u32>,
    /// Game frames per RL step for each load.
    pub step_interval: PerLoad<u32>,
    /// Each load's episode flags (`FLAG_*`).
    pub flags: PerLoad<u32>,
    pub hits: HitState,
    /// The record of the reset in flight: `Some` iff the pending reset's params carry
    /// [`FLAG_RECORD`].
    pub pending_record: Option<Vec<u8>>,
}

/// The values that a landed reset writes to the game's resource words.
#[derive(Debug, Clone, Copy, PartialEq, Eq, Structural)]
pub struct ResourceWrites {
    pub score_div10: u32,
    pub graze: u32,
    pub value: u32,
    pub power: u32,
    pub lives: u32,
    pub life_fragments: u32,
    pub bombs: u32,
    pub bomb_fragments: u32,
}

/// What the tick guard did with a tick.
#[derive(Debug, Clone, Copy, PartialEq, Eq, Structural)]
pub struct TickPlan {
    /// Whether the tick body runs.
    pub verdict: Verdict,
    /// The params of a reset that landed on this tick: the caller writes its resources, applies
    /// the taken record, and seeds the RNGs.
    pub landed: Option<PracticeParams>,
}

/// A tick left alone or held, with nothing to write.
pub open spec fn plain_tick(verdict: Verdict) -> TickPlan {
    TickPlan { verdict, landed: None }
}

/// The files after reverting the live warp, when the warp belongs to the loaded stage and the
/// file array resolves.
pub open spec fn reverted_files(
    files: FilesView,
    last_warp: Option<LiveWarp>,
    current_stage: u32,
    resolved: bool,
) -> FilesView {
    match last_warp {
        Some(w) => if w.stage == current_stage && resolved {
            spec_revert(files, w.undo@)
        } else {
            files
        },
        None => files,
    }
}

/// The live warp record after the revert step: dropped once reverted or once the loaded stage
/// is another one, kept if the file array did not resolve.
pub open spec fn reverted_warp(
    last_warp: Option<LiveWarp>,
    current_stage: u32,
    resolved: bool,
) -> Option<LiveWarp> {
    match last_warp {
        Some(w) => if w.stage == current_stage && !resolved {
            last_warp
        } else {
            None
        },
        None => None,
    }
}

/// Reverts the previous warp's patches if its stage is the loaded stage. The record is kept
/// only if the file array did not resolve (nothing was attempted).
pub fn revert_previous_warp(
    current_stage: u32,
    last_warp: &mut Option<LiveWarp>,
    files: &mut EclFiles,
    resolved: bool,
)
    requires
        old(files).wf(),
    ensures
        final(files).wf(),
        final(files)@ == reverted_files(old(files)@, *old(last_warp), current_stage, resolved),
        *final(last_warp) == reverted_warp(*old(last_warp), current_stage, resolved),
{
    let live = match last_warp.take() {
        Some(live) => live,
        None => {
            return;
        },
    };
    if live.stage != current_stage {
        return;
    }
    if !resolved {
        *last_warp = Some(live);
        return;
    }
    live.undo.revert(files);
}

/// What an active warp's attempt gives: the files it leaves, and the outcome with the applied
/// section, or the failure of one of its patches.
pub open spec fn spec_warp(files: FilesView, params: PracticeParams, stage: u32) -> (
    FilesView,
    Result<(Outcome, u32), EclError>,
) {
    if spec_section_stage(params.section) != Some(stage) {
        (files, Ok((Outcome::FailedStageMismatch, 0)))
    } else {
        match spec_select(files, 0) {
            Err(_) => (files, Ok((Outcome::FailedNoEcl, 0))),
            Ok(c) => {
                let (f, res) = run_prims(
                    files,
                    c,
                    no_intent(),
                    spec_section_prims(params.section, params.phase)->0,
                );
                match res {
                    Ok(_) => (f, Ok((Outcome::Applied, params.section))),
                    Err(e) => (f, Err(e)),
                }
            },
        }
    }
}

/// The chapter intent that an applied warp schedules.
pub open spec fn spec_warp_intent(files: FilesView, params: PracticeParams) -> ChapterIntent {
    let (_, res) = run_prims(
        files,
        spec_select(files, 0)->Ok_0,
        no_intent(),
        spec_section_prims(params.section, params.phase)->0,
    );
    res->Ok_0.1
}

/// Patches the loaded ECL to the requested section when the reload landed on the section's
/// stage, schedules the warp's chapter intent for `generation`, and records the patches as the
/// live warp. Reverting that record gives back the files as they were before the warp.
pub fn apply_warp(
    thread: MainThread,
    stage: u32,
    generation: Generation,
    params: &PracticeParams,
    last_warp: &mut Option<LiveWarp>,
    files: &mut EclFiles,
    scheduled: &mut PerLoad<ChapterIntent>,
) -> (r: Result<(Outcome, u32), EclError>)
    requires
        params.wf(),
        params.active,
        old(files).wf(),
    ensures
        final(files).wf(),
        (final(files)@, r) == spec_warp(old(files)@, *params, stage),
        final(scheduled).fresh() == old(scheduled).fresh(),
        r == Ok::<(Outcome, u32), EclError>((Outcome::Applied, params.section))
            ==> final(scheduled).stored() == Some(
            (generation, spec_warp_intent(old(files)@, *params)),
        ),
        r != Ok::<(Outcome, u32), EclError>((Outcome::Applied, params.section))
            ==> final(scheduled).stored() == old(scheduled).stored(),
        r is Err || r == Ok::<(Outcome, u32), EclError>((Outcome::Applied, params.section)) ==> {
            &&& *final(last_warp) is Some
            &&& (*final(last_warp))->0.stage == stage
            &&& spec_revert(final(files)@, (*final(last_warp))->0.undo@) == old(files)@
        },
        r matches Ok((o, _)) && o != Outcome::Applied ==> *final(last_warp) == *old(last_warp),
{
    if section_stage(params.section) != Some(stage) {
        return Ok((Outcome::FailedStageMismatch, 0));
    }
    let mut ecl = match Ecl::new(files) {
        Some(ecl) => ecl,
        None => {
            return Ok((Outcome::FailedNoEcl, 0));
        },
    };
    let applied = apply_section(&mut ecl, files, params.section, params.phase);
    proof {
        ecl::lemma_ecl_revert_restores(ecl, files@);
    }
    let undo = ecl.take_undo();
    *last_warp = Some(LiveWarp { stage, undo });
    match applied {
        Ok(intent) => {
            intent.schedule(scheduled, thread, generation);
            Ok((Outcome::Applied, params.section))
        },
        Err(e) => Err(e),
    }
}

impl Practice {
    /// The state before any load: no reset, no warp, no hits, the default step interval.
    pub fn new() -> (r: Self)
        ensures
            r.wf(),
            r.lifecycle.reset == ResetState::Idle,
            r.lifecycle.current_load == (CurrentLoad { generation: Generation(0), section: 0 }),
            r.lifecycle.last_warp is None,
            forall|g: Generation|
                {
                    &&& r.scheduled.value_at(g) == no_intent()
                    &&& r.stage_frames.value_at(g) == 0
                    &&& r.step_interval.value_at(g) == READ_INTERVAL
                    &&& r.flags.value_at(g) == 0
                    &&& r.hits.hits.value_at(g) == 0
                },
            r.pending_record is None,
    {
        Practice {
            lifecycle: Lifecycle::init(),
            scheduled: PerLoad::new(ChapterIntent::none()),
            stage_frames: PerLoad::new(0),
            step_interval: PerLoad::new(READ_INTERVAL),
            flags: PerLoad::new(0),
            hits: HitState::new(),
            pending_record: None,
        }
    }

    pub open spec fn wf(&self) -> bool {
        self.lifecycle.wf()
    }

    /// The tick guard, on every game tick. Runs the tick unless a reload is in progress; holds
    /// it until the reload publishes; on the publish's first tick (with the GUI up) reverts the
    /// previous warp, applies the new one if the reset warps, and consumes the load. A landed
    /// reset holds this tick once more and returns its params so that the caller writes the
    /// starting resources, applies the stage record and seeds the RNGs; a failed reset lets the
    /// tick run. The pending record is taken in either case.
    pub fn guard_tick(
        &mut self,
        thread: MainThread,
        status: LoadStatus,
        gui_present: bool,
        stage: u32,
        files: &mut EclFiles,
        resolved: bool,
    ) -> (r: Result<(TickPlan, Option<Vec<u8>>), EclError>)
        requires
            old(self).wf(),
            old(files).wf(),
            handoff_agrees(old(self).lifecycle.reset, old(self).lifecycle.current_load.generation, status),
        ensures
            final(self).wf(),
            final(files).wf(),
            match spec_tick(old(self).lifecycle.reset, old(self).lifecycle.current_load.generation, status) {
                TickDecision::Run => r == Ok::<(TickPlan, Option<Vec<u8>>), EclError>((plain_tick(Verdict::Run), None))
                    && *final(self) == *old(self) && final(files)@ == old(files)@,
                TickDecision::Hold => r == Ok::<(TickPlan, Option<Vec<u8>>), EclError>((plain_tick(Verdict::Divert), None))
                    && *final(self) == *old(self) && final(files)@ == old(files)@,
                TickDecision::Consume { params, generation } => if !gui_present {
                    &&& r == Ok::<(TickPlan, Option<Vec<u8>>), EclError>((plain_tick(Verdict::Divert), None))
                    &&& final(files)@ == old(files)@
                    &&& final(self).lifecycle.reset == old(self).lifecycle.reset
                    &&& final(self).lifecycle.current_load == old(self).lifecycle.current_load
                    &&& !final(self).lifecycle.placed
                } else {
                    let f1 = reverted_files(old(files)@, old(self).lifecycle.last_warp, stage, resolved);
                    let (f2, res) = if params.active {
                        spec_warp(f1, params, stage)
                    } else {
                        (f1, Ok((Outcome::Vanilla, 0u32)))
                    };
                    &&& final(files)@ == f2
                    &&& match res {
                        Err(e) => r == Err::<(TickPlan, Option<Vec<u8>>), EclError>(e),
                        Ok((outcome, section)) => {
                            let landed = outcome == Outcome::Applied || outcome == Outcome::Vanilla;
                            &&& r is Ok
                            &&& r->Ok_0.0 == (if landed {
                                TickPlan { verdict: Verdict::Divert, landed: Some(params) }
                            } else {
                                plain_tick(Verdict::Run)
                            })
                            &&& r->Ok_0.1 == old(self).pending_record
                            &&& final(self).pending_record is None
                            &&& final(self).lifecycle.current_load == (CurrentLoad { generation, section })
                            &&& final(self).lifecycle.reset == ResetState::Done {
                                seq: old(self).lifecycle.reset->Reloading_seq,
                                outcome,
                            }
                            &&& landed ==> final(self).step_interval.value_at(generation) == params.step_interval
                                && final(self).flags.value_at(generation) == params.flags
                            &&& !landed ==> final(self).step_interval == old(self).step_interval
                                && final(self).flags == old(self).flags
                        },
                    }
                    &&& (params.active && (res is Err || res == Ok::<(Outcome, u32), EclError>(
                        (Outcome::Applied, params.section),
                    ))) ==> reverted_files(final(files)@, final(self).lifecycle.last_warp, stage, true)
                        == f1
                },
            },
    {
        let decision = self.lifecycle.tick_decision(status);
        let (params, generation) = match decision {
            TickDecision::Run => {
                return Ok((TickPlan { verdict: Verdict::Run, landed: None }, None));
            },
            TickDecision::Hold => {
                return Ok((TickPlan { verdict: Verdict::Divert, landed: None }, None));
            },
            TickDecision::Consume { params, generation } => (params, generation),
        };
        if !gui_present {
            self.lifecycle.defer_consume();
            return Ok((TickPlan { verdict: Verdict::Divert, landed: None }, None));
        }
        revert_previous_warp(stage, &mut self.lifecycle.last_warp, files, resolved);
        let (outcome, section) = if params.active {
            apply_warp(
                thread,
                stage,
                generation,
                &params,
                &mut self.lifecycle.last_warp,
                files,
                &mut self.scheduled,
            )?
        } else {
            (Outcome::Vanilla, 0)
        };
        let record = self.pending_record.take();
        let landed = match outcome {
            Outcome::Applied | Outcome::Vanilla => true,
            _ => false,
        };
        if landed {
            self.step_interval.set(thread, generation, params.step_interval);
            self.flags.set(thread, generation, params.flags);
        }
        self.lifecycle.finish_reload(generation, outcome, section);
        let plan = if landed {
            TickPlan { verdict: Verdict::Divert, landed: Some(params) }
        } else {
            TickPlan { verdict: Verdict::Run, landed: None }
        };
        Ok((plan, record))
    }
}


/// What the observation reports about the reset/load lifecycle.
#[derive(Debug, Clone, Copy, PartialEq, Eq, Structural)]
pub struct WireMeta {
    pub load_generation: Generation,
    pub reset_seq: u32,
    pub reset_outcome: Outcome,
    pub applied_section: u32,
    /// The hits counted for the consumed load.
    pub hits: u32,
}

impl WireMeta {
    /// Reads the wire values of the lifecycle and the consumed load's hit count.
    pub fn read(practice: &Practice, thread: MainThread) -> (r: Self)
        ensures
            r.load_generation == practice.lifecycle.current_load.generation,
            r.reset_seq == spec_reset_wire(practice.lifecycle.reset).0,
            r.reset_outcome == spec_reset_wire(practice.lifecycle.reset).1,
            r.applied_section == practice.lifecycle.current_load.section,
            r.hits == practice.hits.hits.value_at(practice.lifecycle.current_load.generation),
    {
        let (load_generation, reset_seq, reset_outcome, applied_section) = practice.lifecycle.wire();
        WireMeta {
            load_generation,
            reset_seq,
            reset_outcome,
            applied_section,
            hits: practice.hits.count(thread, load_generation),
        }
    }
}

/// Observes one supervisor frame, consuming any publish that no reset reload waits for.
pub fn observe_loads(practice: &mut Practice, handoff: &LoadHandoff)
    ensures
        final(practice).wf() == old(practice).wf(),
        final(practice).lifecycle.reset == old(practice).lifecycle.reset,
        final(practice).lifecycle.current_load == (match handoff.spec_status() {
            LoadStatus::Settled { generation, .. } => if generation
                != old(practice).lifecycle.current_load.generation
                && !(old(practice).lifecycle.reset is Reloading) {
                CurrentLoad { generation, section: 0 }
            } else {
                old(practice).lifecycle.current_load
            },
            LoadStatus::InFlight => old(practice).lifecycle.current_load,
        }),
{
    let status = handoff.status();
    practice.lifecycle.observe(status);
}

/// Accepts a decoded RESET command. Returns `false`, changing nothing, if a reset is already
/// outstanding.
pub fn accept_reset(practice: &mut Practice, seq: u32, params: PracticeParams) -> (r: bool)
    requires
        old(practice).wf(),
        params.wf(),
    ensures
        final(practice).wf(),
        r == !machine::reset_pending(old(practice).lifecycle.reset),
        final(practice).lifecycle.reset == (if r {
            ResetState::Requested { seq, params }
        } else {
            old(practice).lifecycle.reset
        }),
        final(practice).lifecycle.current_load == old(practice).lifecycle.current_load,
{
    practice.lifecycle.accept(seq, params)
}

/// Stores the record carried by a just-accepted RESET.
pub fn stash_record(practice: &mut Practice, record: Option<Vec<u8>>)
    ensures
        final(practice).pending_record == record,
        final(practice).lifecycle == old(practice).lifecycle,
{
    practice.pending_record = record;
}

/// Starts a requested reset's reload (see [`Lifecycle::try_start_reload`]): returns the game
/// writes that queue it, and arms the handoff when the reload warps.
pub fn apply_pending_reset(
    practice: &mut Practice,
    handoff: &mut LoadHandoff,
    stable_ingame: bool,
    loader_running: bool,
    current_stage: u32,
    current_character: u32,
) -> (r: Option<ReloadPlan>)
    requires
        old(practice).wf(),
    ensures
        final(practice).wf(),
        (final(practice).lifecycle.reset, r) == spec_try_start(
            old(practice).lifecycle.reset,
            old(practice).lifecycle.current_load.generation,
            stable_ingame,
            old(handoff).spec_status(),
            loader_running,
            current_stage,
            current_character,
        ),
        final(practice).lifecycle.current_load == old(practice).lifecycle.current_load,
        (r matches Some(plan) && plan.arms_load) ==> old(handoff).after_arm(*final(handoff)),
        !(r matches Some(plan) && plan.arms_load) ==> *final(handoff) == *old(handoff),
{
    let status = handoff.status();
    let plan = practice.lifecycle.try_start_reload(
        stable_ingame,
        status,
        loader_running,
        current_stage,
        current_character,
    );
    if let Some(p) = plan {
        if p.arms_load {
            handoff.arm();
        }
    }
    plan
}

/// The player's start position stored in a stage record, in 1/128 units.
pub fn record_start_position(record: &[u8]) -> (r: (i32, i32))
    requires
        record@.len() >= RECORD_LEN,
    ensures
        r == (
            le_i32(record@, RECORD_PLAYER_POS as int),
            le_i32(record@, RECORD_PLAYER_POS + 4),
        ),
{
    (read_i32_le(record, RECORD_PLAYER_POS), read_i32_le(record, RECORD_PLAYER_POS + 4))
}

/// The params of the reset whose consuming tick is due, if the player has not been placed for
/// it yet. The caller places the player (at the record's position if the reset carries one)
/// and then calls [`mark_placed`].
pub fn place_before_consume(practice: &Practice, handoff: &LoadHandoff) -> (r: Option<
    PracticeParams,
>)
    ensures
        r == (match spec_tick(
            practice.lifecycle.reset,
            practice.lifecycle.current_load.generation,
            handoff.spec_status(),
        ) {
            TickDecision::Consume { params, .. } => if practice.lifecycle.placed {
                None
            } else {
                Some(params)
            },
            _ => None,
        }),
{
    let status = handoff.status();
    practice.lifecycle.pending_consume(status)
}

/// Records that the player was placed for the pending consume.
pub fn mark_placed(practice: &mut Practice)
    ensures
        final(practice).lifecycle.placed,
        final(practice).lifecycle.reset == old(practice).lifecycle.reset,
        final(practice).lifecycle.current_load == old(practice).lifecycle.current_load,
        final(practice).wf() == old(practice).wf(),
{
    practice.lifecycle.mark_placed();
}

/// Whether the load `generation` has `flag` among its episode flags.
pub fn episode_flag(practice: &Practice, thread: MainThread, generation: Generation, flag: u32) -> (r:
    bool)
    ensures
        r == (practice.flags.value_at(generation) & flag != 0),
{
    practice.flags.get(thread, generation) & flag != 0
}

/// Whether the frame with index `count` of a load is an RL step at `interval` frames per step.
pub open spec fn step_due(count: u32, interval: u32) -> bool {
    if interval == 0 {
        count == 0
    } else {
        count % interval == 0
    }
}

/// Whether the frame with index `count` is a step at `interval` frames per step.
fn frame_is_step(count: u32, interval: u32) -> (r: bool)
    ensures
        r == step_due(count, interval),
{
    if interval == 0 {
        count == 0
    } else {
        count % interval == 0
    }
}

/// Counts this frame as a live stage frame of the load `generation` and returns whether an RL
/// step is due on it. Returns `None` outside a live stage or until the tick guard has consumed
/// that load.
pub fn stage_step_due(practice: &mut Practice, thread: MainThread, live: bool, generation: Generation) -> (r:
    Option<bool>)
    ensures
        final(practice).lifecycle == old(practice).lifecycle,
        final(practice).step_interval == old(practice).step_interval,
        (!live || old(practice).lifecycle.current_load.generation != generation) ==> r is None
            && final(practice).stage_frames == old(practice).stage_frames,
        (live && old(practice).lifecycle.current_load.generation == generation) ==> {
            &&& r == Some(
                step_due(
                    old(practice).stage_frames.value_at(generation),
                    old(practice).step_interval.value_at(generation),
                ),
            )
            &&& final(practice).stage_frames.value_at(generation)
                == vstd::wrapping::u32_specs::wrapping_add(
                old(practice).stage_frames.value_at(generation),
                1,
            )
        },
{
    if !live {
        return None;
    }
    if practice.lifecycle.current_load.generation != generation {
        return None;
    }
    let interval = practice.step_interval.get(thread, generation);
    let count = practice.stage_frames.get(thread, generation);
    practice.stage_frames.set(thread, generation, count.wrapping_add(1));
    Some(frame_is_step(count, interval))
}

impl PracticeParams {
    /// The starting resources as the game stores them: the score divided by 10 and the value
    /// times 100.
    pub fn resource_writes(&self) -> (r: ResourceWrites)
        requires
            self.wf(),
        ensures
            r.score_div10 == self.score / 10,
            r.graze == self.graze,
            r.value == self.value * 100,
            r.power == self.power,
            r.lives == self.lives,
            r.life_fragments == self.life_fragments,
            r.bombs == self.bombs,
            r.bomb_fragments == self.bomb_fragments,
    {
        ResourceWrites {
            score_div10: (self.score / 10) as u32,
            graze: self.graze as u32,
            value: (self.value * 100) as u32,
            power: self.power as u32,
            lives: self.lives as u32,
            life_fragments: self.life_fragments as u32,
            bombs: self.bombs as u32,
            bomb_fragments: self.bomb_fragments as u32,
        }
    }
}

} // verus!
