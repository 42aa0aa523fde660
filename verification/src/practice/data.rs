//! The ECL warp catalog: section IDs, phases, and the primitive patch stream of each warp.
//!
//! Named sections are `stage * 1000 + category * 100 + n`, where the category is 1 for
//! midbosses and 2 for bosses. Chapter warps are `10000 + stage * 100 + portion`.

use super::warps::{
    WARP_SECTIONS, lemma_st6_boss11_row, lemma_warp_rows_nonempty, lemma_warp_sections_staged, spec_warp,
    warp,
};
use vstd::prelude::*;

verus! {

// Warp target IDs, then ECL file offsets of the stage scripts. `*_START` is a stage script's
// entry-jump site; `*_SPELL_START` / `*_SPELL` are each stage's spell practice jump pair.
pub const ST1_MID1: u32 = 1101;
pub const ST1_MID2: u32 = 1102;
pub const ST1_MID3: u32 = 1103;
pub const ST1_BOSS1: u32 = 1201;
pub const ST1_BOSS2: u32 = 1202;
pub const ST1_BOSS3: u32 = 1203;
pub const ST1_BOSS4: u32 = 1204;
pub const ST2_MID1: u32 = 2101;
pub const ST2_BOSS1: u32 = 2201;
pub const ST2_BOSS2: u32 = 2202;
pub const ST2_BOSS3: u32 = 2203;
pub const ST2_BOSS4: u32 = 2204;
pub const ST2_BOSS5: u32 = 2205;
pub const ST2_BOSS6: u32 = 2206;
pub const ST3_MID1: u32 = 3101;
pub const ST3_MID2: u32 = 3102;
pub const ST3_BOSS1: u32 = 3201;
pub const ST3_BOSS2: u32 = 3202;
pub const ST3_BOSS3: u32 = 3203;
pub const ST3_BOSS4: u32 = 3204;
pub const ST3_BOSS5: u32 = 3205;
pub const ST3_BOSS6: u32 = 3206;
pub const ST3_BOSS7: u32 = 3207;
pub const ST4_MID1: u32 = 4101;
pub const ST4_BOSS1: u32 = 4201;
pub const ST4_BOSS2: u32 = 4202;
pub const ST4_BOSS3: u32 = 4203;
pub const ST4_BOSS4: u32 = 4204;
pub const ST4_BOSS5: u32 = 4205;
pub const ST4_BOSS6: u32 = 4206;
pub const ST4_BOSS7: u32 = 4207;
pub const ST5_MID1: u32 = 5101;
pub const ST5_BOSS1: u32 = 5201;
pub const ST5_BOSS2: u32 = 5202;
pub const ST5_BOSS3: u32 = 5203;
pub const ST5_BOSS4: u32 = 5204;
pub const ST5_BOSS5: u32 = 5205;
pub const ST5_BOSS6: u32 = 5206;
pub const ST5_BOSS7: u32 = 5207;
pub const ST5_BOSS8: u32 = 5208;
pub const ST6_STARS: u32 = 6101;
pub const ST6_BOSS1: u32 = 6201;
pub const ST6_BOSS2: u32 = 6202;
pub const ST6_BOSS3: u32 = 6203;
pub const ST6_BOSS4: u32 = 6204;
pub const ST6_BOSS5: u32 = 6205;
pub const ST6_BOSS6: u32 = 6206;
pub const ST6_BOSS7: u32 = 6207;
pub const ST6_BOSS8: u32 = 6208;
pub const ST6_BOSS9: u32 = 6209;
pub const ST6_BOSS10: u32 = 6210;
pub const ST6_BOSS11: u32 = 6211;
pub const ST7_MID1: u32 = 7101;
pub const ST7_MID2: u32 = 7102;
pub const ST7_MID3: u32 = 7103;
pub const ST7_NS1: u32 = 7201;
pub const ST7_S1: u32 = 7202;
pub const ST7_NS2: u32 = 7203;
pub const ST7_S2: u32 = 7204;
pub const ST7_NS3: u32 = 7205;
pub const ST7_S3: u32 = 7206;
pub const ST7_NS4: u32 = 7207;
pub const ST7_S4: u32 = 7208;
pub const ST7_NS5: u32 = 7209;
pub const ST7_S5: u32 = 7210;
pub const ST7_NS6: u32 = 7211;
pub const ST7_S6: u32 = 7212;
pub const ST7_NS7: u32 = 7213;
pub const ST7_S7: u32 = 7214;
pub const ST7_NS8: u32 = 7215;
pub const ST7_S8: u32 = 7216;
pub const ST7_S9: u32 = 7217;
pub const ST7_S10: u32 = 7218;
pub const ST7_START: u32 = 0x8f6c;
pub const ST7_BOSS_CREATE_CALL: u32 = 0x93cc;
pub const ST7_BS_MOVE_POS_X: u32 = 0x4a8;
pub const ST7_BS_MOVE_POS_Y: u32 = 0x4ac;
pub const ST7_BS_ANM_SELECT: u32 = 0x57c;
pub const ST7_BS_ANM_SET_MAIN_INS: u32 = 0x584;
pub const ST7_BS_ANM_SET_MAIN_ARG2: u32 = 0x594;
pub const ST7_BS_SET_SPRITE_INS: u32 = 0x5d8;
pub const ST7_BS_MOVE_LIMIT_INS: u32 = 0x644;
pub const ST7_BS_ANM_SET_SPRITE1_ARG2: u32 = 0x688;
pub const ST7_BS_ANM_SET_SPRITE2_ARG2: u32 = 0x6a0;
pub const ST7_BS_ANM_SELECT2: u32 = 0x6b4;
pub const ST1_START: u32 = 0x7220;
pub const ST1_SPELL_START: u32 = 0x3b8;
pub const ST1_SPELL: u32 = 0x4a0;
pub const ST2_START: u32 = 0x7444;
pub const ST2_SPELL_START: u32 = 0x40c;
pub const ST2_SPELL: u32 = 0x4f4;
pub const ST3_START: u32 = 0xa258;
pub const ST3_SPELL_START: u32 = 0x448;
pub const ST3_SPELL: u32 = 0x530;
pub const ST4_START: u32 = 0x860c;
pub const ST4_SPELL_START: u32 = 0x41e0;
pub const ST4_SPELL: u32 = 0x42c8;
pub const ST5_START: u32 = 0x9f0c;
pub const ST5_SPELL_START: u32 = 0x528;
pub const ST5_SPELL: u32 = 0x610;
pub const ST6_START: u32 = 0x91d0;
pub const ST6_SPELL_START: u32 = 0x5a0;
pub const ST6_SPELL: u32 = 0x688;
pub const ST6_EFFECT_BLOCK: u32 = 0x63c;
pub const ST5_WAVE_SRC: u32 = 0x70ec;

/// `(entry jump start, boss section destination, boss ECL file)` for stages 1–6.
pub const BOSS_ENTRIES: [(u32, u32, usize); 6] = [
    (ST1_START, 0x768c, 2),
    (ST2_START, 0x7834, 2),
    (ST3_START, 0xa614, 2),
    (ST4_START, 0x89b0, 2),
    (ST5_START, 0xa220, 3),
    (ST6_START, 0x9500, 2),
];

/// `ST5_MID1` wave starts for `phase` 1–6. `0` runs the section's default wave.
pub const ST5_WAVE_DESTS: [u32; 6] = [0x7100, 0x716c, 0x71ec, 0x726c, 0x72ec, 0x736c];

/// `ST6_BOSS11` starting HP tiers for `phase` 1–3. `0` keeps the full 8000.
pub const ST6_BOSS11_HEALTH: [i32; 3] = [5500, 3500, 1200];

/// `ST7_S10` point indices of each boss.
pub const ST7_S10_HECATIA_AT: [u32; 3] = [0x8f30, 0x8f7c, 0x8fc8];
pub const ST7_S10_HECATIA_AT_FRAME: i32 = 94;
pub const ST7_S10_JUNKO_AT: [u32; 3] = [0x0b08, 0x0b54, 0x0ba0];
pub const ST7_S10_JUNKO_AT_FRAME: i32 = 0;

/// `ST7_S9` script offsets and timings.
pub const S9_DURATION: u32 = 0x10408 + 0x18;
pub const S9_TR_START: u32 = 0x104b8;
pub const S9_BLUE_PHASE_TIME: i32 = 120 * 3 + 180 * 5 + 280;

/// Chapter-warp entry-jump start offsets for each stage.
pub const CHAPTER_STARTS: [u32; 7] = [0x7248, 0x74a0, 0xa280, 0x8634, 0x9f34, 0x91f8, 0x8f94];

pub const STAGES: u32 = 7;
pub const EXTRA_STAGE: u32 = 7;
pub const EXTRA_DIFFICULTY: u32 = 4;
/// The highest selectable character index.
pub const MAX_CHARACTER: u32 = 3;

// ---------------------------------------------------------------------------------------------
// Phases

/// The sub-phase of a section, decoded from the wire's `phase` value.
#[derive(Debug, Clone, Copy, PartialEq, Eq, Structural)]
pub enum Phase {
    /// For sections without phases. The wire value must be `0`.
    Plain,
    /// `ST5_MID1` with the wave to start at. `0` = the default wave.
    Wave(u32),
    /// `ST6_BOSS11` with the starting HP tier. `0` = full HP.
    Health(u32),
    /// `ST7_S9` phase. `0` = blue, `1` = green, `2` = red.
    S9(u32),
    /// `ST7_S10` with each boss's starting point index.
    S10 { hecatia: usize, junko: usize },
}

/// The point index selected by one digit of an `ST7_S10` phase: digits `1..=3` select indices
/// `0..=2`; any other digit selects nothing.
pub open spec fn spec_s10_start_index(digit: u32) -> Option<usize> {
    if 1 <= digit <= 3 {
        Some((digit - 1) as usize)
    } else {
        None
    }
}

/// The phase that `phase` denotes for `section`, or `None` if it is not valid there.
pub open spec fn spec_phase_parse(section: u32, phase: u32) -> Option<Phase> {
    if section == ST5_MID1 && phase <= 6 {
        Some(Phase::Wave(phase))
    } else if section == ST6_BOSS11 && phase <= 3 {
        Some(Phase::Health(phase))
    } else if section == ST7_S9 && phase <= 2 {
        Some(Phase::S9(phase))
    } else if section == ST7_S10 && phase == 0 {
        Some(Phase::S10 { hecatia: 0, junko: 0 })
    } else if section == ST7_S10 {
        match (spec_s10_start_index(phase / 10), spec_s10_start_index(phase % 10)) {
            (Some(hecatia), Some(junko)) => Some(Phase::S10 { hecatia, junko }),
            _ => None,
        }
    } else if phase == 0 {
        Some(Phase::Plain)
    } else {
        None
    }
}

/// Whether every index that a phase selects is within its table.
pub open spec fn phase_in_range(phase: Phase) -> bool {
    match phase {
        Phase::Wave(wave) => wave <= 6,
        Phase::Health(tier) => tier <= 3,
        Phase::S10 { hecatia, junko } => hecatia < 3 && junko < 3,
        _ => true,
    }
}

/// Returns the point index selected by one `ST7_S10` phase digit.
pub fn s10_start_index(digit: u32) -> (r: Option<usize>)
    ensures
        r == spec_s10_start_index(digit),
{
    if digit >= 1 && digit - 1 < 3 {
        Some((digit - 1) as usize)
    } else {
        None
    }
}

impl Phase {
    /// Returns `None` if `phase` is not a valid value for `section`.
    pub fn parse(section: u32, phase: u32) -> (r: Option<Self>)
        ensures
            r == spec_phase_parse(section, phase),
            r matches Some(p) ==> phase_in_range(p),
    {
        if section == ST5_MID1 && phase <= 6 {
            Some(Phase::Wave(phase))
        } else if section == ST6_BOSS11 && phase <= 3 {
            Some(Phase::Health(phase))
        } else if section == ST7_S9 && phase <= 2 {
            Some(Phase::S9(phase))
        } else if section == ST7_S10 && phase == 0 {
            Some(Phase::S10 { hecatia: 0, junko: 0 })
        } else if section == ST7_S10 {
            match (s10_start_index(phase / 10), s10_start_index(phase % 10)) {
                (Some(hecatia), Some(junko)) => Some(Phase::S10 { hecatia, junko }),
                _ => None,
            }
        } else if phase == 0 {
            Some(Phase::Plain)
        } else {
            None
        }
    }
}

// ---------------------------------------------------------------------------------------------
// Section IDs

/// How a section ID decomposes.
#[derive(Debug, Clone, Copy, PartialEq, Eq, Structural)]
pub enum SectionId {
    Chapter { stage: u32, portion: u32 },
    Named { stage: u32 },
}

pub open spec fn spec_classify(section: u32) -> SectionId {
    if 10000 <= section < 20000 {
        SectionId::Chapter {
            stage: ((section - 10000) / 100) as u32,
            portion: ((section - 10000) % 100) as u32,
        }
    } else {
        SectionId::Named { stage: section / 1000 }
    }
}

pub open spec fn spec_id_stage(id: SectionId) -> Option<u32> {
    let stage = match id {
        SectionId::Chapter { stage, .. } => stage,
        SectionId::Named { stage } => stage,
    };
    if 1 <= stage <= STAGES {
        Some(stage)
    } else {
        None
    }
}

/// The stage that `section` belongs to, if it names a real stage.
pub open spec fn spec_section_stage(section: u32) -> Option<u32> {
    spec_id_stage(spec_classify(section))
}

impl SectionId {
    pub fn classify(section: u32) -> (r: Self)
        ensures
            r == spec_classify(section),
    {
        if section >= 10000 && section < 20000 {
            SectionId::Chapter { stage: (section - 10000) / 100, portion: (section - 10000) % 100 }
        } else {
            SectionId::Named { stage: section / 1000 }
        }
    }

    pub fn stage(self) -> (r: Option<u32>)
        ensures
            r == spec_id_stage(self),
    {
        let stage = match self {
            SectionId::Chapter { stage, .. } => stage,
            SectionId::Named { stage } => stage,
        };
        if stage >= 1 && stage <= STAGES {
            Some(stage)
        } else {
            None
        }
    }
}

/// Returns the stage that `section` belongs to, if it names a real stage.
pub fn section_stage(section: u32) -> (r: Option<u32>)
    ensures
        r == spec_section_stage(section),
        r matches Some(stage) ==> 1 <= stage <= STAGES,
{
    SectionId::classify(section).stage()
}

/// Whether `stage` can run at `difficulty`: the Extra stage runs exactly at the Extra difficulty.
pub open spec fn spec_rank_matches_stage(stage: u32, difficulty: u32) -> bool {
    (stage == EXTRA_STAGE) == (difficulty == EXTRA_DIFFICULTY)
}

/// Returns whether `stage` can run at `difficulty`.
pub fn rank_matches_stage(stage: u32, difficulty: u32) -> (r: bool)
    ensures
        r == spec_rank_matches_stage(stage, difficulty),
{
    (stage == EXTRA_STAGE) == (difficulty == EXTRA_DIFFICULTY)
}

// ---------------------------------------------------------------------------------------------
// Word blocks

/// Invulnerability window shared by the stage 1 and stage 3 midboss warps.
pub const INVULN_WINDOW: [u32; 5] = [0, 0x001C_0203, 0x01FF_0000, 0, 60];
/// `ST4_BOSS7`'s spell entry.
pub const ST4_BOSS7_SPELL: [u32; 5] = [1, 0x0014_0279, 0x01FF_0000, 0, 1];
/// `ST7_S9`'s spell: effect, flag, health 3000, "BossCard9".
pub const ST7_S9_SPELL: [u32; 24] = [
    0,
    0x0018_0132,
    0x02FF_0000,
    0,
    0,
    0,
    0,
    0x0014_01F6,
    0x01FF_0000,
    0,
    0x20,
    0,
    0x0014_01FF,
    0x01FF_0000,
    0,
    3000,
    0,
    0x0020_000B,
    0x01FF_0000,
    0,
    0xC,
    0x7373_6F42,
    0x6472_6143,
    0x39,
];
/// `ST7_S10`'s Hecatia script: effect, "Boss4_pos", health 7000, "BossCard10".
pub const ST7_S10_HECATIA: [u32; 37] = [
    5,
    0x0014_012E,
    0x01FF_0000,
    0,
    5,
    5,
    0x0018_012F,
    0x02FF_0000,
    0,
    3,
    6,
    5,
    0x0020_000F,
    0x01FF_0000,
    0,
    0xC,
    0x7373_6F42,
    0x6F70_5F34,
    0x0000_0073,
    5,
    0x0014_012E,
    0x01FF_0000,
    0,
    3,
    5,
    0x0014_01FF,
    0x01FF_0000,
    0,
    7000,
    6,
    0x0020_000B,
    0x01FF_0000,
    0,
    0xC,
    0x7373_6F42,
    0x6472_6143,
    0x3031,
];
/// `ST7_S10`'s Junko script: health 7000, invulnerability, stall.
pub const ST7_S10_JUNKO: [u32; 14] = [
    5,
    0x0014_01FF,
    0x01FF_0000,
    0,
    7000,
    5,
    0x0014_0203,
    0x01FF_0000,
    0,
    14,
    9999,
    0x0010_0000,
    0x00FF_0000,
    0,
];
/// The stage 6 boss change effect head.
pub const ST6_EFFECT_HEAD: [u32; 11] = [
    0,
    0x0014_012E,
    0x01FF_0000,
    0,
    3,
    0,
    0x0018_012F,
    0x02FF_0000,
    0,
    3,
    6,
];
/// Junko's change effect before an Extra spell.
pub const ST7_JUNKO_EFFECT: [u32; 11] = [
    0,
    0x0014_012E,
    0x01FF_0000,
    0,
    5,
    0,
    0x0018_012F,
    0x02FF_0000,
    0,
    3,
    6,
];
/// Hides the Extra stage sub-boss.
pub const ST7_HIDE_SUBBOSS_WORDS: [u32; 10] = [
    0,
    0x0010_01F9,
    0x00FF_0000,
    0,
    0,
    0x0034_0190,
    0x02FF_0000,
    0,
    0x4340_0000,
    0xC280_0000,
];
/// The Extra midboss invulnerability window.
pub const ST7_MID_INVULN: [u32; 5] = [0, 0x0020_0203, 0x01FF_0000, 0, 60];
/// The Extra midboss movement restriction.
pub const ST7_MID_MOVE_LIMIT: [u32; 8] = [
    0,
    0x002C_01F8,
    0x04FF_0000,
    0,
    0,
    0x4300_0000,
    0x438C_0000,
    0x4380_0000,
];

/// A block of ECL words written by a `SeqAt` or `Seq` operation.
#[derive(Debug, Clone, Copy, PartialEq, Eq, Structural)]
pub enum Words {
    InvulnWindow,
    St4Boss7Spell,
    St7S9Spell,
    St7S10Hecatia,
    St7S10Junko,
    St6EffectHead,
    /// A boss position-name instruction whose second name word is the given one.
    BossPos(u32),
    /// An Extra spell's health instruction with the given health.
    St7SpellHead(u32),
    St7JunkoEffect,
    /// An Extra "BossCard" instruction whose last name word is the given one.
    St7Card(u32),
    HideSubboss,
    St7MidInvuln,
    St7MidMoveLimit,
}

impl Words {
    /// The words of this block.
    pub open spec fn spec_words(self) -> Seq<u32> {
        match self {
            Words::InvulnWindow => INVULN_WINDOW@,
            Words::St4Boss7Spell => ST4_BOSS7_SPELL@,
            Words::St7S9Spell => ST7_S9_SPELL@,
            Words::St7S10Hecatia => ST7_S10_HECATIA@,
            Words::St7S10Junko => ST7_S10_JUNKO@,
            Words::St6EffectHead => ST6_EFFECT_HEAD@,
            Words::BossPos(pos_str) => seq![
                0,
                0x0020_000F,
                0x01FF_0000,
                0,
                0xC,
                0x7373_6F42,
                pos_str,
                0x0000_0073,
            ],
            Words::St7SpellHead(health) => seq![0, 0x0014_01ff, 0x01ff_0000, 0, health],
            Words::St7JunkoEffect => ST7_JUNKO_EFFECT@,
            Words::St7Card(ordinal) => seq![
                0,
                0x0020_000b,
                0x01ff_0000,
                0,
                0xc,
                0x7373_6f42,
                0x6472_6143,
                ordinal,
            ],
            Words::HideSubboss => ST7_HIDE_SUBBOSS_WORDS@,
            Words::St7MidInvuln => ST7_MID_INVULN@,
            Words::St7MidMoveLimit => ST7_MID_MOVE_LIMIT@,
        }
    }

    /// Returns the words of this block.
    pub fn words(self) -> (r: Vec<u32>)
        ensures
            r@ == self.spec_words(),
    {
        match self {
            Words::InvulnWindow => vstd::slice::slice_to_vec(INVULN_WINDOW.as_slice()),
            Words::St4Boss7Spell => vstd::slice::slice_to_vec(ST4_BOSS7_SPELL.as_slice()),
            Words::St7S9Spell => vstd::slice::slice_to_vec(ST7_S9_SPELL.as_slice()),
            Words::St7S10Hecatia => vstd::slice::slice_to_vec(ST7_S10_HECATIA.as_slice()),
            Words::St7S10Junko => vstd::slice::slice_to_vec(ST7_S10_JUNKO.as_slice()),
            Words::St6EffectHead => vstd::slice::slice_to_vec(ST6_EFFECT_HEAD.as_slice()),
            Words::BossPos(pos_str) => vec![
                0,
                0x0020_000F,
                0x01FF_0000,
                0,
                0xC,
                0x7373_6F42,
                pos_str,
                0x0000_0073,
            ],
            Words::St7SpellHead(health) => vec![0, 0x0014_01ff, 0x01ff_0000, 0, health],
            Words::St7JunkoEffect => vstd::slice::slice_to_vec(ST7_JUNKO_EFFECT.as_slice()),
            Words::St7Card(ordinal) => vec![
                0,
                0x0020_000b,
                0x01ff_0000,
                0,
                0xc,
                0x7373_6f42,
                0x6472_6143,
                ordinal,
            ],
            Words::HideSubboss => vstd::slice::slice_to_vec(ST7_HIDE_SUBBOSS_WORDS.as_slice()),
            Words::St7MidInvuln => vstd::slice::slice_to_vec(ST7_MID_INVULN.as_slice()),
            Words::St7MidMoveLimit => vstd::slice::slice_to_vec(ST7_MID_MOVE_LIMIT.as_slice()),
        }
    }
}

// ---------------------------------------------------------------------------------------------
// Operations

/// A boss nonspell selection.
#[derive(Debug, Clone, Copy, PartialEq, Eq, Structural)]
pub struct Nonspell {
    /// Offset of the ASCII digit inside the nonspell-name string.
    pub select_at: u32,
    /// The digit to write there.
    pub select_digit: i8,
    /// The instruction opcode to zero to stop the nonspell's item drops.
    pub item_drops: u32,
    /// The instruction opcode to zero to silence the boss change sound effect.
    pub sound_effect: u32,
}

/// A stored patch operation of the catalog.
#[derive(Debug, Clone, Copy, PartialEq, Eq, Structural)]
pub enum Op {
    /// Selects ECL file slot `n`, resetting the cursor.
    File(usize),
    /// Moves the ECL cursor. Pairs with a following [`Op::SeqCont`].
    Pos(u32),
    /// Verifies that the instruction at `start` has ID `expect`, then overwrites it with a
    /// 24-byte jump.
    Jump { start: u32, expect: u16, dest: u32, at_frame: i32, ecl_time: i32 },
    /// Verifies that the instruction at `pos` has ID `expect`, then writes `words` from there.
    SeqAt { pos: u32, expect: u16, words: Words },
    /// Writes `words` at the cursor, continuing a [`Op::Pos`]/[`Op::SeqAt`] stream.
    SeqCont { words: Words },
    I16 { at: u32, v: i16 },
    I32 { at: u32, v: i32 },
    U32 { at: u32, v: u32 },
    /// Sets the chapter intent's remaining score skips.
    Skip(i32),
    /// Requests the Extra stage chapter bonus write.
    St7Bonus,
    /// Jumps to the boss section of stage `stage`, selects the boss ECL file, and skips the
    /// chapters left behind. Leaves the boss file selected.
    BossEntry { stage: usize, skips: i32 },
    /// Jumps to a spell whose base is the jump target.
    EnterSpell { start: u32, dest: u32, at_frame: i32, health: i32, ordinal: i8 },
    /// Sets a spell's health and ordinal.
    SpellFields { base: u32, health: i32, ordinal: i8 },
    /// Enters a boss nonspell.
    Nonspell { stage: usize, ns: Nonspell },
    /// Writes the stage 6 boss change effect with the given position-name word.
    St6BossEffect { pos_str: u32 },
    St7BossEntry,
    St7HideSubboss,
    St7EnterSpell { health: u32, ordinal: u32, junko: bool },
    St7Mid { health: i32, ordinal: i8 },
}

/// A primitive patch operation, as the ECL interpreter applies it.
#[derive(Debug, Clone, Copy, PartialEq, Eq, Structural)]
pub enum PrimOp {
    File(usize),
    Pos(u32),
    Jump { start: u32, expect: u16, dest: u32, at_frame: i32, ecl_time: i32 },
    SeqAt { pos: u32, expect: u16, words: Words },
    SeqCont { words: Words },
    I8 { at: u32, v: i8 },
    I16 { at: u32, v: i16 },
    I32 { at: u32, v: i32 },
    U32 { at: u32, v: u32 },
    Skip(i32),
    SetChapter(i32),
    St7Bonus,
}

/// Whether an operation's table indices and offsets are in range: a boss entry names one of the
/// six boss stages, and a spell's field offsets fit in a `u32`.
pub open spec fn op_wf(op: Op) -> bool {
    match op {
        Op::BossEntry { stage, .. } => 1 <= stage <= 6,
        Op::Nonspell { stage, .. } => 1 <= stage <= 6,
        Op::EnterSpell { dest, .. } => dest + 0x30 <= u32::MAX,
        Op::SpellFields { base, .. } => base + 0x30 <= u32::MAX,
        _ => true,
    }
}

pub open spec fn ops_wf(ops: Seq<Op>) -> bool {
    forall|i: int| 0 <= i < ops.len() ==> op_wf(#[trigger] ops[i])
}

/// The jump into stage `stage`'s boss section, then the boss file and the chapter skips.
pub open spec fn boss_entry_prims(stage: usize, skips: i32) -> Seq<PrimOp> {
    let (start, dest, file) = BOSS_ENTRIES@[stage - 1];
    seq![
        PrimOp::Jump { start, expect: 0x17, dest, at_frame: 60, ecl_time: 0 },
        PrimOp::File(file),
        PrimOp::Skip(skips),
    ]
}

pub open spec fn spell_fields_prims(base: u32, health: i32, ordinal: i8) -> Seq<PrimOp> {
    seq![
        PrimOp::I32 { at: (base + 0x10) as u32, v: health },
        PrimOp::I8 { at: (base + 0x30) as u32, v: ordinal },
    ]
}

/// Hides the Extra stage sub-boss (file 4).
pub open spec fn hide_subboss_prims() -> Seq<PrimOp> {
    seq![
        PrimOp::File(4),
        PrimOp::I16 { at: 0x190, v: 0 },
        PrimOp::I16 { at: 0x1dc, v: 0 },
        PrimOp::I16 { at: 0x228, v: 0 },
        PrimOp::Jump { start: 0x2a0, expect: 0x207, dest: 0x2f4, at_frame: 5, ecl_time: 0 },
        PrimOp::SeqAt { pos: 0x480, expect: 0x191, words: Words::HideSubboss },
    ]
}

/// The primitive operations that a stored operation stands for.
pub open spec fn op_prims(op: Op) -> Seq<PrimOp> {
    match op {
        Op::File(n) => seq![PrimOp::File(n)],
        Op::Pos(p) => seq![PrimOp::Pos(p)],
        Op::Jump { start, expect, dest, at_frame, ecl_time } => seq![
            PrimOp::Jump { start, expect, dest, at_frame, ecl_time },
        ],
        Op::SeqAt { pos, expect, words } => seq![PrimOp::SeqAt { pos, expect, words }],
        Op::SeqCont { words } => seq![PrimOp::SeqCont { words }],
        Op::I16 { at, v } => seq![PrimOp::I16 { at, v }],
        Op::I32 { at, v } => seq![PrimOp::I32 { at, v }],
        Op::U32 { at, v } => seq![PrimOp::U32 { at, v }],
        Op::Skip(n) => seq![PrimOp::Skip(n)],
        Op::St7Bonus => seq![PrimOp::St7Bonus],
        Op::BossEntry { stage, skips } => boss_entry_prims(stage, skips),
        Op::EnterSpell { start, dest, at_frame, health, ordinal } => seq![
            PrimOp::Jump { start, expect: 0x2A, dest, at_frame, ecl_time: 0 },
        ] + spell_fields_prims(dest, health, ordinal),
        Op::SpellFields { base, health, ordinal } => spell_fields_prims(base, health, ordinal),
        Op::Nonspell { stage, ns } => boss_entry_prims(stage, 2) + seq![
            PrimOp::I8 { at: ns.select_at, v: ns.select_digit },
            PrimOp::I16 { at: ns.item_drops, v: 0 },
            PrimOp::I16 { at: ns.sound_effect, v: 0 },
        ],
        Op::St6BossEffect { pos_str } => seq![
            PrimOp::SeqAt { pos: ST6_EFFECT_BLOCK, expect: 0x2A, words: Words::St6EffectHead },
            PrimOp::SeqCont { words: Words::BossPos(pos_str) },
        ],
        Op::St7BossEntry => seq![
            PrimOp::Jump {
                start: ST7_START,
                expect: 0x17,
                dest: ST7_BOSS_CREATE_CALL,
                at_frame: 60,
                ecl_time: 0,
            },
            PrimOp::Skip(2),
        ] + hide_subboss_prims(),
        Op::St7HideSubboss => hide_subboss_prims(),
        Op::St7EnterSpell { health, ordinal, junko } => seq![
            PrimOp::File(3),
            PrimOp::SeqAt { pos: 0x6d0, expect: 0x16, words: Words::St7SpellHead(health) },
        ] + (if junko {
            seq![
                PrimOp::SeqCont { words: Words::St7JunkoEffect },
                PrimOp::SeqCont { words: Words::BossPos(0x6F70_5F34) },
            ]
        } else {
            seq![]
        }) + seq![PrimOp::SeqCont { words: Words::St7Card(ordinal) }],
        Op::St7Mid { health, ordinal } => seq![
            PrimOp::File(2),
            PrimOp::SeqAt { pos: 0x34c, expect: 0x1F8, words: Words::St7MidInvuln },
            PrimOp::SeqAt { pos: 0x37c, expect: 0x202, words: Words::St7MidMoveLimit },
            PrimOp::I16 { at: 0x33c, v: 0 },
            PrimOp::I32 { at: 0x36c, v: 60 },
            PrimOp::I32 { at: 0x328, v: 60 },
            PrimOp::Jump { start: 0x48c, expect: 0x203, dest: 0x508, at_frame: 0, ecl_time: 0 },
            PrimOp::I32 { at: 0x2fc, v: health },
            PrimOp::I8 { at: 0x525, v: ordinal },
        ],
    }
}

/// The primitive operations of a sequence of stored operations, in order.
pub open spec fn ops_prims(ops: Seq<Op>) -> Seq<PrimOp>
    decreases ops.len(),
{
    if ops.len() == 0 {
        seq![]
    } else {
        ops_prims(ops.drop_last()) + op_prims(ops.last())
    }
}

fn emit_boss_entry(stage: usize, skips: i32, emit: &mut Vec<PrimOp>)
    requires
        1 <= stage <= 6,
    ensures
        final(emit)@ == old(emit)@ + boss_entry_prims(stage, skips),
{
    let (start, dest, file) = BOSS_ENTRIES[stage - 1];
    // Every `ST*_START` holds an id-0x17 instruction.
    emit.push(PrimOp::Jump { start, expect: 0x17, dest, at_frame: 60, ecl_time: 0 });
    emit.push(PrimOp::File(file));
    emit.push(PrimOp::Skip(skips));
    assert(emit@ =~= old(emit)@ + boss_entry_prims(stage, skips));
}

fn emit_spell_fields(base: u32, health: i32, ordinal: i8, emit: &mut Vec<PrimOp>)
    requires
        base + 0x30 <= u32::MAX,
    ensures
        final(emit)@ == old(emit)@ + spell_fields_prims(base, health, ordinal),
{
    emit.push(PrimOp::I32 { at: base + 0x10, v: health });
    emit.push(PrimOp::I8 { at: base + 0x30, v: ordinal });
    assert(emit@ =~= old(emit)@ + spell_fields_prims(base, health, ordinal));
}

fn emit_hide_subboss(emit: &mut Vec<PrimOp>)
    ensures
        final(emit)@ == old(emit)@ + hide_subboss_prims(),
{
    emit.push(PrimOp::File(4));
    emit.push(PrimOp::I16 { at: 0x190, v: 0 });
    emit.push(PrimOp::I16 { at: 0x1dc, v: 0 });
    emit.push(PrimOp::I16 { at: 0x228, v: 0 });
    emit.push(PrimOp::Jump { start: 0x2a0, expect: 0x207, dest: 0x2f4, at_frame: 5, ecl_time: 0 });
    emit.push(PrimOp::SeqAt { pos: 0x480, expect: 0x191, words: Words::HideSubboss });
    assert(emit@ =~= old(emit)@ + hide_subboss_prims());
}

impl Op {
    /// Appends the primitive operations that this operation stands for.
    pub fn expand(self, emit: &mut Vec<PrimOp>)
        requires
            op_wf(self),
        ensures
            final(emit)@ == old(emit)@ + op_prims(self),
    {
        let ghost before = emit@;
        match self {
            Op::File(n) => emit.push(PrimOp::File(n)),
            Op::Pos(p) => emit.push(PrimOp::Pos(p)),
            Op::Jump { start, expect, dest, at_frame, ecl_time } => {
                emit.push(PrimOp::Jump { start, expect, dest, at_frame, ecl_time });
            },
            Op::SeqAt { pos, expect, words } => emit.push(PrimOp::SeqAt { pos, expect, words }),
            Op::SeqCont { words } => emit.push(PrimOp::SeqCont { words }),
            Op::I16 { at, v } => emit.push(PrimOp::I16 { at, v }),
            Op::I32 { at, v } => emit.push(PrimOp::I32 { at, v }),
            Op::U32 { at, v } => emit.push(PrimOp::U32 { at, v }),
            Op::Skip(n) => emit.push(PrimOp::Skip(n)),
            Op::St7Bonus => emit.push(PrimOp::St7Bonus),
            Op::BossEntry { stage, skips } => emit_boss_entry(stage, skips, emit),
            Op::EnterSpell { start, dest, at_frame, health, ordinal } => {
                // Every `*_SPELL_START` holds an id-0x2a instruction.
                emit.push(PrimOp::Jump { start, expect: 0x2A, dest, at_frame, ecl_time: 0 });
                emit_spell_fields(dest, health, ordinal, emit);
            },
            Op::SpellFields { base, health, ordinal } => {
                emit_spell_fields(base, health, ordinal, emit)
            },
            Op::Nonspell { stage, ns } => {
                emit_boss_entry(stage, 2, emit);
                emit.push(PrimOp::I8 { at: ns.select_at, v: ns.select_digit });
                emit.push(PrimOp::I16 { at: ns.item_drops, v: 0 });
                emit.push(PrimOp::I16 { at: ns.sound_effect, v: 0 });
            },
            Op::St6BossEffect { pos_str } => {
                emit.push(
                    PrimOp::SeqAt {
                        pos: ST6_EFFECT_BLOCK,
                        expect: 0x2A,
                        words: Words::St6EffectHead,
                    },
                );
                emit.push(PrimOp::SeqCont { words: Words::BossPos(pos_str) });
            },
            Op::St7BossEntry => {
                emit.push(
                    PrimOp::Jump {
                        start: ST7_START,
                        expect: 0x17,
                        dest: ST7_BOSS_CREATE_CALL,
                        at_frame: 60,
                        ecl_time: 0,
                    },
                );
                emit.push(PrimOp::Skip(2));
                emit_hide_subboss(emit);
            },
            Op::St7HideSubboss => emit_hide_subboss(emit),
            Op::St7EnterSpell { health, ordinal, junko } => {
                emit.push(PrimOp::File(3));
                emit.push(
                    PrimOp::SeqAt { pos: 0x6d0, expect: 0x16, words: Words::St7SpellHead(health) },
                );
                if junko {
                    emit.push(PrimOp::SeqCont { words: Words::St7JunkoEffect });
                    emit.push(PrimOp::SeqCont { words: Words::BossPos(0x6F70_5F34) });
                }
                emit.push(PrimOp::SeqCont { words: Words::St7Card(ordinal) });
            },
            Op::St7Mid { health, ordinal } => {
                emit.push(PrimOp::File(2));
                // invulnerability window
                emit.push(
                    PrimOp::SeqAt { pos: 0x34c, expect: 0x1F8, words: Words::St7MidInvuln },
                );
                // boss movement restriction
                emit.push(
                    PrimOp::SeqAt { pos: 0x37c, expect: 0x202, words: Words::St7MidMoveLimit },
                );
                emit.push(PrimOp::I16 { at: 0x33c, v: 0 });  // void wait
                emit.push(PrimOp::I32 { at: 0x36c, v: 60 });  // wait time
                emit.push(PrimOp::I32 { at: 0x328, v: 60 });  // move time
                // spell practice jump
                emit.push(
                    PrimOp::Jump {
                        start: 0x48c,
                        expect: 0x203,
                        dest: 0x508,
                        at_frame: 0,
                        ecl_time: 0,
                    },
                );
                emit.push(PrimOp::I32 { at: 0x2fc, v: health });
                emit.push(PrimOp::I8 { at: 0x525, v: ordinal });
            },
        }
        assert(emit@ =~= before + op_prims(self));
    }
}

// ---------------------------------------------------------------------------------------------
// Phase-dependent operations

/// Which phase-dependent operations a named section applies after its fixed ones.
#[derive(Debug, Clone, Copy, PartialEq, Eq, Structural)]
pub enum PhaseOps {
    St5Mid1,
    St6Boss11,
    St7S9,
    St7S10,
}

pub open spec fn st5_mid1_prims(phase: Phase) -> Seq<PrimOp> {
    match phase {
        Phase::Wave(wave) if wave >= 1 => seq![
            PrimOp::Jump { start: ST5_START, expect: 0x17, dest: 0xa1a0, at_frame: 60, ecl_time: 0 },
            PrimOp::Jump {
                start: ST5_WAVE_SRC,
                expect: 0x20C,
                dest: ST5_WAVE_DESTS@[wave - 1],
                at_frame: 0,
                ecl_time: 0,
            },
        ],
        _ => seq![
            PrimOp::Jump { start: ST5_START, expect: 0x17, dest: 0xa180, at_frame: 60, ecl_time: 0 },
            PrimOp::Jump { start: 0x6ed8, expect: 0xB, dest: 0x7074, at_frame: 0, ecl_time: 0 },
        ],
    }
}

pub open spec fn st6_boss11_prims(phase: Phase) -> Seq<PrimOp> {
    match phase {
        Phase::Health(tier) if tier >= 1 => seq![
            PrimOp::I32 { at: (ST6_SPELL + 0x10) as u32, v: ST6_BOSS11_HEALTH@[tier - 1] },
        ],
        _ => seq![],
    }
}

pub open spec fn st7_s9_prims(phase: Phase) -> Seq<PrimOp> {
    match phase {
        // The green phase compensates the duration and the p2 -> p3 transition for the removed
        // blue phase.
        Phase::S9(1) => seq![
            PrimOp::I32 { at: S9_DURATION, v: (5400 - S9_BLUE_PHASE_TIME + 90) as i32 },
            PrimOp::I32 { at: (0x10bb0 + 0x10) as u32, v: (55 - (S9_BLUE_PHASE_TIME - 90) / 60) as i32 },
            PrimOp::Jump { start: S9_TR_START, expect: 0x12C, dest: 0x10a50, at_frame: 0, ecl_time: 0 },
        ],
        Phase::S9(2) => seq![
            PrimOp::I32 { at: S9_DURATION, v: (5400 - (55 * 60) - (90 + 18)) as i32 },
            PrimOp::Jump { start: S9_TR_START, expect: 0x12C, dest: 0x10c7c, at_frame: 0, ecl_time: 0 },
        ],
        // The blue phase leaves the script as loaded.
        _ => seq![],
    }
}

pub open spec fn st7_s10_prims(phase: Phase) -> Seq<PrimOp> {
    match phase {
        Phase::S10 { hecatia, junko } => (if hecatia > 0 {
            seq![
                PrimOp::File(3),
                PrimOp::Jump {
                    start: ST7_S10_HECATIA_AT@[0],
                    expect: 0xB,
                    dest: ST7_S10_HECATIA_AT@[hecatia as int],
                    at_frame: ST7_S10_HECATIA_AT_FRAME,
                    ecl_time: 0,
                },
            ]
        } else {
            seq![]
        }) + (if junko > 0 {
            seq![
                PrimOp::File(4),
                PrimOp::Jump {
                    start: ST7_S10_JUNKO_AT@[0],
                    expect: 0xB,
                    dest: ST7_S10_JUNKO_AT@[junko as int],
                    at_frame: ST7_S10_JUNKO_AT_FRAME,
                    ecl_time: 0,
                },
            ]
        } else {
            seq![]
        }),
        _ => seq![],
    }
}

/// The phase-dependent primitive operations of `kind` at `phase`.
pub open spec fn phase_prims(kind: PhaseOps, phase: Phase) -> Seq<PrimOp> {
    match kind {
        PhaseOps::St5Mid1 => st5_mid1_prims(phase),
        PhaseOps::St6Boss11 => st6_boss11_prims(phase),
        PhaseOps::St7S9 => st7_s9_prims(phase),
        PhaseOps::St7S10 => st7_s10_prims(phase),
    }
}

/// Emits `ST5_MID1`'s jump to its starting wave.
pub fn st5_mid1_ops(phase: Phase, emit: &mut Vec<PrimOp>)
    requires
        phase_in_range(phase),
    ensures
        final(emit)@ == old(emit)@ + st5_mid1_prims(phase),
{
    let ghost before = emit@;
    match phase {
        Phase::Wave(wave) if wave >= 1 => {
            emit.push(
                PrimOp::Jump { start: ST5_START, expect: 0x17, dest: 0xa1a0, at_frame: 60, ecl_time: 0 },
            );
            emit.push(
                PrimOp::Jump {
                    start: ST5_WAVE_SRC,
                    expect: 0x20C,
                    dest: ST5_WAVE_DESTS[(wave - 1) as usize],
                    at_frame: 0,
                    ecl_time: 0,
                },
            );
        },
        _ => {
            emit.push(
                PrimOp::Jump { start: ST5_START, expect: 0x17, dest: 0xa180, at_frame: 60, ecl_time: 0 },
            );
            emit.push(
                PrimOp::Jump { start: 0x6ed8, expect: 0xB, dest: 0x7074, at_frame: 0, ecl_time: 0 },
            );
        },
    }
    assert(emit@ =~= before + st5_mid1_prims(phase));
}

/// Emits `ST6_BOSS11`'s lowered starting HP.
pub fn st6_boss11_ops(phase: Phase, emit: &mut Vec<PrimOp>)
    requires
        phase_in_range(phase),
    ensures
        final(emit)@ == old(emit)@ + st6_boss11_prims(phase),
{
    let ghost before = emit@;
    if let Phase::Health(tier) = phase {
        if tier >= 1 {
            let v = ST6_BOSS11_HEALTH[(tier - 1) as usize];
            emit.push(PrimOp::I32 { at: ST6_SPELL + 0x10, v });
        }
    }
    assert(emit@ =~= before + st6_boss11_prims(phase));
}

/// Emits `ST7_S9`'s jump to its green or red phase.
pub fn st7_s9_ops(phase: Phase, emit: &mut Vec<PrimOp>)
    ensures
        final(emit)@ == old(emit)@ + st7_s9_prims(phase),
{
    let ghost before = emit@;
    match phase {
        Phase::S9(1) => {
            emit.push(PrimOp::I32 { at: S9_DURATION, v: 5400 - S9_BLUE_PHASE_TIME + 90 });
            emit.push(PrimOp::I32 { at: 0x10bb0 + 0x10, v: 55 - (S9_BLUE_PHASE_TIME - 90) / 60 });
            emit.push(
                PrimOp::Jump {
                    start: S9_TR_START,
                    expect: 0x12C,
                    dest: 0x10a50,
                    at_frame: 0,
                    ecl_time: 0,
                },
            );
        },
        Phase::S9(2) => {
            emit.push(PrimOp::I32 { at: S9_DURATION, v: 5400 - (55 * 60) - (90 + 18) });
            emit.push(
                PrimOp::Jump {
                    start: S9_TR_START,
                    expect: 0x12C,
                    dest: 0x10c7c,
                    at_frame: 0,
                    ecl_time: 0,
                },
            );
        },
        _ => {},
    }
    assert(emit@ =~= before + st7_s9_prims(phase));
}

/// Emits `ST7_S10`'s jumps to each boss's starting point.
pub fn st7_s10_ops(phase: Phase, emit: &mut Vec<PrimOp>)
    requires
        phase_in_range(phase),
    ensures
        final(emit)@ == old(emit)@ + st7_s10_prims(phase),
{
    let ghost before = emit@;
    if let Phase::S10 { hecatia, junko } = phase {
        if hecatia > 0 {
            emit.push(PrimOp::File(3));
            emit.push(
                PrimOp::Jump {
                    start: ST7_S10_HECATIA_AT[0],
                    expect: 0xB,
                    dest: ST7_S10_HECATIA_AT[hecatia],
                    at_frame: ST7_S10_HECATIA_AT_FRAME,
                    ecl_time: 0,
                },
            );
        }
        let ghost middle = emit@;
        if junko > 0 {
            emit.push(PrimOp::File(4));
            emit.push(
                PrimOp::Jump {
                    start: ST7_S10_JUNKO_AT[0],
                    expect: 0xB,
                    dest: ST7_S10_JUNKO_AT[junko],
                    at_frame: ST7_S10_JUNKO_AT_FRAME,
                    ecl_time: 0,
                },
            );
        }
    }
    assert(emit@ =~= before + st7_s10_prims(phase));
}

fn emit_phase_ops(kind: PhaseOps, phase: Phase, emit: &mut Vec<PrimOp>)
    requires
        phase_in_range(phase),
    ensures
        final(emit)@ == old(emit)@ + phase_prims(kind, phase),
{
    match kind {
        PhaseOps::St5Mid1 => st5_mid1_ops(phase, emit),
        PhaseOps::St6Boss11 => st6_boss11_ops(phase, emit),
        PhaseOps::St7S9 => st7_s9_ops(phase, emit),
        PhaseOps::St7S10 => st7_s10_ops(phase, emit),
    }
}

// ---------------------------------------------------------------------------------------------
// Named warps

/// A named section of the catalog.
pub struct Warp {
    pub section: u32,
    /// Operations applied for every phase.
    pub ops: Vec<Op>,
    /// Operations applied depending on the phase.
    pub phase_ops: Option<PhaseOps>,
}

impl View for Warp {
    type V = (u32, Seq<Op>, Option<PhaseOps>);

    open spec fn view(&self) -> (u32, Seq<Op>, Option<PhaseOps>) {
        (self.section, self.ops@, self.phase_ops)
    }
}

/// The full primitive stream of a named catalog row at `phase`.
pub open spec fn warp_prims(row: (u32, Seq<Op>, Option<PhaseOps>), phase: Phase) -> Seq<PrimOp> {
    ops_prims(row.1) + match row.2 {
        Some(kind) => phase_prims(kind, phase),
        None => seq![],
    }
}

impl Warp {
    pub fn new(section: u32, ops: Vec<Op>) -> (r: Self)
        ensures
            r@ == (section, ops@, None::<PhaseOps>),
    {
        Warp { section, ops, phase_ops: None }
    }

    pub fn with_phase(section: u32, ops: Vec<Op>, phase_ops: PhaseOps) -> (r: Self)
        ensures
            r@ == (section, ops@, Some(phase_ops)),
    {
        Warp { section, ops, phase_ops: Some(phase_ops) }
    }

    /// Appends the full stream of primitive operations for this section at `phase`.
    pub fn expand(&self, phase: Phase, emit: &mut Vec<PrimOp>)
        requires
            ops_wf(self.ops@),
            phase_in_range(phase),
        ensures
            final(emit)@ == old(emit)@ + warp_prims(self@, phase),
    {
        let ghost before = emit@;
        let n = self.ops.len();
        let mut i: usize = 0;
        while i < n
            invariant
                n == self.ops@.len(),
                i <= n,
                ops_wf(self.ops@),
                emit@ == before + ops_prims(self.ops@.take(i as int)),
            decreases n - i,
        {
            let op = self.ops[i];
            assert(op_wf(self.ops@[i as int]));
            op.expand(emit);
            assert(self.ops@.take(i as int + 1).drop_last() =~= self.ops@.take(i as int));
            i += 1;
            assert(emit@ =~= before + ops_prims(self.ops@.take(i as int)));
        }
        assert(self.ops@.take(n as int) =~= self.ops@);
        if let Some(kind) = self.phase_ops {
            emit_phase_ops(kind, phase, emit);
        }
        assert(emit@ =~= before + warp_prims(self@, phase));
    }
}

/// The first catalog row at or after `from` whose section is `section`.
pub open spec fn first_row_from(section: u32, from: int) -> Option<int>
    decreases 73 - from,
{
    if from < 0 || from >= 73 {
        None
    } else if WARP_SECTIONS@[from] == section {
        Some(from)
    } else {
        first_row_from(section, from + 1)
    }
}

/// The catalog row of a named section.
pub open spec fn spec_warp_index(section: u32) -> Option<int> {
    first_row_from(section, 0)
}

proof fn lemma_first_row_from(section: u32, from: int)
    requires
        0 <= from <= 73,
    ensures
        first_row_from(section, from) matches Some(i) ==> from <= i < 73 && WARP_SECTIONS@[i] == section,
        first_row_from(section, from) is None ==> forall|j: int|
            from <= j < 73 ==> WARP_SECTIONS@[j] != section,
    decreases 73 - from,
{
    if from < 73 {
        lemma_first_row_from(section, from + 1);
    }
}

/// Returns the catalog row of a named section.
pub fn warp_index(section: u32) -> (r: Option<usize>)
    ensures
        r matches Some(i) ==> spec_warp_index(section) == Some(i as int) && i < 73,
        r is None <==> spec_warp_index(section) is None,
{
    let mut i: usize = 0;
    while i < 73
        invariant
            i <= 73,
            spec_warp_index(section) == first_row_from(section, i as int),
        decreases 73 - i,
    {
        if WARP_SECTIONS[i] == section {
            return Some(i);
        }
        i += 1;
    }
    None
}

// ---------------------------------------------------------------------------------------------
// Chapter warps

/// A chapter warp's side effect besides its jumps.
#[derive(Debug, Clone, Copy, PartialEq, Eq, Structural)]
pub enum ChapterEffect {
    NoEffect,
    /// Defer `ECLSetChapter(n)` via the chapter intent.
    SetChapter(i32),
    /// Zero an `i16` at this file offset.
    ZeroI16(u32),
    /// Zero an `i32` at this file offset.
    ZeroI32(u32),
}

/// A chapter warp row: the entry jump's destination and time, an optional second jump in the
/// same file, and a side effect.
#[derive(Debug, Clone, Copy)]
pub struct ChapterWarp {
    pub dest: u32,
    pub time: i32,
    /// An optional second jump `(from, expect, to)`.
    pub sub: Option<(u32, u16, u32)>,
    pub effect: ChapterEffect,
}

impl ChapterWarp {
    pub fn new(dest: u32, time: i32) -> (r: Self)
        ensures
            r == (ChapterWarp { dest, time, sub: None, effect: ChapterEffect::NoEffect }),
    {
        ChapterWarp { dest, time, sub: None, effect: ChapterEffect::NoEffect }
    }

    pub fn sub(self, from: u32, expect: u16, to: u32) -> (r: Self)
        ensures
            r == (ChapterWarp { sub: Some((from, expect, to)), ..self }),
    {
        ChapterWarp { sub: Some((from, expect, to)), ..self }
    }

    pub fn effect(self, effect: ChapterEffect) -> (r: Self)
        ensures
            r == (ChapterWarp { effect, ..self }),
    {
        ChapterWarp { effect, ..self }
    }
}

/// The chapter warp rows: `(stage, portion)` with `portion >= 2`.
pub open spec fn spec_chapter_row(stage: u32, portion: u32) -> Option<ChapterWarp> {
    match (stage, portion) {
        (1, 2) => Some(ChapterWarp { dest: 0x7494, time: 90, sub: Some((0x3f4c, 0xB, 0x3fa8)), effect: ChapterEffect::NoEffect }),
        (1, 3) => Some(ChapterWarp { dest: 0x7544, time: 90, sub: None, effect: ChapterEffect::SetChapter(2) }),
        (1, 4) => Some(ChapterWarp { dest: 0x7544, time: 90, sub: Some((0x4098, 0xF, 0x40fc)), effect: ChapterEffect::NoEffect }),
        (1, 5) => Some(ChapterWarp { dest: 0x75f8, time: 90, sub: None, effect: ChapterEffect::SetChapter(5) }),
        (1, 6) => Some(ChapterWarp { dest: 0x75f8, time: 90, sub: Some((0x4150, 0xF, 0x41b8)), effect: ChapterEffect::NoEffect }),
        (2, 2) => Some(ChapterWarp { dest: 0x76ec, time: 90, sub: Some((0x42b4, 0xB, 0x4354)), effect: ChapterEffect::NoEffect }),
        (2, 3) => Some(ChapterWarp { dest: 0x76ec, time: 90, sub: Some((0x42b4, 0xB, 0x43d4)), effect: ChapterEffect::NoEffect }),
        (2, 4) => Some(ChapterWarp { dest: 0x778c, time: 29, sub: None, effect: ChapterEffect::SetChapter(4) }),
        (2, 5) => Some(ChapterWarp { dest: 0x778c, time: 0, sub: Some((0x443c, 0xF, 0x448c)), effect: ChapterEffect::NoEffect }),
        (2, 6) => Some(ChapterWarp { dest: 0x778c, time: 90, sub: Some((0x443c, 0xF, 0x450c)), effect: ChapterEffect::NoEffect }),
        (3, 2) => Some(ChapterWarp { dest: 0xa4cc, time: 90, sub: Some((0x5b6c, 0xB, 0x5c00)), effect: ChapterEffect::NoEffect }),
        (3, 3) => Some(ChapterWarp { dest: 0xa4cc, time: 30, sub: Some((0x5b6c, 0xB, 0x5c6c)), effect: ChapterEffect::NoEffect }),
        (3, 4) => Some(ChapterWarp { dest: 0xa56c, time: 50, sub: None, effect: ChapterEffect::SetChapter(4) }),
        (3, 5) => Some(ChapterWarp { dest: 0xa56c, time: 20, sub: Some((0x5d0c, 0xF, 0x5d70)), effect: ChapterEffect::NoEffect }),
        (3, 6) => Some(ChapterWarp { dest: 0xa56c, time: 90, sub: Some((0x5d0c, 0xF, 0x5df0)), effect: ChapterEffect::NoEffect }),
        (4, 2) => Some(ChapterWarp { dest: 0x8880, time: 90, sub: Some((0x406c, 0xB, 0x40ec)), effect: ChapterEffect::NoEffect }),
        (4, 3) => Some(ChapterWarp { dest: 0x8880, time: 90, sub: Some((0x406c, 0xB, 0x4158)), effect: ChapterEffect::ZeroI32(0x5cc4) }),
        (4, 4) => Some(ChapterWarp { dest: 0x8930, time: 90, sub: None, effect: ChapterEffect::ZeroI32(0x6bc0) }),
        (4, 5) => Some(ChapterWarp { dest: 0x8930, time: 90, sub: Some((0x41e0, 0xF, 0x4244)), effect: ChapterEffect::ZeroI32(0x6e74) }),
        (4, 6) => Some(ChapterWarp { dest: 0x8930, time: 90, sub: Some((0x41e0, 0xF, 0x42c4)), effect: ChapterEffect::NoEffect }),
        (5, 2) => Some(ChapterWarp { dest: 0xa180, time: 90, sub: Some((0x6ed8, 0xB, 0x6f58)), effect: ChapterEffect::NoEffect }),
        (5, 3) => Some(ChapterWarp { dest: 0xa180, time: 90, sub: Some((0x6ed8, 0xB, 0x7040)), effect: ChapterEffect::ZeroI32(0x7ba0) }),
        (5, 4) => Some(ChapterWarp { dest: 0xa180, time: 90, sub: Some((0x6ed8, 0xB, 0x7098)), effect: ChapterEffect::NoEffect }),
        (5, 5) => Some(ChapterWarp { dest: 0xa1a0, time: 90, sub: None, effect: ChapterEffect::ZeroI16(0x70f0) }),
        (5, 6) => Some(ChapterWarp { dest: 0xa1a0, time: 90, sub: Some((ST5_WAVE_SRC, 0x20C, ST5_WAVE_DESTS[1])), effect: ChapterEffect::ZeroI32(0x81c0) }),
        (5, 7) => Some(ChapterWarp { dest: 0xa1a0, time: 90, sub: Some((ST5_WAVE_SRC, 0x20C, ST5_WAVE_DESTS[2])), effect: ChapterEffect::ZeroI32(0x845c) }),
        (5, 8) => Some(ChapterWarp { dest: 0xa1a0, time: 90, sub: Some((ST5_WAVE_SRC, 0x20C, ST5_WAVE_DESTS[3])), effect: ChapterEffect::ZeroI32(0x87e0) }),
        (5, 9) => Some(ChapterWarp { dest: 0xa1a0, time: 90, sub: Some((ST5_WAVE_SRC, 0x20C, ST5_WAVE_DESTS[4])), effect: ChapterEffect::ZeroI32(0x8ce8) }),
        (5, 10) => Some(ChapterWarp { dest: 0xa1a0, time: 90, sub: Some((ST5_WAVE_SRC, 0x20C, ST5_WAVE_DESTS[5])), effect: ChapterEffect::ZeroI32(0x9a50) }),
        (6, 2) => Some(ChapterWarp { dest: 0x93e0, time: 90, sub: Some((0x2b34, 0xB, 0x2be8)), effect: ChapterEffect::ZeroI32(0x38d0) }),
        (6, 3) => Some(ChapterWarp { dest: 0x93e0, time: 90, sub: Some((0x2b34, 0xB, 0x2c68)), effect: ChapterEffect::ZeroI32(0x40ac) }),
        (6, 4) => Some(ChapterWarp { dest: 0x93e0, time: 90, sub: Some((0x2b34, 0xB, 0x2ce8)), effect: ChapterEffect::ZeroI32(0x43b0) }),
        (7, 2) => Some(ChapterWarp { dest: 0x9208, time: 90, sub: Some((0x5d08, 0xB, 0x5d88)), effect: ChapterEffect::NoEffect }),
        (7, 3) => Some(ChapterWarp { dest: 0x9208, time: 90, sub: Some((0x5d08, 0xB, 0x5e08)), effect: ChapterEffect::NoEffect }),
        (7, 4) => Some(ChapterWarp { dest: 0x9208, time: 90, sub: Some((0x5d08, 0xB, 0x5e9c)), effect: ChapterEffect::NoEffect }),
        (7, 5) => Some(ChapterWarp { dest: 0x9208, time: 90, sub: Some((0x5d08, 0xB, 0x5f30)), effect: ChapterEffect::NoEffect }),
        (7, 6) => Some(ChapterWarp { dest: 0x9338, time: 90, sub: None, effect: ChapterEffect::NoEffect }),
        (7, 7) => Some(ChapterWarp { dest: 0x9338, time: 10, sub: Some((0x5f84, 0xB, 0x6018)), effect: ChapterEffect::NoEffect }),
        (7, 8) => Some(ChapterWarp { dest: 0x9338, time: 90, sub: Some((0x5f84, 0xB, 0x60c0)), effect: ChapterEffect::NoEffect }),
        (7, 9) => Some(ChapterWarp { dest: 0x9338, time: 90, sub: Some((0x5f84, 0xB, 0x6154)), effect: ChapterEffect::NoEffect }),
        _ => None,
    }
}

/// Returns the chapter warp row for `(stage, portion)`.
pub fn chapter_row(stage: u32, portion: u32) -> (r: Option<ChapterWarp>)
    ensures
        r == spec_chapter_row(stage, portion),
{
    match (stage, portion) {
        (1, 2) => Some(ChapterWarp::new(0x7494, 90).sub(0x3f4c, 0xB, 0x3fa8)),
        (1, 3) => Some(ChapterWarp::new(0x7544, 90).effect(ChapterEffect::SetChapter(2))),
        (1, 4) => Some(ChapterWarp::new(0x7544, 90).sub(0x4098, 0xF, 0x40fc)),
        (1, 5) => Some(ChapterWarp::new(0x75f8, 90).effect(ChapterEffect::SetChapter(5))),
        (1, 6) => Some(ChapterWarp::new(0x75f8, 90).sub(0x4150, 0xF, 0x41b8)),
        (2, 2) => Some(ChapterWarp::new(0x76ec, 90).sub(0x42b4, 0xB, 0x4354)),
        (2, 3) => Some(ChapterWarp::new(0x76ec, 90).sub(0x42b4, 0xB, 0x43d4)),
        (2, 4) => Some(ChapterWarp::new(0x778c, 29).effect(ChapterEffect::SetChapter(4))),
        (2, 5) => Some(ChapterWarp::new(0x778c, 0).sub(0x443c, 0xF, 0x448c)),
        (2, 6) => Some(ChapterWarp::new(0x778c, 90).sub(0x443c, 0xF, 0x450c)),
        (3, 2) => Some(ChapterWarp::new(0xa4cc, 90).sub(0x5b6c, 0xB, 0x5c00)),
        (3, 3) => Some(ChapterWarp::new(0xa4cc, 30).sub(0x5b6c, 0xB, 0x5c6c)),
        (3, 4) => Some(ChapterWarp::new(0xa56c, 50).effect(ChapterEffect::SetChapter(4))),
        (3, 5) => Some(ChapterWarp::new(0xa56c, 20).sub(0x5d0c, 0xF, 0x5d70)),
        (3, 6) => Some(ChapterWarp::new(0xa56c, 90).sub(0x5d0c, 0xF, 0x5df0)),
        (4, 2) => Some(ChapterWarp::new(0x8880, 90).sub(0x406c, 0xB, 0x40ec)),
        (4, 3) => Some(ChapterWarp::new(0x8880, 90).sub(0x406c, 0xB, 0x4158).effect(ChapterEffect::ZeroI32(0x5cc4))),
        (4, 4) => Some(ChapterWarp::new(0x8930, 90).effect(ChapterEffect::ZeroI32(0x6bc0))),
        (4, 5) => Some(ChapterWarp::new(0x8930, 90).sub(0x41e0, 0xF, 0x4244).effect(ChapterEffect::ZeroI32(0x6e74))),
        (4, 6) => Some(ChapterWarp::new(0x8930, 90).sub(0x41e0, 0xF, 0x42c4)),
        (5, 2) => Some(ChapterWarp::new(0xa180, 90).sub(0x6ed8, 0xB, 0x6f58)),
        (5, 3) => Some(ChapterWarp::new(0xa180, 90).sub(0x6ed8, 0xB, 0x7040).effect(ChapterEffect::ZeroI32(0x7ba0))),
        (5, 4) => Some(ChapterWarp::new(0xa180, 90).sub(0x6ed8, 0xB, 0x7098)),
        (5, 5) => Some(ChapterWarp::new(0xa1a0, 90).effect(ChapterEffect::ZeroI16(0x70f0))),
        (5, 6) => Some(ChapterWarp::new(0xa1a0, 90).sub(ST5_WAVE_SRC, 0x20C, ST5_WAVE_DESTS[1]).effect(ChapterEffect::ZeroI32(0x81c0))),
        (5, 7) => Some(ChapterWarp::new(0xa1a0, 90).sub(ST5_WAVE_SRC, 0x20C, ST5_WAVE_DESTS[2]).effect(ChapterEffect::ZeroI32(0x845c))),
        (5, 8) => Some(ChapterWarp::new(0xa1a0, 90).sub(ST5_WAVE_SRC, 0x20C, ST5_WAVE_DESTS[3]).effect(ChapterEffect::ZeroI32(0x87e0))),
        (5, 9) => Some(ChapterWarp::new(0xa1a0, 90).sub(ST5_WAVE_SRC, 0x20C, ST5_WAVE_DESTS[4]).effect(ChapterEffect::ZeroI32(0x8ce8))),
        (5, 10) => Some(ChapterWarp::new(0xa1a0, 90).sub(ST5_WAVE_SRC, 0x20C, ST5_WAVE_DESTS[5]).effect(ChapterEffect::ZeroI32(0x9a50))),
        (6, 2) => Some(ChapterWarp::new(0x93e0, 90).sub(0x2b34, 0xB, 0x2be8).effect(ChapterEffect::ZeroI32(0x38d0))),
        (6, 3) => Some(ChapterWarp::new(0x93e0, 90).sub(0x2b34, 0xB, 0x2c68).effect(ChapterEffect::ZeroI32(0x40ac))),
        (6, 4) => Some(ChapterWarp::new(0x93e0, 90).sub(0x2b34, 0xB, 0x2ce8).effect(ChapterEffect::ZeroI32(0x43b0))),
        (7, 2) => Some(ChapterWarp::new(0x9208, 90).sub(0x5d08, 0xB, 0x5d88)),
        (7, 3) => Some(ChapterWarp::new(0x9208, 90).sub(0x5d08, 0xB, 0x5e08)),
        (7, 4) => Some(ChapterWarp::new(0x9208, 90).sub(0x5d08, 0xB, 0x5e9c)),
        (7, 5) => Some(ChapterWarp::new(0x9208, 90).sub(0x5d08, 0xB, 0x5f30)),
        (7, 6) => Some(ChapterWarp::new(0x9338, 90)),
        (7, 7) => Some(ChapterWarp::new(0x9338, 10).sub(0x5f84, 0xB, 0x6018)),
        (7, 8) => Some(ChapterWarp::new(0x9338, 90).sub(0x5f84, 0xB, 0x60c0)),
        (7, 9) => Some(ChapterWarp::new(0x9338, 90).sub(0x5f84, 0xB, 0x6154)),
        _ => None,
    }
}

/// What a `(stage, portion)` pair dispatches to.
#[derive(Debug, Clone, Copy)]
pub enum ChapterDispatch {
    StageStart,
    Warp(ChapterWarp),
    Unmapped,
}

pub open spec fn spec_chapter_dispatch(stage: u32, portion: u32) -> ChapterDispatch {
    if portion == 1 {
        if 1 <= stage <= STAGES {
            ChapterDispatch::StageStart
        } else {
            ChapterDispatch::Unmapped
        }
    } else {
        match spec_chapter_row(stage, portion) {
            Some(row) => ChapterDispatch::Warp(row),
            None => ChapterDispatch::Unmapped,
        }
    }
}

impl ChapterDispatch {
    pub fn classify(stage: u32, portion: u32) -> (r: Self)
        ensures
            r == spec_chapter_dispatch(stage, portion),
    {
        if portion == 1 {
            if stage >= 1 && stage <= STAGES {
                return ChapterDispatch::StageStart;
            }
            return ChapterDispatch::Unmapped;
        }
        match chapter_row(stage, portion) {
            Some(row) => ChapterDispatch::Warp(row),
            None => ChapterDispatch::Unmapped,
        }
    }
}

/// Every chapter row names a real stage and a warpable portion.
pub proof fn lemma_chapter_rows_wf(stage: u32, portion: u32)
    ensures
        spec_chapter_row(stage, portion) is Some ==> 1 <= stage <= STAGES && portion >= 2,
{
}

/// The primitive stream of chapter row `row` on `stage`.
pub open spec fn chapter_prims(stage: u32, row: ChapterWarp) -> Seq<PrimOp> {
    seq![
        PrimOp::Jump {
            start: CHAPTER_STARTS@[stage - 1],
            expect: 0x2A,
            dest: row.dest,
            at_frame: 60,
            ecl_time: row.time,
        },
    ] + match row.sub {
        Some((from, expect, to)) => seq![
            PrimOp::Jump { start: from, expect, dest: to, at_frame: 0, ecl_time: 0 },
        ],
        None => seq![],
    } + match row.effect {
        ChapterEffect::NoEffect => seq![],
        ChapterEffect::SetChapter(n) => seq![PrimOp::SetChapter(n)],
        ChapterEffect::ZeroI16(at) => seq![PrimOp::I16 { at, v: 0 }],
        ChapterEffect::ZeroI32(at) => seq![PrimOp::I32 { at, v: 0 }],
    }
}

/// The primitive stream of a chapter warp, if `(stage, portion)` is mapped.
pub open spec fn spec_chapter_prims(stage: u32, portion: u32) -> Option<Seq<PrimOp>> {
    match spec_chapter_dispatch(stage, portion) {
        ChapterDispatch::StageStart => Some(seq![]),
        ChapterDispatch::Warp(row) => Some(chapter_prims(stage, row)),
        ChapterDispatch::Unmapped => None,
    }
}

/// Emits the full stream of primitive operations for a chapter warp. Returns whether the stage
/// and portion mapped to a chapter warp; on `false` nothing is emitted.
pub fn expand_chapter(stage: u32, portion: u32, emit: &mut Vec<PrimOp>) -> (r: bool)
    ensures
        r == spec_chapter_prims(stage, portion) is Some,
        r ==> final(emit)@ == old(emit)@ + spec_chapter_prims(stage, portion)->0,
        !r ==> final(emit)@ == old(emit)@,
{
    let ghost before = emit@;
    let row = match ChapterDispatch::classify(stage, portion) {
        ChapterDispatch::StageStart => {
            assert(emit@ =~= before + seq![]);
            return true;
        },
        ChapterDispatch::Warp(row) => row,
        ChapterDispatch::Unmapped => return false,
    };
    proof {
        lemma_chapter_rows_wf(stage, portion);
    }
    // Every `CHAPTER_STARTS` offset holds an id-0x2a instruction.
    emit.push(
        PrimOp::Jump {
            start: CHAPTER_STARTS[(stage - 1) as usize],
            expect: 0x2A,
            dest: row.dest,
            at_frame: 60,
            ecl_time: row.time,
        },
    );
    if let Some((from, expect, to)) = row.sub {
        emit.push(PrimOp::Jump { start: from, expect, dest: to, at_frame: 0, ecl_time: 0 });
    }
    match row.effect {
        ChapterEffect::NoEffect => {},
        ChapterEffect::SetChapter(n) => emit.push(PrimOp::SetChapter(n)),
        ChapterEffect::ZeroI16(at) => emit.push(PrimOp::I16 { at, v: 0 }),
        ChapterEffect::ZeroI32(at) => emit.push(PrimOp::I32 { at, v: 0 }),
    }
    assert(emit@ =~= before + chapter_prims(stage, row));
    true
}

// ---------------------------------------------------------------------------------------------
// Sections

/// The full primitive stream of `(section, phase)`, or `None` if the pair does not map to a
/// dispatchable warp.
pub open spec fn spec_section_prims(section: u32, phase: u32) -> Option<Seq<PrimOp>> {
    match spec_phase_parse(section, phase) {
        None => None,
        Some(p) => match spec_classify(section) {
            SectionId::Chapter { stage, portion } => spec_chapter_prims(stage, portion),
            SectionId::Named { .. } => match spec_warp_index(section) {
                Some(index) => Some(warp_prims(spec_warp(index), p)),
                None => None,
            },
        },
    }
}

/// Whether `(section, phase)` maps to a dispatchable warp.
pub open spec fn spec_section_mapped(section: u32, phase: u32) -> bool {
    spec_section_prims(section, phase) is Some
}

/// Emits the full primitive stream for `(section, phase)`. Returns whether the pair mapped; on
/// `false` nothing is emitted.
pub fn expand_section(section: u32, phase: u32, emit: &mut Vec<PrimOp>) -> (r: bool)
    ensures
        r == spec_section_mapped(section, phase),
        r ==> final(emit)@ == old(emit)@ + spec_section_prims(section, phase)->0,
        !r ==> final(emit)@ == old(emit)@,
{
    let Some(parsed) = Phase::parse(section, phase) else {
        return false;
    };
    match SectionId::classify(section) {
        SectionId::Chapter { stage, portion } => expand_chapter(stage, portion, emit),
        SectionId::Named { .. } => match warp_index(section) {
            Some(index) => {
                let row = warp(index);
                row.expand(parsed, emit);
                true
            },
            None => false,
        },
    }
}

/// Returns whether `(section, phase)` corresponds to a dispatchable warp.
pub fn section_mapped(section: u32, phase: u32) -> (r: bool)
    ensures
        r == spec_section_mapped(section, phase),
{
    let mut discard: Vec<PrimOp> = Vec::new();
    expand_section(section, phase, &mut discard)
}

/// A catalog row has phase-dependent operations exactly when its section accepts some nonzero
/// phase.
pub proof fn lemma_phase_dispatch_agrees(index: int)
    requires
        0 <= index < 73,
    ensures
        spec_warp(index).2 is Some <==> exists|phase: u32|
            phase != 0 && #[trigger] spec_phase_parse(WARP_SECTIONS@[index], phase) is Some,
{
    let section = WARP_SECTIONS@[index];
    if spec_warp(index).2 is Some {
        let witness: u32 = if section == ST7_S10 {
            11
        } else {
            1
        };
        assert(spec_phase_parse(section, witness) is Some);
    }
}

/// A dispatchable `(section, phase)` pair belongs to a real stage.
pub proof fn lemma_mapped_has_stage(section: u32, phase: u32)
    requires
        spec_section_mapped(section, phase),
    ensures
        spec_section_stage(section) is Some,
{
    match spec_classify(section) {
        SectionId::Chapter { stage, portion } => {
            lemma_chapter_rows_wf(stage, portion);
        },
        SectionId::Named { .. } => {
            lemma_first_row_from(section, 0);
            let index = spec_warp_index(section)->0;
            lemma_warp_sections_staged(index);
        },
    }
}

/// Whether `section` names the start of a stage's chapters: `10000 + stage * 100 + 1` for a
/// real stage.
pub open spec fn is_stage_start(section: u32) -> bool {
    &&& 10000 <= section < 20000
    &&& (section - 10000) % 100 == 1
    &&& 1 <= (section - 10000) / 100 <= STAGES
}

/// Every stored operation stands for at least one primitive operation.
proof fn lemma_op_prims_nonempty(op: Op)
    ensures
        op_prims(op).len() > 0,
{
}

/// A non-empty operation list stands for a non-empty primitive stream.
proof fn lemma_ops_prims_nonempty(ops: Seq<Op>)
    requires
        ops.len() > 0,
    ensures
        ops_prims(ops).len() > 0,
{
    lemma_op_prims_nonempty(ops.last());
}

/// A mapped `(section, phase)` pair expands to an empty stream exactly when it is a stage's
/// chapter start at phase 0: every other mapped pair emits at least one operation.
pub proof fn lemma_empty_stream_is_stage_start(section: u32, phase: u32)
    ensures
        (spec_section_mapped(section, phase) && spec_section_prims(section, phase)->0.len() == 0)
            <==> (phase == 0 && is_stage_start(section)),
{
    match spec_classify(section) {
        SectionId::Chapter { stage, portion } => {
            if let ChapterDispatch::Warp(row) = spec_chapter_dispatch(stage, portion) {
                assert(chapter_prims(stage, row).len() > 0);
            }
        },
        SectionId::Named { .. } => {
            lemma_first_row_from(section, 0);
            if let Some(index) = spec_warp_index(section) {
                lemma_warp_rows_nonempty(index);
                lemma_ops_prims_nonempty(spec_warp(index).1);
            }
        },
    }
}

/// The starting HP of `ST6_BOSS11`'s spell at each tier: tier 1 starts at 5500, tier 2 at 3500
/// and tier 3 at 1200, so a higher tier starts lower; tier 0 writes nothing and keeps the full
/// 8000 that the row sets.
pub proof fn lemma_st6_boss11_tiers(tier: u32, lower: u32)
    ensures
        st6_boss11_prims(Phase::Health(0)) == Seq::<PrimOp>::empty(),
        st6_boss11_prims(Phase::Health(1)) == seq![PrimOp::I32 { at: 0x698, v: 5500 }],
        st6_boss11_prims(Phase::Health(2)) == seq![PrimOp::I32 { at: 0x698, v: 3500 }],
        st6_boss11_prims(Phase::Health(3)) == seq![PrimOp::I32 { at: 0x698, v: 1200 }],
        1 <= lower < tier <= 3 ==> (st6_boss11_prims(Phase::Health(tier))[0] matches PrimOp::I32 {
            v: high_tier_hp,
            ..
        } && st6_boss11_prims(Phase::Health(lower))[0] matches PrimOp::I32 { v: low_tier_hp, .. }
            && high_tier_hp < low_tier_hp),
{
    assert(ST6_SPELL + 0x10 == 0x698);
}

/// Warping to `ST6_BOSS11` at HP tier 1 to 3 emits the tier-0 stream followed by one write of
/// the tier's starting HP (5500, 3500, 1200) into the spell's health field, after the row's own
/// full-HP write.
pub proof fn lemma_st6_boss11_section(tier: u32)
    requires
        1 <= tier <= 3,
    ensures
        spec_section_mapped(ST6_BOSS11, 0),
        spec_section_mapped(ST6_BOSS11, tier),
        spec_section_prims(ST6_BOSS11, tier)->0 == spec_section_prims(ST6_BOSS11, 0)->0 + seq![
            PrimOp::I32 {
                at: 0x698,
                v: if tier == 1 {
                    5500i32
                } else if tier == 2 {
                    3500i32
                } else {
                    1200i32
                },
            },
        ],
{
    lemma_first_row_from(ST6_BOSS11, 0);
    assert(WARP_SECTIONS@[51] == ST6_BOSS11);
    let index = spec_warp_index(ST6_BOSS11)->0;
    lemma_st6_boss11_row(index);
    lemma_st6_boss11_tiers(tier, 1);
    let row = spec_warp(index);
    assert(ops_prims(row.1) + seq![] =~= ops_prims(row.1));
}

} // verus!
