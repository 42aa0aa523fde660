//! The named-section rows of the warp catalog.
//!
//! Row `i` belongs to section `WARP_SECTIONS[i]`. [`spec_warp`] is the catalog as the contracts
//! see it; [`warp`] builds the same row for execution, and its contract proves the two equal.

use super::data::{
    Nonspell,
    Op,
    PhaseOps,
    ST1_BOSS1,
    ST1_BOSS2,
    ST1_BOSS3,
    ST1_BOSS4,
    ST1_MID1,
    ST1_MID2,
    ST1_MID3,
    ST1_SPELL,
    ST1_SPELL_START,
    ST1_START,
    ST2_BOSS1,
    ST2_BOSS2,
    ST2_BOSS3,
    ST2_BOSS4,
    ST2_BOSS5,
    ST2_BOSS6,
    ST2_MID1,
    ST2_SPELL,
    ST2_SPELL_START,
    ST2_START,
    ST3_BOSS1,
    ST3_BOSS2,
    ST3_BOSS3,
    ST3_BOSS4,
    ST3_BOSS5,
    ST3_BOSS6,
    ST3_BOSS7,
    ST3_MID1,
    ST3_MID2,
    ST3_SPELL,
    ST3_SPELL_START,
    ST3_START,
    ST4_BOSS1,
    ST4_BOSS2,
    ST4_BOSS3,
    ST4_BOSS4,
    ST4_BOSS5,
    ST4_BOSS6,
    ST4_BOSS7,
    ST4_MID1,
    ST4_SPELL,
    ST4_SPELL_START,
    ST4_START,
    ST5_BOSS1,
    ST5_BOSS2,
    ST5_BOSS3,
    ST5_BOSS4,
    ST5_BOSS5,
    ST5_BOSS6,
    ST5_BOSS7,
    ST5_BOSS8,
    ST5_MID1,
    ST5_SPELL,
    ST5_SPELL_START,
    ST6_BOSS1,
    ST6_BOSS10,
    ST6_BOSS11,
    ST6_BOSS2,
    ST6_BOSS3,
    ST6_BOSS4,
    ST6_BOSS5,
    ST6_BOSS6,
    ST6_BOSS7,
    ST6_BOSS8,
    ST6_BOSS9,
    ST6_EFFECT_BLOCK,
    ST6_SPELL,
    ST6_SPELL_START,
    ST6_STARS,
    ST6_START,
    ST7_BOSS_CREATE_CALL,
    ST7_BS_ANM_SELECT,
    ST7_BS_ANM_SELECT2,
    ST7_BS_ANM_SET_MAIN_ARG2,
    ST7_BS_ANM_SET_MAIN_INS,
    ST7_BS_ANM_SET_SPRITE1_ARG2,
    ST7_BS_ANM_SET_SPRITE2_ARG2,
    ST7_BS_MOVE_LIMIT_INS,
    ST7_BS_MOVE_POS_X,
    ST7_BS_MOVE_POS_Y,
    ST7_BS_SET_SPRITE_INS,
    ST7_MID1,
    ST7_MID2,
    ST7_MID3,
    ST7_NS1,
    ST7_NS2,
    ST7_NS3,
    ST7_NS4,
    ST7_NS5,
    ST7_NS6,
    ST7_NS7,
    ST7_NS8,
    ST7_S1,
    ST7_S10,
    ST7_S2,
    ST7_S3,
    ST7_S4,
    ST7_S5,
    ST7_S6,
    ST7_S7,
    ST7_S8,
    ST7_S9,
    ST7_START,
    Warp,
    Words,
    ops_wf,
    spec_section_stage,
};
use vstd::prelude::*;

verus! {

/// The section ID of each named catalog row, in row order.
pub const WARP_SECTIONS: [u32; 73] = [
    ST1_MID1,
    ST1_MID2,
    ST1_MID3,
    ST1_BOSS1,
    ST1_BOSS2,
    ST1_BOSS3,
    ST1_BOSS4,
    ST2_MID1,
    ST2_BOSS1,
    ST2_BOSS2,
    ST2_BOSS3,
    ST2_BOSS4,
    ST2_BOSS5,
    ST2_BOSS6,
    ST3_MID1,
    ST3_MID2,
    ST3_BOSS1,
    ST3_BOSS2,
    ST3_BOSS3,
    ST3_BOSS4,
    ST3_BOSS5,
    ST3_BOSS6,
    ST3_BOSS7,
    ST4_MID1,
    ST4_BOSS1,
    ST4_BOSS2,
    ST4_BOSS3,
    ST4_BOSS4,
    ST4_BOSS5,
    ST4_BOSS6,
    ST4_BOSS7,
    ST5_MID1,
    ST5_BOSS1,
    ST5_BOSS2,
    ST5_BOSS3,
    ST5_BOSS4,
    ST5_BOSS5,
    ST5_BOSS6,
    ST5_BOSS7,
    ST5_BOSS8,
    ST6_STARS,
    ST6_BOSS1,
    ST6_BOSS2,
    ST6_BOSS3,
    ST6_BOSS4,
    ST6_BOSS5,
    ST6_BOSS6,
    ST6_BOSS7,
    ST6_BOSS8,
    ST6_BOSS9,
    ST6_BOSS10,
    ST6_BOSS11,
    ST7_MID1,
    ST7_MID2,
    ST7_MID3,
    ST7_NS1,
    ST7_S1,
    ST7_NS2,
    ST7_S2,
    ST7_NS3,
    ST7_S3,
    ST7_NS4,
    ST7_S4,
    ST7_NS5,
    ST7_S5,
    ST7_NS6,
    ST7_S6,
    ST7_NS7,
    ST7_S7,
    ST7_NS8,
    ST7_S8,
    ST7_S9,
    ST7_S10,
];

/// Catalog rows 0..=6 (stage 1).
pub open spec fn spec_warp_stage1(index: int) -> (u32, Seq<Op>, Option<PhaseOps>) {
    if index == 0 {
        (ST1_MID1, seq![
            Op::Jump { start: ST1_START, expect: 0x17, dest: 0x74d8, at_frame: 60, ecl_time: 0 },
            Op::Skip(1),
        ], None)
    } else if index == 1 {
        (ST1_MID2, seq![
            Op::Jump { start: ST1_START, expect: 0x17, dest: 0x758c, at_frame: 60, ecl_time: 0 },
            Op::Skip(1),
        ], None)
    } else if index == 2 {
        (ST1_MID3, seq![
            Op::Jump { start: ST1_START, expect: 0x17, dest: 0x75b4, at_frame: 60, ecl_time: 0 },
            Op::File(4),
            Op::Skip(1),
            Op::Jump { start: 0x444, expect: 0x17, dest: 0x560, at_frame: 0, ecl_time: 0 },
            Op::I32 { at: 0x434, v: 60 },
            Op::I32 { at: 0x570, v: 60 },
            Op::I32 { at: 0x588, v: 9999 },
            Op::SeqAt { pos: 0x384, expect: 0x20F, words: Words::InvulnWindow },
        ], None)
    } else if index == 3 {
        (ST1_BOSS1, seq![
            Op::BossEntry { stage: 1, skips: 1 },
        ], None)
    } else if index == 4 {
        (ST1_BOSS2, seq![
            Op::BossEntry { stage: 1, skips: 2 },
            Op::EnterSpell { start: ST1_SPELL_START, dest: ST1_SPELL, at_frame: 1, health: 1700, ordinal: 0x31 },
        ], None)
    } else if index == 5 {
        (ST1_BOSS3, seq![
            Op::Nonspell { stage: 1, ns: Nonspell { select_at: 0x5d0, select_digit: 0x32, item_drops: 0x13ec, sound_effect: 0x151c } },
        ], None)
    } else if index == 6 {
        (ST1_BOSS4, seq![
            Op::BossEntry { stage: 1, skips: 2 },
            Op::EnterSpell { start: ST1_SPELL_START, dest: ST1_SPELL, at_frame: 1, health: 1900, ordinal: 0x32 },
        ], None)
    } else {
        (0, seq![], None)
    }
}

fn warp_stage1(index: usize) -> (r: Warp)
    requires
        0 <= index <= 6,
    ensures
        r@ == spec_warp_stage1(index as int),
        r@.0 == WARP_SECTIONS@[index as int],
        ops_wf(r@.1),
{
    match index {
        0 => Warp::new(ST1_MID1, vec![
            Op::Jump { start: ST1_START, expect: 0x17, dest: 0x74d8, at_frame: 60, ecl_time: 0 },
            Op::Skip(1),
        ]),
        1 => Warp::new(ST1_MID2, vec![
            Op::Jump { start: ST1_START, expect: 0x17, dest: 0x758c, at_frame: 60, ecl_time: 0 },
            Op::Skip(1),
        ]),
        2 => Warp::new(ST1_MID3, vec![
            Op::Jump { start: ST1_START, expect: 0x17, dest: 0x75b4, at_frame: 60, ecl_time: 0 },
            Op::File(4),
            Op::Skip(1),
            Op::Jump { start: 0x444, expect: 0x17, dest: 0x560, at_frame: 0, ecl_time: 0 },
            Op::I32 { at: 0x434, v: 60 },
            Op::I32 { at: 0x570, v: 60 },
            Op::I32 { at: 0x588, v: 9999 },
            Op::SeqAt { pos: 0x384, expect: 0x20F, words: Words::InvulnWindow },
        ]),
        3 => Warp::new(ST1_BOSS1, vec![
            Op::BossEntry { stage: 1, skips: 1 },
        ]),
        4 => Warp::new(ST1_BOSS2, vec![
            Op::BossEntry { stage: 1, skips: 2 },
            Op::EnterSpell { start: ST1_SPELL_START, dest: ST1_SPELL, at_frame: 1, health: 1700, ordinal: 0x31 },
        ]),
        5 => Warp::new(ST1_BOSS3, vec![
            Op::Nonspell { stage: 1, ns: Nonspell { select_at: 0x5d0, select_digit: 0x32, item_drops: 0x13ec, sound_effect: 0x151c } },
        ]),
        _ => Warp::new(ST1_BOSS4, vec![
            Op::BossEntry { stage: 1, skips: 2 },
            Op::EnterSpell { start: ST1_SPELL_START, dest: ST1_SPELL, at_frame: 1, health: 1900, ordinal: 0x32 },
        ]),
    }
}

/// Catalog rows 7..=13 (stage 2).
pub open spec fn spec_warp_stage2(index: int) -> (u32, Seq<Op>, Option<PhaseOps>) {
    if index == 7 {
        (ST2_MID1, seq![
            Op::Jump { start: ST2_START, expect: 0x17, dest: 0x7720, at_frame: 60, ecl_time: 0 },
            Op::Skip(1),
        ], None)
    } else if index == 8 {
        (ST2_BOSS1, seq![
            Op::BossEntry { stage: 2, skips: 1 },
        ], None)
    } else if index == 9 {
        (ST2_BOSS2, seq![
            Op::BossEntry { stage: 2, skips: 2 },
            Op::EnterSpell { start: ST2_SPELL_START, dest: ST2_SPELL, at_frame: 1, health: 2200, ordinal: 0x31 },
        ], None)
    } else if index == 10 {
        (ST2_BOSS3, seq![
            Op::Nonspell { stage: 2, ns: Nonspell { select_at: 0x644, select_digit: 0x32, item_drops: 0x1214, sound_effect: 0x1344 } },
            Op::I32 { at: 0x14bc, v: 59 },
            Op::I32 { at: 0x1508, v: 0 },
            Op::I32 { at: 0x1120, v: 60 },
        ], None)
    } else if index == 11 {
        (ST2_BOSS4, seq![
            Op::BossEntry { stage: 2, skips: 2 },
            Op::EnterSpell { start: ST2_SPELL_START, dest: ST2_SPELL, at_frame: 1, health: 2400, ordinal: 0x32 },
        ], None)
    } else if index == 12 {
        (ST2_BOSS5, seq![
            Op::Nonspell { stage: 2, ns: Nonspell { select_at: 0x644, select_digit: 0x33, item_drops: 0x1ea8, sound_effect: 0x1fd8 } },
            Op::I32 { at: 0x2150, v: 59 },
            Op::I32 { at: 0x219c, v: 0 },
            Op::I32 { at: 0x1db4, v: 60 },
        ], None)
    } else if index == 13 {
        (ST2_BOSS6, seq![
            Op::BossEntry { stage: 2, skips: 2 },
            Op::EnterSpell { start: ST2_SPELL_START, dest: ST2_SPELL, at_frame: 1, health: 2500, ordinal: 0x33 },
        ], None)
    } else {
        (0, seq![], None)
    }
}

fn warp_stage2(index: usize) -> (r: Warp)
    requires
        7 <= index <= 13,
    ensures
        r@ == spec_warp_stage2(index as int),
        r@.0 == WARP_SECTIONS@[index as int],
        ops_wf(r@.1),
{
    match index {
        7 => Warp::new(ST2_MID1, vec![
            Op::Jump { start: ST2_START, expect: 0x17, dest: 0x7720, at_frame: 60, ecl_time: 0 },
            Op::Skip(1),
        ]),
        8 => Warp::new(ST2_BOSS1, vec![
            Op::BossEntry { stage: 2, skips: 1 },
        ]),
        9 => Warp::new(ST2_BOSS2, vec![
            Op::BossEntry { stage: 2, skips: 2 },
            Op::EnterSpell { start: ST2_SPELL_START, dest: ST2_SPELL, at_frame: 1, health: 2200, ordinal: 0x31 },
        ]),
        10 => Warp::new(ST2_BOSS3, vec![
            Op::Nonspell { stage: 2, ns: Nonspell { select_at: 0x644, select_digit: 0x32, item_drops: 0x1214, sound_effect: 0x1344 } },
            Op::I32 { at: 0x14bc, v: 59 },
            Op::I32 { at: 0x1508, v: 0 },
            Op::I32 { at: 0x1120, v: 60 },
        ]),
        11 => Warp::new(ST2_BOSS4, vec![
            Op::BossEntry { stage: 2, skips: 2 },
            Op::EnterSpell { start: ST2_SPELL_START, dest: ST2_SPELL, at_frame: 1, health: 2400, ordinal: 0x32 },
        ]),
        12 => Warp::new(ST2_BOSS5, vec![
            Op::Nonspell { stage: 2, ns: Nonspell { select_at: 0x644, select_digit: 0x33, item_drops: 0x1ea8, sound_effect: 0x1fd8 } },
            Op::I32 { at: 0x2150, v: 59 },
            Op::I32 { at: 0x219c, v: 0 },
            Op::I32 { at: 0x1db4, v: 60 },
        ]),
        _ => Warp::new(ST2_BOSS6, vec![
            Op::BossEntry { stage: 2, skips: 2 },
            Op::EnterSpell { start: ST2_SPELL_START, dest: ST2_SPELL, at_frame: 1, health: 2500, ordinal: 0x33 },
        ]),
    }
}

/// Catalog rows 14..=22 (stage 3).
pub open spec fn spec_warp_stage3(index: int) -> (u32, Seq<Op>, Option<PhaseOps>) {
    if index == 14 {
        (ST3_MID1, seq![
            Op::Jump { start: ST3_START, expect: 0x17, dest: 0xa500, at_frame: 60, ecl_time: 0 },
            Op::Skip(1),
        ], None)
    } else if index == 15 {
        (ST3_MID2, seq![
            Op::Jump { start: ST3_START, expect: 0x17, dest: 0xa528, at_frame: 60, ecl_time: 0 },
            Op::File(3),
            Op::Skip(1),
            Op::Jump { start: 0x360, expect: 0x17, dest: 0x47c, at_frame: 0, ecl_time: 0 },
            Op::I32 { at: 0x350, v: 60 },
            Op::I32 { at: 0x48c, v: 60 },
            Op::I32 { at: 0x4a4, v: 9999 },
            Op::SeqAt { pos: 0x2a4, expect: 0x20F, words: Words::InvulnWindow },
        ], None)
    } else if index == 16 {
        (ST3_BOSS1, seq![
            Op::BossEntry { stage: 3, skips: 1 },
        ], None)
    } else if index == 17 {
        (ST3_BOSS2, seq![
            Op::BossEntry { stage: 3, skips: 2 },
            Op::EnterSpell { start: ST3_SPELL_START, dest: ST3_SPELL, at_frame: 1, health: 2000, ordinal: 0x31 },
        ], None)
    } else if index == 18 {
        (ST3_BOSS3, seq![
            Op::Nonspell { stage: 3, ns: Nonspell { select_at: 0x680, select_digit: 0x32, item_drops: 0x15d8, sound_effect: 0x1708 } },
            Op::I32 { at: 0x18ac, v: 0 },
            Op::I32 { at: 0x14e4, v: 60 },
        ], None)
    } else if index == 19 {
        (ST3_BOSS4, seq![
            Op::BossEntry { stage: 3, skips: 2 },
            Op::EnterSpell { start: ST3_SPELL_START, dest: ST3_SPELL, at_frame: 1, health: 2100, ordinal: 0x32 },
        ], None)
    } else if index == 20 {
        (ST3_BOSS5, seq![
            Op::Nonspell { stage: 3, ns: Nonspell { select_at: 0x680, select_digit: 0x33, item_drops: 0x27b0, sound_effect: 0x28e0 } },
            Op::I32 { at: 0x2a98, v: 0 },
            Op::I32 { at: 0x2a58, v: 60 },
        ], None)
    } else if index == 21 {
        (ST3_BOSS6, seq![
            Op::BossEntry { stage: 3, skips: 2 },
            Op::EnterSpell { start: ST3_SPELL_START, dest: ST3_SPELL, at_frame: 1, health: 2500, ordinal: 0x33 },
        ], None)
    } else if index == 22 {
        (ST3_BOSS7, seq![
            Op::BossEntry { stage: 3, skips: 2 },
            Op::EnterSpell { start: ST3_SPELL_START, dest: ST3_SPELL, at_frame: 1, health: 3000, ordinal: 0x34 },
        ], None)
    } else {
        (0, seq![], None)
    }
}

fn warp_stage3(index: usize) -> (r: Warp)
    requires
        14 <= index <= 22,
    ensures
        r@ == spec_warp_stage3(index as int),
        r@.0 == WARP_SECTIONS@[index as int],
        ops_wf(r@.1),
{
    match index {
        14 => Warp::new(ST3_MID1, vec![
            Op::Jump { start: ST3_START, expect: 0x17, dest: 0xa500, at_frame: 60, ecl_time: 0 },
            Op::Skip(1),
        ]),
        15 => Warp::new(ST3_MID2, vec![
            Op::Jump { start: ST3_START, expect: 0x17, dest: 0xa528, at_frame: 60, ecl_time: 0 },
            Op::File(3),
            Op::Skip(1),
            Op::Jump { start: 0x360, expect: 0x17, dest: 0x47c, at_frame: 0, ecl_time: 0 },
            Op::I32 { at: 0x350, v: 60 },
            Op::I32 { at: 0x48c, v: 60 },
            Op::I32 { at: 0x4a4, v: 9999 },
            Op::SeqAt { pos: 0x2a4, expect: 0x20F, words: Words::InvulnWindow },
        ]),
        16 => Warp::new(ST3_BOSS1, vec![
            Op::BossEntry { stage: 3, skips: 1 },
        ]),
        17 => Warp::new(ST3_BOSS2, vec![
            Op::BossEntry { stage: 3, skips: 2 },
            Op::EnterSpell { start: ST3_SPELL_START, dest: ST3_SPELL, at_frame: 1, health: 2000, ordinal: 0x31 },
        ]),
        18 => Warp::new(ST3_BOSS3, vec![
            Op::Nonspell { stage: 3, ns: Nonspell { select_at: 0x680, select_digit: 0x32, item_drops: 0x15d8, sound_effect: 0x1708 } },
            Op::I32 { at: 0x18ac, v: 0 },
            Op::I32 { at: 0x14e4, v: 60 },
        ]),
        19 => Warp::new(ST3_BOSS4, vec![
            Op::BossEntry { stage: 3, skips: 2 },
            Op::EnterSpell { start: ST3_SPELL_START, dest: ST3_SPELL, at_frame: 1, health: 2100, ordinal: 0x32 },
        ]),
        20 => Warp::new(ST3_BOSS5, vec![
            Op::Nonspell { stage: 3, ns: Nonspell { select_at: 0x680, select_digit: 0x33, item_drops: 0x27b0, sound_effect: 0x28e0 } },
            Op::I32 { at: 0x2a98, v: 0 },
            Op::I32 { at: 0x2a58, v: 60 },
        ]),
        21 => Warp::new(ST3_BOSS6, vec![
            Op::BossEntry { stage: 3, skips: 2 },
            Op::EnterSpell { start: ST3_SPELL_START, dest: ST3_SPELL, at_frame: 1, health: 2500, ordinal: 0x33 },
        ]),
        _ => Warp::new(ST3_BOSS7, vec![
            Op::BossEntry { stage: 3, skips: 2 },
            Op::EnterSpell { start: ST3_SPELL_START, dest: ST3_SPELL, at_frame: 1, health: 3000, ordinal: 0x34 },
        ]),
    }
}

/// Catalog rows 23..=30 (stage 4).
pub open spec fn spec_warp_stage4(index: int) -> (u32, Seq<Op>, Option<PhaseOps>) {
    if index == 23 {
        (ST4_MID1, seq![
            Op::Jump { start: ST4_START, expect: 0x17, dest: 0x88ec, at_frame: 60, ecl_time: 0 },
            Op::Skip(1),
        ], None)
    } else if index == 24 {
        (ST4_BOSS1, seq![
            Op::BossEntry { stage: 4, skips: 1 },
        ], None)
    } else if index == 25 {
        (ST4_BOSS2, seq![
            Op::BossEntry { stage: 4, skips: 2 },
            Op::EnterSpell { start: ST4_SPELL_START, dest: ST4_SPELL, at_frame: 1, health: 2300, ordinal: 0x31 },
        ], None)
    } else if index == 26 {
        (ST4_BOSS3, seq![
            Op::Nonspell { stage: 4, ns: Nonspell { select_at: 0x4418, select_digit: 0x32, item_drops: 0x4f24, sound_effect: 0x5054 } },
            Op::I32 { at: 0x51cc, v: 20 },
            Op::I32 { at: 0x4e30, v: 0 },
        ], None)
    } else if index == 27 {
        (ST4_BOSS4, seq![
            Op::BossEntry { stage: 4, skips: 2 },
            Op::EnterSpell { start: ST4_SPELL_START, dest: ST4_SPELL, at_frame: 1, health: 3100, ordinal: 0x32 },
        ], None)
    } else if index == 28 {
        (ST4_BOSS5, seq![
            Op::Nonspell { stage: 4, ns: Nonspell { select_at: 0x4418, select_digit: 0x33, item_drops: 0x5d40, sound_effect: 0x5e70 } },
            Op::I32 { at: 0x5ffc, v: 20 },
            Op::I32 { at: 0x5fe8, v: 0 },
        ], None)
    } else if index == 29 {
        (ST4_BOSS6, seq![
            Op::BossEntry { stage: 4, skips: 2 },
            Op::EnterSpell { start: ST4_SPELL_START, dest: ST4_SPELL, at_frame: 1, health: 2500, ordinal: 0x33 },
        ], None)
    } else if index == 30 {
        (ST4_BOSS7, seq![
            Op::BossEntry { stage: 4, skips: 2 },
            Op::Jump { start: ST4_SPELL_START, expect: 0x2A, dest: 0x42b4, at_frame: 1, ecl_time: 0 },
            Op::Pos(0x42b4),
            Op::SeqCont { words: Words::St4Boss7Spell },
            Op::SpellFields { base: ST4_SPELL, health: 3400, ordinal: 0x34 },
        ], None)
    } else {
        (0, seq![], None)
    }
}

fn warp_stage4(index: usize) -> (r: Warp)
    requires
        23 <= index <= 30,
    ensures
        r@ == spec_warp_stage4(index as int),
        r@.0 == WARP_SECTIONS@[index as int],
        ops_wf(r@.1),
{
    match index {
        23 => Warp::new(ST4_MID1, vec![
            Op::Jump { start: ST4_START, expect: 0x17, dest: 0x88ec, at_frame: 60, ecl_time: 0 },
            Op::Skip(1),
        ]),
        24 => Warp::new(ST4_BOSS1, vec![
            Op::BossEntry { stage: 4, skips: 1 },
        ]),
        25 => Warp::new(ST4_BOSS2, vec![
            Op::BossEntry { stage: 4, skips: 2 },
            Op::EnterSpell { start: ST4_SPELL_START, dest: ST4_SPELL, at_frame: 1, health: 2300, ordinal: 0x31 },
        ]),
        26 => Warp::new(ST4_BOSS3, vec![
            Op::Nonspell { stage: 4, ns: Nonspell { select_at: 0x4418, select_digit: 0x32, item_drops: 0x4f24, sound_effect: 0x5054 } },
            Op::I32 { at: 0x51cc, v: 20 },
            Op::I32 { at: 0x4e30, v: 0 },
        ]),
        27 => Warp::new(ST4_BOSS4, vec![
            Op::BossEntry { stage: 4, skips: 2 },
            Op::EnterSpell { start: ST4_SPELL_START, dest: ST4_SPELL, at_frame: 1, health: 3100, ordinal: 0x32 },
        ]),
        28 => Warp::new(ST4_BOSS5, vec![
            Op::Nonspell { stage: 4, ns: Nonspell { select_at: 0x4418, select_digit: 0x33, item_drops: 0x5d40, sound_effect: 0x5e70 } },
            Op::I32 { at: 0x5ffc, v: 20 },
            Op::I32 { at: 0x5fe8, v: 0 },
        ]),
        29 => Warp::new(ST4_BOSS6, vec![
            Op::BossEntry { stage: 4, skips: 2 },
            Op::EnterSpell { start: ST4_SPELL_START, dest: ST4_SPELL, at_frame: 1, health: 2500, ordinal: 0x33 },
        ]),
        _ => Warp::new(ST4_BOSS7, vec![
            Op::BossEntry { stage: 4, skips: 2 },
            Op::Jump { start: ST4_SPELL_START, expect: 0x2A, dest: 0x42b4, at_frame: 1, ecl_time: 0 },
            Op::Pos(0x42b4),
            Op::SeqCont { words: Words::St4Boss7Spell },
            Op::SpellFields { base: ST4_SPELL, health: 3400, ordinal: 0x34 },
        ]),
    }
}

/// Catalog rows 31..=39 (stage 5).
pub open spec fn spec_warp_stage5(index: int) -> (u32, Seq<Op>, Option<PhaseOps>) {
    if index == 31 {
        (ST5_MID1, seq![
            Op::Skip(1),
        ], Some(PhaseOps::St5Mid1))
    } else if index == 32 {
        (ST5_BOSS1, seq![
            Op::BossEntry { stage: 5, skips: 1 },
        ], None)
    } else if index == 33 {
        (ST5_BOSS2, seq![
            Op::BossEntry { stage: 5, skips: 2 },
            Op::EnterSpell { start: ST5_SPELL_START, dest: ST5_SPELL, at_frame: 0, health: 1, ordinal: 0x31 },
        ], None)
    } else if index == 34 {
        (ST5_BOSS3, seq![
            Op::Nonspell { stage: 5, ns: Nonspell { select_at: 0x760, select_digit: 0x32, item_drops: 0x1394, sound_effect: 0x14c4 } },
            Op::I32 { at: 0x163c, v: 59 },
            Op::I32 { at: 0x165c, v: 0 },
            Op::I32 { at: 0x12ac, v: 0 },
        ], None)
    } else if index == 35 {
        (ST5_BOSS4, seq![
            Op::BossEntry { stage: 5, skips: 2 },
            Op::EnterSpell { start: ST5_SPELL_START, dest: ST5_SPELL, at_frame: 0, health: 3400, ordinal: 0x32 },
        ], None)
    } else if index == 36 {
        (ST5_BOSS5, seq![
            Op::Nonspell { stage: 5, ns: Nonspell { select_at: 0x760, select_digit: 0x33, item_drops: 0x2744, sound_effect: 0x2874 } },
            Op::I32 { at: 0x29ec, v: 59 },
            Op::I32 { at: 0x2a0c, v: 0 },
        ], None)
    } else if index == 37 {
        (ST5_BOSS6, seq![
            Op::BossEntry { stage: 5, skips: 2 },
            Op::EnterSpell { start: ST5_SPELL_START, dest: ST5_SPELL, at_frame: 0, health: 2320, ordinal: 0x33 },
        ], None)
    } else if index == 38 {
        (ST5_BOSS7, seq![
            Op::BossEntry { stage: 5, skips: 2 },
            Op::EnterSpell { start: ST5_SPELL_START, dest: ST5_SPELL, at_frame: 0, health: 3001, ordinal: 0x34 },
        ], None)
    } else if index == 39 {
        (ST5_BOSS8, seq![
            Op::BossEntry { stage: 5, skips: 2 },
            Op::EnterSpell { start: ST5_SPELL_START, dest: ST5_SPELL, at_frame: 0, health: 1, ordinal: 0x35 },
        ], None)
    } else {
        (0, seq![], None)
    }
}

fn warp_stage5(index: usize) -> (r: Warp)
    requires
        31 <= index <= 39,
    ensures
        r@ == spec_warp_stage5(index as int),
        r@.0 == WARP_SECTIONS@[index as int],
        ops_wf(r@.1),
{
    match index {
        31 => Warp::with_phase(ST5_MID1, vec![
            Op::Skip(1),
        ], PhaseOps::St5Mid1),
        32 => Warp::new(ST5_BOSS1, vec![
            Op::BossEntry { stage: 5, skips: 1 },
        ]),
        33 => Warp::new(ST5_BOSS2, vec![
            Op::BossEntry { stage: 5, skips: 2 },
            Op::EnterSpell { start: ST5_SPELL_START, dest: ST5_SPELL, at_frame: 0, health: 1, ordinal: 0x31 },
        ]),
        34 => Warp::new(ST5_BOSS3, vec![
            Op::Nonspell { stage: 5, ns: Nonspell { select_at: 0x760, select_digit: 0x32, item_drops: 0x1394, sound_effect: 0x14c4 } },
            Op::I32 { at: 0x163c, v: 59 },
            Op::I32 { at: 0x165c, v: 0 },
            Op::I32 { at: 0x12ac, v: 0 },
        ]),
        35 => Warp::new(ST5_BOSS4, vec![
            Op::BossEntry { stage: 5, skips: 2 },
            Op::EnterSpell { start: ST5_SPELL_START, dest: ST5_SPELL, at_frame: 0, health: 3400, ordinal: 0x32 },
        ]),
        36 => Warp::new(ST5_BOSS5, vec![
            Op::Nonspell { stage: 5, ns: Nonspell { select_at: 0x760, select_digit: 0x33, item_drops: 0x2744, sound_effect: 0x2874 } },
            Op::I32 { at: 0x29ec, v: 59 },
            Op::I32 { at: 0x2a0c, v: 0 },
        ]),
        37 => Warp::new(ST5_BOSS6, vec![
            Op::BossEntry { stage: 5, skips: 2 },
            Op::EnterSpell { start: ST5_SPELL_START, dest: ST5_SPELL, at_frame: 0, health: 2320, ordinal: 0x33 },
        ]),
        38 => Warp::new(ST5_BOSS7, vec![
            Op::BossEntry { stage: 5, skips: 2 },
            Op::EnterSpell { start: ST5_SPELL_START, dest: ST5_SPELL, at_frame: 0, health: 3001, ordinal: 0x34 },
        ]),
        _ => Warp::new(ST5_BOSS8, vec![
            Op::BossEntry { stage: 5, skips: 2 },
            Op::EnterSpell { start: ST5_SPELL_START, dest: ST5_SPELL, at_frame: 0, health: 1, ordinal: 0x35 },
        ]),
    }
}

/// Catalog rows 40..=51 (stage 6).
pub open spec fn spec_warp_stage6(index: int) -> (u32, Seq<Op>, Option<PhaseOps>) {
    if index == 40 {
        (ST6_STARS, seq![
            Op::Jump { start: ST6_START, expect: 0x17, dest: 0x93e0, at_frame: 0, ecl_time: 0 },
            Op::Jump { start: 0x2b34, expect: 0xB, dest: 0x2c40, at_frame: 60, ecl_time: 0 },
            Op::Skip(1),
        ], None)
    } else if index == 41 {
        (ST6_BOSS1, seq![
            Op::BossEntry { stage: 6, skips: 1 },
        ], None)
    } else if index == 42 {
        (ST6_BOSS2, seq![
            Op::BossEntry { stage: 6, skips: 2 },
            Op::EnterSpell { start: ST6_SPELL_START, dest: ST6_SPELL, at_frame: 0, health: 4000, ordinal: 0x31 },
        ], None)
    } else if index == 43 {
        (ST6_BOSS3, seq![
            Op::Nonspell { stage: 6, ns: Nonspell { select_at: 0x7d8, select_digit: 0x32, item_drops: 0x1274, sound_effect: 0x13a4 } },
            Op::I32 { at: 0x1528, v: 0 },
            Op::I32 { at: 0x1178, v: 0 },
        ], None)
    } else if index == 44 {
        (ST6_BOSS4, seq![
            Op::BossEntry { stage: 6, skips: 2 },
            Op::EnterSpell { start: ST6_SPELL_START, dest: ST6_SPELL, at_frame: 0, health: 2600, ordinal: 0x32 },
        ], None)
    } else if index == 45 {
        (ST6_BOSS5, seq![
            Op::Nonspell { stage: 6, ns: Nonspell { select_at: 0x7d8, select_digit: 0x33, item_drops: 0x1f84, sound_effect: 0x20b4 } },
        ], None)
    } else if index == 46 {
        (ST6_BOSS6, seq![
            Op::BossEntry { stage: 6, skips: 2 },
            Op::Jump { start: ST6_SPELL_START, expect: 0x2A, dest: ST6_EFFECT_BLOCK, at_frame: 0, ecl_time: 0 },
            Op::SpellFields { base: ST6_SPELL, health: 4000, ordinal: 0x33 },
            Op::St6BossEffect { pos_str: 0x6f70_5f33 },
        ], None)
    } else if index == 47 {
        (ST6_BOSS7, seq![
            Op::Nonspell { stage: 6, ns: Nonspell { select_at: 0x7d8, select_digit: 0x34, item_drops: 0x302c, sound_effect: 0x315c } },
        ], None)
    } else if index == 48 {
        (ST6_BOSS8, seq![
            Op::BossEntry { stage: 6, skips: 2 },
            Op::Jump { start: ST6_SPELL_START, expect: 0x2A, dest: ST6_EFFECT_BLOCK, at_frame: 0, ecl_time: 0 },
            Op::SpellFields { base: ST6_SPELL, health: 3700, ordinal: 0x34 },
            Op::St6BossEffect { pos_str: 0x6f70_5f34 },
        ], None)
    } else if index == 49 {
        (ST6_BOSS9, seq![
            Op::BossEntry { stage: 6, skips: 2 },
            Op::EnterSpell { start: ST6_SPELL_START, dest: ST6_SPELL, at_frame: 0, health: 5000, ordinal: 0x35 },
        ], None)
    } else if index == 50 {
        (ST6_BOSS10, seq![
            Op::BossEntry { stage: 6, skips: 2 },
            Op::EnterSpell { start: ST6_SPELL_START, dest: ST6_SPELL, at_frame: 0, health: 6000, ordinal: 0x36 },
        ], None)
    } else if index == 51 {
        (ST6_BOSS11, seq![
            Op::BossEntry { stage: 6, skips: 2 },
            Op::Jump { start: ST6_SPELL_START, expect: 0x2A, dest: ST6_EFFECT_BLOCK, at_frame: 0, ecl_time: 0 },
            Op::SpellFields { base: ST6_SPELL, health: 8000, ordinal: 0x37 },
            Op::St6BossEffect { pos_str: 0x6f70_5f34 },
        ], Some(PhaseOps::St6Boss11))
    } else {
        (0, seq![], None)
    }
}

fn warp_stage6(index: usize) -> (r: Warp)
    requires
        40 <= index <= 51,
    ensures
        r@ == spec_warp_stage6(index as int),
        r@.0 == WARP_SECTIONS@[index as int],
        ops_wf(r@.1),
{
    match index {
        40 => Warp::new(ST6_STARS, vec![
            Op::Jump { start: ST6_START, expect: 0x17, dest: 0x93e0, at_frame: 0, ecl_time: 0 },
            Op::Jump { start: 0x2b34, expect: 0xB, dest: 0x2c40, at_frame: 60, ecl_time: 0 },
            Op::Skip(1),
        ]),
        41 => Warp::new(ST6_BOSS1, vec![
            Op::BossEntry { stage: 6, skips: 1 },
        ]),
        42 => Warp::new(ST6_BOSS2, vec![
            Op::BossEntry { stage: 6, skips: 2 },
            Op::EnterSpell { start: ST6_SPELL_START, dest: ST6_SPELL, at_frame: 0, health: 4000, ordinal: 0x31 },
        ]),
        43 => Warp::new(ST6_BOSS3, vec![
            Op::Nonspell { stage: 6, ns: Nonspell { select_at: 0x7d8, select_digit: 0x32, item_drops: 0x1274, sound_effect: 0x13a4 } },
            Op::I32 { at: 0x1528, v: 0 },
            Op::I32 { at: 0x1178, v: 0 },
        ]),
        44 => Warp::new(ST6_BOSS4, vec![
            Op::BossEntry { stage: 6, skips: 2 },
            Op::EnterSpell { start: ST6_SPELL_START, dest: ST6_SPELL, at_frame: 0, health: 2600, ordinal: 0x32 },
        ]),
        45 => Warp::new(ST6_BOSS5, vec![
            Op::Nonspell { stage: 6, ns: Nonspell { select_at: 0x7d8, select_digit: 0x33, item_drops: 0x1f84, sound_effect: 0x20b4 } },
        ]),
        46 => Warp::new(ST6_BOSS6, vec![
            Op::BossEntry { stage: 6, skips: 2 },
            Op::Jump { start: ST6_SPELL_START, expect: 0x2A, dest: ST6_EFFECT_BLOCK, at_frame: 0, ecl_time: 0 },
            Op::SpellFields { base: ST6_SPELL, health: 4000, ordinal: 0x33 },
            Op::St6BossEffect { pos_str: 0x6f70_5f33 },
        ]),
        47 => Warp::new(ST6_BOSS7, vec![
            Op::Nonspell { stage: 6, ns: Nonspell { select_at: 0x7d8, select_digit: 0x34, item_drops: 0x302c, sound_effect: 0x315c } },
        ]),
        48 => Warp::new(ST6_BOSS8, vec![
            Op::BossEntry { stage: 6, skips: 2 },
            Op::Jump { start: ST6_SPELL_START, expect: 0x2A, dest: ST6_EFFECT_BLOCK, at_frame: 0, ecl_time: 0 },
            Op::SpellFields { base: ST6_SPELL, health: 3700, ordinal: 0x34 },
            Op::St6BossEffect { pos_str: 0x6f70_5f34 },
        ]),
        49 => Warp::new(ST6_BOSS9, vec![
            Op::BossEntry { stage: 6, skips: 2 },
            Op::EnterSpell { start: ST6_SPELL_START, dest: ST6_SPELL, at_frame: 0, health: 5000, ordinal: 0x35 },
        ]),
        50 => Warp::new(ST6_BOSS10, vec![
            Op::BossEntry { stage: 6, skips: 2 },
            Op::EnterSpell { start: ST6_SPELL_START, dest: ST6_SPELL, at_frame: 0, health: 6000, ordinal: 0x36 },
        ]),
        _ => Warp::with_phase(ST6_BOSS11, vec![
            Op::BossEntry { stage: 6, skips: 2 },
            Op::Jump { start: ST6_SPELL_START, expect: 0x2A, dest: ST6_EFFECT_BLOCK, at_frame: 0, ecl_time: 0 },
            Op::SpellFields { base: ST6_SPELL, health: 8000, ordinal: 0x37 },
            Op::St6BossEffect { pos_str: 0x6f70_5f34 },
        ], PhaseOps::St6Boss11),
    }
}

/// Catalog rows 52..=72 (stage 7).
pub open spec fn spec_warp_stage7(index: int) -> (u32, Seq<Op>, Option<PhaseOps>) {
    if index == 52 {
        (ST7_MID1, seq![
            Op::Jump { start: ST7_START, expect: 0x17, dest: 0x92a8, at_frame: 60, ecl_time: 0 },
            Op::Skip(1),
            Op::St7Mid { health: 2200, ordinal: 0x31 },
        ], None)
    } else if index == 53 {
        (ST7_MID2, seq![
            Op::Jump { start: ST7_START, expect: 0x17, dest: 0x92a8, at_frame: 60, ecl_time: 0 },
            Op::Skip(1),
            Op::St7Mid { health: 2200, ordinal: 0x32 },
        ], None)
    } else if index == 54 {
        (ST7_MID3, seq![
            Op::Jump { start: ST7_START, expect: 0x17, dest: 0x92a8, at_frame: 60, ecl_time: 0 },
            Op::Skip(1),
            Op::St7Mid { health: 3000, ordinal: 0x33 },
        ], None)
    } else if index == 55 {
        (ST7_NS1, seq![
            Op::St7Bonus,
            Op::Jump { start: ST7_START, expect: 0x17, dest: ST7_BOSS_CREATE_CALL, at_frame: 60, ecl_time: 0 },
            Op::St7HideSubboss,
            Op::Skip(1),
        ], None)
    } else if index == 56 {
        (ST7_S1, seq![
            Op::St7BossEntry,
            Op::St7EnterSpell { health: 3000, ordinal: 0x31, junko: false },
        ], None)
    } else if index == 57 {
        (ST7_NS2, seq![
            Op::St7BossEntry,
            Op::File(3),
            Op::I32 { at: 0x708, v: 0x32 },
            Op::I16 { at: 0x16f4, v: 0 },
            Op::I16 { at: 0x1824, v: 0 },
            Op::I32 { at: 0x199c, v: 59 },
            Op::I32 { at: 0x19bc, v: 0 },
            Op::I32 { at: 0x15dc, v: 0 },
            Op::I16 { at: ST7_BS_SET_SPRITE_INS, v: 0 },
            Op::I16 { at: 0x191c, v: 0 },
            Op::I32 { at: ST7_BS_ANM_SET_MAIN_ARG2, v: 14 },
            Op::I32 { at: ST7_BS_ANM_SET_SPRITE2_ARG2, v: 120 },
            Op::Jump { start: 0x1a90, expect: 0x204, dest: 0x1ae8, at_frame: 24, ecl_time: 0 },
        ], None)
    } else if index == 58 {
        (ST7_S2, seq![
            Op::St7BossEntry,
            Op::St7EnterSpell { health: 3400, ordinal: 0x32, junko: false },
            Op::I16 { at: ST7_BS_SET_SPRITE_INS, v: 0 },
            Op::I32 { at: ST7_BS_ANM_SET_MAIN_ARG2, v: 14 },
            Op::I32 { at: ST7_BS_ANM_SET_SPRITE2_ARG2, v: 120 },
        ], None)
    } else if index == 59 {
        (ST7_NS3, seq![
            Op::St7BossEntry,
            Op::File(3),
            Op::I32 { at: 0x708, v: 0x33 },
            Op::I16 { at: 0x2430, v: 0 },
            Op::I16 { at: 0x2560, v: 0 },
            Op::I32 { at: 0x26d8, v: 59 },
            Op::I32 { at: 0x26f8, v: 0 },
            Op::I32 { at: 0x2318, v: 0 },
            Op::I16 { at: ST7_BS_SET_SPRITE_INS, v: 0 },
            Op::I16 { at: 0x2658, v: 0 },
            Op::I32 { at: ST7_BS_ANM_SET_MAIN_ARG2, v: 7 },
            Op::I32 { at: ST7_BS_ANM_SET_SPRITE2_ARG2, v: 132 },
            Op::Jump { start: 0x276c, expect: 0x204, dest: 0x2798, at_frame: 24, ecl_time: 0 },
        ], None)
    } else if index == 60 {
        (ST7_S3, seq![
            Op::St7BossEntry,
            Op::St7EnterSpell { health: 3000, ordinal: 0x33, junko: false },
            Op::I16 { at: ST7_BS_SET_SPRITE_INS, v: 0 },
            Op::I32 { at: ST7_BS_ANM_SET_MAIN_ARG2, v: 7 },
            Op::I32 { at: ST7_BS_ANM_SET_SPRITE2_ARG2, v: 132 },
        ], None)
    } else if index == 61 {
        (ST7_NS4, seq![
            Op::St7BossEntry,
            Op::File(3),
            Op::I32 { at: 0x708, v: 0x34 },
            Op::I16 { at: 0x32a0, v: 0 },
            Op::I16 { at: 0x32e8, v: 0 },
            Op::I16 { at: 0x3418, v: 0 },
            Op::Jump { start: 0x3548, expect: 0x191, dest: 0x35b0, at_frame: 0, ecl_time: 0 },
            Op::I32 { at: 0x31c4, v: 10 },
            Op::I16 { at: ST7_BS_SET_SPRITE_INS, v: 0 },
            Op::I16 { at: 0x3510, v: 0 },
            Op::I32 { at: ST7_BS_ANM_SET_MAIN_ARG2, v: 0 },
            Op::I32 { at: ST7_BS_ANM_SET_SPRITE2_ARG2, v: 116 },
            Op::I32 { at: ST7_BS_ANM_SELECT, v: 5 },
        ], None)
    } else if index == 62 {
        (ST7_S4, seq![
            Op::St7BossEntry,
            Op::St7EnterSpell { health: 2000, ordinal: 0x34, junko: true },
            Op::I16 { at: ST7_BS_SET_SPRITE_INS, v: 0 },
            Op::I32 { at: ST7_BS_ANM_SET_MAIN_ARG2, v: 0 },
            Op::I32 { at: ST7_BS_ANM_SET_SPRITE2_ARG2, v: 116 },
            Op::I32 { at: ST7_BS_ANM_SELECT, v: 5 },
        ], None)
    } else if index == 63 {
        (ST7_NS5, seq![
            Op::St7BossEntry,
            Op::File(3),
            Op::I32 { at: 0x708, v: 0x35 },
            Op::I16 { at: 0x4464, v: 0 },
            Op::I16 { at: 0x44c0, v: 0 },
            Op::I16 { at: 0x45f0, v: 0 },
            Op::Jump { start: 0x4720, expect: 0x191, dest: 0x4788, at_frame: 0, ecl_time: 0 },
            Op::I32 { at: 0x4388, v: 0 },
            Op::I16 { at: 0x46e8, v: 0 },
        ], None)
    } else if index == 64 {
        (ST7_S5, seq![
            Op::St7BossEntry,
            Op::St7EnterSpell { health: 3500, ordinal: 0x35, junko: false },
        ], None)
    } else if index == 65 {
        (ST7_NS6, seq![
            Op::St7BossEntry,
            Op::File(3),
            Op::I32 { at: 0x708, v: 0x36 },
            Op::I16 { at: 0x5368, v: 0 },
            Op::I16 { at: 0x5498, v: 0 },
            Op::I32 { at: 0x5610, v: 59 },
            Op::I32 { at: 0x5630, v: 0 },
            Op::I32 { at: 0x5250, v: 0 },
            Op::I16 { at: ST7_BS_SET_SPRITE_INS, v: 0 },
            Op::I16 { at: 0x5590, v: 0 },
            Op::I32 { at: ST7_BS_ANM_SET_MAIN_ARG2, v: 14 },
            Op::I32 { at: ST7_BS_ANM_SET_SPRITE2_ARG2, v: 120 },
            Op::Jump { start: 0x5694, expect: 0x204, dest: 0x56ec, at_frame: 24, ecl_time: 0 },
        ], None)
    } else if index == 66 {
        (ST7_S6, seq![
            Op::St7BossEntry,
            Op::St7EnterSpell { health: 3500, ordinal: 0x36, junko: false },
            Op::I16 { at: 0xd898, v: 0 },
            Op::I16 { at: ST7_BS_SET_SPRITE_INS, v: 0 },
            Op::I32 { at: ST7_BS_ANM_SET_MAIN_ARG2, v: 14 },
            Op::I32 { at: ST7_BS_ANM_SET_SPRITE2_ARG2, v: 120 },
        ], None)
    } else if index == 67 {
        (ST7_NS7, seq![
            Op::St7BossEntry,
            Op::File(3),
            Op::I32 { at: 0x708, v: 0x37 },
            Op::I16 { at: 0x6198, v: 0 },
            Op::I16 { at: 0x62c8, v: 0 },
            Op::I32 { at: 0x6440, v: 59 },
            Op::I32 { at: 0x6460, v: 0 },
            Op::I32 { at: 0x6080, v: 0 },
            Op::I16 { at: ST7_BS_SET_SPRITE_INS, v: 0 },
            Op::I16 { at: 0x63c0, v: 0 },
            Op::I32 { at: ST7_BS_ANM_SET_MAIN_ARG2, v: 7 },
            Op::I32 { at: ST7_BS_ANM_SET_SPRITE2_ARG2, v: 132 },
            Op::Jump { start: 0x64d4, expect: 0x204, dest: 0x652c, at_frame: 24, ecl_time: 0 },
        ], None)
    } else if index == 68 {
        (ST7_S7, seq![
            Op::St7BossEntry,
            Op::St7EnterSpell { health: 3000, ordinal: 0x37, junko: false },
            Op::I16 { at: ST7_BS_SET_SPRITE_INS, v: 0 },
            Op::I32 { at: ST7_BS_ANM_SET_MAIN_ARG2, v: 7 },
            Op::I32 { at: ST7_BS_ANM_SET_SPRITE2_ARG2, v: 132 },
        ], None)
    } else if index == 69 {
        (ST7_NS8, seq![
            Op::St7BossEntry,
            Op::File(3),
            Op::I32 { at: 0x708, v: 0x38 },
            Op::I16 { at: 0x7004, v: 0 },
            Op::I16 { at: 0x708c, v: 0 },
            Op::I16 { at: 0x71bc, v: 0 },
            Op::Jump { start: 0x72ec, expect: 0x191, dest: 0x7354, at_frame: 0, ecl_time: 0 },
            Op::I32 { at: 0x6f54, v: 0 },
            Op::I16 { at: ST7_BS_SET_SPRITE_INS, v: 0 },
            Op::I16 { at: 0x72b4, v: 0 },
            Op::I32 { at: ST7_BS_ANM_SET_MAIN_ARG2, v: 0 },
            Op::I32 { at: ST7_BS_ANM_SET_SPRITE2_ARG2, v: 116 },
            Op::I32 { at: ST7_BS_ANM_SELECT, v: 5 },
        ], None)
    } else if index == 70 {
        (ST7_S8, seq![
            Op::St7BossEntry,
            Op::St7EnterSpell { health: 3000, ordinal: 0x38, junko: true },
            Op::I16 { at: ST7_BS_SET_SPRITE_INS, v: 0 },
            Op::I32 { at: ST7_BS_ANM_SET_MAIN_ARG2, v: 0 },
            Op::I32 { at: ST7_BS_ANM_SET_SPRITE2_ARG2, v: 116 },
            Op::I32 { at: ST7_BS_ANM_SELECT, v: 5 },
        ], None)
    } else if index == 71 {
        (ST7_S9, seq![
            Op::St7BossEntry,
            Op::File(3),
            Op::I32 { at: ST7_BS_MOVE_POS_X, v: 0 },
            Op::U32 { at: ST7_BS_MOVE_POS_Y, v: 0x4360_0000 },
            Op::I16 { at: ST7_BS_SET_SPRITE_INS, v: 0 },
            Op::I32 { at: ST7_BS_ANM_SELECT, v: 5 },
            Op::I32 { at: ST7_BS_ANM_SELECT2, v: 5 },
            Op::I16 { at: ST7_BS_ANM_SET_MAIN_INS, v: 0 },
            Op::I32 { at: ST7_BS_ANM_SET_SPRITE1_ARG2, v: -1i32 },
            Op::I32 { at: ST7_BS_ANM_SET_SPRITE2_ARG2, v: -1i32 },
            Op::I16 { at: ST7_BS_MOVE_LIMIT_INS, v: 0 },
            Op::SeqAt { pos: 0x6d0, expect: 0x16, words: Words::St7S9Spell },
        ], Some(PhaseOps::St7S9))
    } else if index == 72 {
        (ST7_S10, seq![
            Op::Jump { start: ST7_START, expect: 0x17, dest: ST7_BOSS_CREATE_CALL, at_frame: 60, ecl_time: 0 },
            Op::Skip(2),
            Op::File(3),
            Op::U32 { at: ST7_BS_MOVE_POS_X, v: 0xc280_0000 },
            Op::U32 { at: ST7_BS_MOVE_POS_Y, v: 0x4300_0000 },
            Op::I16 { at: ST7_BS_MOVE_LIMIT_INS, v: 0 },
            Op::I32 { at: ST7_BS_ANM_SET_SPRITE1_ARG2, v: -1i32 },
            Op::I32 { at: ST7_BS_ANM_SET_SPRITE2_ARG2, v: -1i32 },
            Op::SeqAt { pos: 0x6d0, expect: 0x16, words: Words::St7S10Hecatia },
            Op::File(4),
            Op::U32 { at: 0x184, v: 0x4280_0000 },
            Op::U32 { at: 0x188, v: 0x4300_0000 },
            Op::I16 { at: 0x328, v: 0 },
            Op::I32 { at: 0x36c, v: -1i32 },
            Op::I32 { at: 0x384, v: -1i32 },
            Op::I16 { at: 0x2b4, v: 0 },
            Op::SeqAt { pos: 0x3b4, expect: 0xB, words: Words::St7S10Junko },
        ], Some(PhaseOps::St7S10))
    } else {
        (0, seq![], None)
    }
}

fn warp_stage7(index: usize) -> (r: Warp)
    requires
        52 <= index <= 72,
    ensures
        r@ == spec_warp_stage7(index as int),
        r@.0 == WARP_SECTIONS@[index as int],
        ops_wf(r@.1),
{
    match index {
        52 => Warp::new(ST7_MID1, vec![
            Op::Jump { start: ST7_START, expect: 0x17, dest: 0x92a8, at_frame: 60, ecl_time: 0 },
            Op::Skip(1),
            Op::St7Mid { health: 2200, ordinal: 0x31 },
        ]),
        53 => Warp::new(ST7_MID2, vec![
            Op::Jump { start: ST7_START, expect: 0x17, dest: 0x92a8, at_frame: 60, ecl_time: 0 },
            Op::Skip(1),
            Op::St7Mid { health: 2200, ordinal: 0x32 },
        ]),
        54 => Warp::new(ST7_MID3, vec![
            Op::Jump { start: ST7_START, expect: 0x17, dest: 0x92a8, at_frame: 60, ecl_time: 0 },
            Op::Skip(1),
            Op::St7Mid { health: 3000, ordinal: 0x33 },
        ]),
        55 => Warp::new(ST7_NS1, vec![
            Op::St7Bonus,
            Op::Jump { start: ST7_START, expect: 0x17, dest: ST7_BOSS_CREATE_CALL, at_frame: 60, ecl_time: 0 },
            Op::St7HideSubboss,
            Op::Skip(1),
        ]),
        56 => Warp::new(ST7_S1, vec![
            Op::St7BossEntry,
            Op::St7EnterSpell { health: 3000, ordinal: 0x31, junko: false },
        ]),
        57 => Warp::new(ST7_NS2, vec![
            Op::St7BossEntry,
            Op::File(3),
            Op::I32 { at: 0x708, v: 0x32 },
            Op::I16 { at: 0x16f4, v: 0 },
            Op::I16 { at: 0x1824, v: 0 },
            Op::I32 { at: 0x199c, v: 59 },
            Op::I32 { at: 0x19bc, v: 0 },
            Op::I32 { at: 0x15dc, v: 0 },
            Op::I16 { at: ST7_BS_SET_SPRITE_INS, v: 0 },
            Op::I16 { at: 0x191c, v: 0 },
            Op::I32 { at: ST7_BS_ANM_SET_MAIN_ARG2, v: 14 },
            Op::I32 { at: ST7_BS_ANM_SET_SPRITE2_ARG2, v: 120 },
            Op::Jump { start: 0x1a90, expect: 0x204, dest: 0x1ae8, at_frame: 24, ecl_time: 0 },
        ]),
        58 => Warp::new(ST7_S2, vec![
            Op::St7BossEntry,
            Op::St7EnterSpell { health: 3400, ordinal: 0x32, junko: false },
            Op::I16 { at: ST7_BS_SET_SPRITE_INS, v: 0 },
            Op::I32 { at: ST7_BS_ANM_SET_MAIN_ARG2, v: 14 },
            Op::I32 { at: ST7_BS_ANM_SET_SPRITE2_ARG2, v: 120 },
        ]),
        59 => Warp::new(ST7_NS3, vec![
            Op::St7BossEntry,
            Op::File(3),
            Op::I32 { at: 0x708, v: 0x33 },
            Op::I16 { at: 0x2430, v: 0 },
            Op::I16 { at: 0x2560, v: 0 },
            Op::I32 { at: 0x26d8, v: 59 },
            Op::I32 { at: 0x26f8, v: 0 },
            Op::I32 { at: 0x2318, v: 0 },
            Op::I16 { at: ST7_BS_SET_SPRITE_INS, v: 0 },
            Op::I16 { at: 0x2658, v: 0 },
            Op::I32 { at: ST7_BS_ANM_SET_MAIN_ARG2, v: 7 },
            Op::I32 { at: ST7_BS_ANM_SET_SPRITE2_ARG2, v: 132 },
            Op::Jump { start: 0x276c, expect: 0x204, dest: 0x2798, at_frame: 24, ecl_time: 0 },
        ]),
        60 => Warp::new(ST7_S3, vec![
            Op::St7BossEntry,
            Op::St7EnterSpell { health: 3000, ordinal: 0x33, junko: false },
            Op::I16 { at: ST7_BS_SET_SPRITE_INS, v: 0 },
            Op::I32 { at: ST7_BS_ANM_SET_MAIN_ARG2, v: 7 },
            Op::I32 { at: ST7_BS_ANM_SET_SPRITE2_ARG2, v: 132 },
        ]),
        61 => Warp::new(ST7_NS4, vec![
            Op::St7BossEntry,
            Op::File(3),
            Op::I32 { at: 0x708, v: 0x34 },
            Op::I16 { at: 0x32a0, v: 0 },
            Op::I16 { at: 0x32e8, v: 0 },
            Op::I16 { at: 0x3418, v: 0 },
            Op::Jump { start: 0x3548, expect: 0x191, dest: 0x35b0, at_frame: 0, ecl_time: 0 },
            Op::I32 { at: 0x31c4, v: 10 },
            Op::I16 { at: ST7_BS_SET_SPRITE_INS, v: 0 },
            Op::I16 { at: 0x3510, v: 0 },
            Op::I32 { at: ST7_BS_ANM_SET_MAIN_ARG2, v: 0 },
            Op::I32 { at: ST7_BS_ANM_SET_SPRITE2_ARG2, v: 116 },
            Op::I32 { at: ST7_BS_ANM_SELECT, v: 5 },
        ]),
        62 => Warp::new(ST7_S4, vec![
            Op::St7BossEntry,
            Op::St7EnterSpell { health: 2000, ordinal: 0x34, junko: true },
            Op::I16 { at: ST7_BS_SET_SPRITE_INS, v: 0 },
            Op::I32 { at: ST7_BS_ANM_SET_MAIN_ARG2, v: 0 },
            Op::I32 { at: ST7_BS_ANM_SET_SPRITE2_ARG2, v: 116 },
            Op::I32 { at: ST7_BS_ANM_SELECT, v: 5 },
        ]),
        63 => Warp::new(ST7_NS5, vec![
            Op::St7BossEntry,
            Op::File(3),
            Op::I32 { at: 0x708, v: 0x35 },
            Op::I16 { at: 0x4464, v: 0 },
            Op::I16 { at: 0x44c0, v: 0 },
            Op::I16 { at: 0x45f0, v: 0 },
            Op::Jump { start: 0x4720, expect: 0x191, dest: 0x4788, at_frame: 0, ecl_time: 0 },
            Op::I32 { at: 0x4388, v: 0 },
            Op::I16 { at: 0x46e8, v: 0 },
        ]),
        64 => Warp::new(ST7_S5, vec![
            Op::St7BossEntry,
            Op::St7EnterSpell { health: 3500, ordinal: 0x35, junko: false },
        ]),
        65 => Warp::new(ST7_NS6, vec![
            Op::St7BossEntry,
            Op::File(3),
            Op::I32 { at: 0x708, v: 0x36 },
            Op::I16 { at: 0x5368, v: 0 },
            Op::I16 { at: 0x5498, v: 0 },
            Op::I32 { at: 0x5610, v: 59 },
            Op::I32 { at: 0x5630, v: 0 },
            Op::I32 { at: 0x5250, v: 0 },
            Op::I16 { at: ST7_BS_SET_SPRITE_INS, v: 0 },
            Op::I16 { at: 0x5590, v: 0 },
            Op::I32 { at: ST7_BS_ANM_SET_MAIN_ARG2, v: 14 },
            Op::I32 { at: ST7_BS_ANM_SET_SPRITE2_ARG2, v: 120 },
            Op::Jump { start: 0x5694, expect: 0x204, dest: 0x56ec, at_frame: 24, ecl_time: 0 },
        ]),
        66 => Warp::new(ST7_S6, vec![
            Op::St7BossEntry,
            Op::St7EnterSpell { health: 3500, ordinal: 0x36, junko: false },
            Op::I16 { at: 0xd898, v: 0 },
            Op::I16 { at: ST7_BS_SET_SPRITE_INS, v: 0 },
            Op::I32 { at: ST7_BS_ANM_SET_MAIN_ARG2, v: 14 },
            Op::I32 { at: ST7_BS_ANM_SET_SPRITE2_ARG2, v: 120 },
        ]),
        67 => Warp::new(ST7_NS7, vec![
            Op::St7BossEntry,
            Op::File(3),
            Op::I32 { at: 0x708, v: 0x37 },
            Op::I16 { at: 0x6198, v: 0 },
            Op::I16 { at: 0x62c8, v: 0 },
            Op::I32 { at: 0x6440, v: 59 },
            Op::I32 { at: 0x6460, v: 0 },
            Op::I32 { at: 0x6080, v: 0 },
            Op::I16 { at: ST7_BS_SET_SPRITE_INS, v: 0 },
            Op::I16 { at: 0x63c0, v: 0 },
            Op::I32 { at: ST7_BS_ANM_SET_MAIN_ARG2, v: 7 },
            Op::I32 { at: ST7_BS_ANM_SET_SPRITE2_ARG2, v: 132 },
            Op::Jump { start: 0x64d4, expect: 0x204, dest: 0x652c, at_frame: 24, ecl_time: 0 },
        ]),
        68 => Warp::new(ST7_S7, vec![
            Op::St7BossEntry,
            Op::St7EnterSpell { health: 3000, ordinal: 0x37, junko: false },
            Op::I16 { at: ST7_BS_SET_SPRITE_INS, v: 0 },
            Op::I32 { at: ST7_BS_ANM_SET_MAIN_ARG2, v: 7 },
            Op::I32 { at: ST7_BS_ANM_SET_SPRITE2_ARG2, v: 132 },
        ]),
        69 => Warp::new(ST7_NS8, vec![
            Op::St7BossEntry,
            Op::File(3),
            Op::I32 { at: 0x708, v: 0x38 },
            Op::I16 { at: 0x7004, v: 0 },
            Op::I16 { at: 0x708c, v: 0 },
            Op::I16 { at: 0x71bc, v: 0 },
            Op::Jump { start: 0x72ec, expect: 0x191, dest: 0x7354, at_frame: 0, ecl_time: 0 },
            Op::I32 { at: 0x6f54, v: 0 },
            Op::I16 { at: ST7_BS_SET_SPRITE_INS, v: 0 },
            Op::I16 { at: 0x72b4, v: 0 },
            Op::I32 { at: ST7_BS_ANM_SET_MAIN_ARG2, v: 0 },
            Op::I32 { at: ST7_BS_ANM_SET_SPRITE2_ARG2, v: 116 },
            Op::I32 { at: ST7_BS_ANM_SELECT, v: 5 },
        ]),
        70 => Warp::new(ST7_S8, vec![
            Op::St7BossEntry,
            Op::St7EnterSpell { health: 3000, ordinal: 0x38, junko: true },
            Op::I16 { at: ST7_BS_SET_SPRITE_INS, v: 0 },
            Op::I32 { at: ST7_BS_ANM_SET_MAIN_ARG2, v: 0 },
            Op::I32 { at: ST7_BS_ANM_SET_SPRITE2_ARG2, v: 116 },
            Op::I32 { at: ST7_BS_ANM_SELECT, v: 5 },
        ]),
        71 => Warp::with_phase(ST7_S9, vec![
            Op::St7BossEntry,
            Op::File(3),
            Op::I32 { at: ST7_BS_MOVE_POS_X, v: 0 },
            Op::U32 { at: ST7_BS_MOVE_POS_Y, v: 0x4360_0000 },
            Op::I16 { at: ST7_BS_SET_SPRITE_INS, v: 0 },
            Op::I32 { at: ST7_BS_ANM_SELECT, v: 5 },
            Op::I32 { at: ST7_BS_ANM_SELECT2, v: 5 },
            Op::I16 { at: ST7_BS_ANM_SET_MAIN_INS, v: 0 },
            Op::I32 { at: ST7_BS_ANM_SET_SPRITE1_ARG2, v: -1i32 },
            Op::I32 { at: ST7_BS_ANM_SET_SPRITE2_ARG2, v: -1i32 },
            Op::I16 { at: ST7_BS_MOVE_LIMIT_INS, v: 0 },
            Op::SeqAt { pos: 0x6d0, expect: 0x16, words: Words::St7S9Spell },
        ], PhaseOps::St7S9),
        _ => Warp::with_phase(ST7_S10, vec![
            Op::Jump { start: ST7_START, expect: 0x17, dest: ST7_BOSS_CREATE_CALL, at_frame: 60, ecl_time: 0 },
            Op::Skip(2),
            Op::File(3),
            Op::U32 { at: ST7_BS_MOVE_POS_X, v: 0xc280_0000 },
            Op::U32 { at: ST7_BS_MOVE_POS_Y, v: 0x4300_0000 },
            Op::I16 { at: ST7_BS_MOVE_LIMIT_INS, v: 0 },
            Op::I32 { at: ST7_BS_ANM_SET_SPRITE1_ARG2, v: -1i32 },
            Op::I32 { at: ST7_BS_ANM_SET_SPRITE2_ARG2, v: -1i32 },
            Op::SeqAt { pos: 0x6d0, expect: 0x16, words: Words::St7S10Hecatia },
            Op::File(4),
            Op::U32 { at: 0x184, v: 0x4280_0000 },
            Op::U32 { at: 0x188, v: 0x4300_0000 },
            Op::I16 { at: 0x328, v: 0 },
            Op::I32 { at: 0x36c, v: -1i32 },
            Op::I32 { at: 0x384, v: -1i32 },
            Op::I16 { at: 0x2b4, v: 0 },
            Op::SeqAt { pos: 0x3b4, expect: 0xB, words: Words::St7S10Junko },
        ], PhaseOps::St7S10),
    }
}

/// The named catalog: row `index` is `(section, ops, phase ops)`.
pub open spec fn spec_warp(index: int) -> (u32, Seq<Op>, Option<PhaseOps>) {
    if index <= 6 {
        spec_warp_stage1(index)
    } else if index <= 13 {
        spec_warp_stage2(index)
    } else if index <= 22 {
        spec_warp_stage3(index)
    } else if index <= 30 {
        spec_warp_stage4(index)
    } else if index <= 39 {
        spec_warp_stage5(index)
    } else if index <= 51 {
        spec_warp_stage6(index)
    } else if index <= 72 {
        spec_warp_stage7(index)
    } else {
        (0, seq![], None)
    }
}

/// Builds catalog row `index`.
pub fn warp(index: usize) -> (r: Warp)
    requires
        index < 73,
    ensures
        r@ == spec_warp(index as int),
        r@.0 == WARP_SECTIONS@[index as int],
        ops_wf(r@.1),
{
    if index <= 6 {
        warp_stage1(index)
    } else if index <= 13 {
        warp_stage2(index)
    } else if index <= 22 {
        warp_stage3(index)
    } else if index <= 30 {
        warp_stage4(index)
    } else if index <= 39 {
        warp_stage5(index)
    } else if index <= 51 {
        warp_stage6(index)
    } else {
        warp_stage7(index)
    }
}

} // verus!

verus! {

/// Every named catalog row's section ID decodes to a real stage, and the row is keyed by it.
pub proof fn lemma_warp_sections_staged(index: int)
    requires
        0 <= index < 73,
    ensures
        spec_section_stage(WARP_SECTIONS@[index]) is Some,
        spec_warp(index).0 == WARP_SECTIONS@[index],
        ops_wf(spec_warp(index).1),
{
}

/// The `ST6_BOSS11` row is the one whose stream depends on the HP tier.
pub proof fn lemma_st6_boss11_row(index: int)
    requires
        0 <= index < 73,
        WARP_SECTIONS@[index] == ST6_BOSS11,
    ensures
        spec_warp(index).2 == Some(PhaseOps::St6Boss11),
{
}

/// Every named catalog row holds at least one operation.
pub proof fn lemma_warp_rows_nonempty(index: int)
    requires
        0 <= index < 73,
    ensures
        spec_warp(index).1.len() > 0,
{
}

} // verus!
