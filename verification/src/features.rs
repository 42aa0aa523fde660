//! The observation payload.
//!
//! A payload is a [`META_WORDS`]-word meta block followed by six entity sections. Each section
//! is a `u32` row count followed by that many rows of the matching [`SECTION_WIDTHS`] entry.
//! Every field is 4 bytes little-endian, so the payload parses as an array of 4-byte words. Entity
//! cells are single-precision floats; they reach this module as their bit patterns.

use crate::bytes::{
    as_signed32, as_unsigned32, le_i32, le_u32, lemma_le_u32_append, lemma_u32_le_roundtrip, push_u32_le,
    u32_le_bytes, unsigned32,
};
use crate::practice::WireMeta;
use crate::practice::ecl::words_le_bytes;
use crate::practice::machine::outcome_code;
use vstd::prelude::*;

verus! {

/// The number of words in the meta block.
pub const META_WORDS: usize = 32;
/// The number of entity sections.
pub const SECTIONS: usize = 6;
/// Row widths of the sections: bullets; enemies; items; segment lasers; ray lasers; curve laser
/// points.
pub const SECTION_WIDTHS: [usize; 6] = [9, 17, 5, 6, 8, 5];
/// Bit of the frame flags word: the hook rewrote the controller's action on at least one frame
/// since the previous exchange.
pub const FLAG_INPUT_OVERRIDDEN: u32 = 0x8000_0000;

/// The scene class reported in the meta block.
#[derive(Debug, Clone, Copy, PartialEq, Eq, Structural)]
pub enum Scene {
    Other,
    Menu,
    InGame,
}

pub open spec fn scene_code(s: Scene) -> u32 {
    match s {
        Scene::Other => 0,
        Scene::Menu => 1,
        Scene::InGame => 2,
    }
}

impl Scene {
    /// The scene's wire code.
    pub fn to_wire(self) -> (r: u32)
        ensures
            r == scene_code(self),
    {
        match self {
            Scene::Other => 0,
            Scene::Menu => 1,
            Scene::InGame => 2,
        }
    }
}

/// The frame's meta values.
#[derive(Debug, Clone, Copy, PartialEq, Eq, Structural)]
pub struct Meta {
    pub step: u32,
    pub scene: Scene,
    pub wire: WireMeta,
    /// Sets [`FLAG_INPUT_OVERRIDDEN`] in the frame flags word.
    pub overrode_input: bool,
}

/// The game's resource and progress words.
#[derive(Debug, Clone, Copy, PartialEq, Eq, Structural)]
pub struct Resources {
    /// Frames since the stage started.
    pub game_tick: u32,
    pub score_div10: u32,
    pub graze: i32,
    pub value_x100: i32,
    pub power: i32,
    pub lives: i32,
    pub life_fragments: i32,
    pub bombs: i32,
    pub bomb_fragments: i32,
    pub rng_state: u32,
    pub rng_count: u32,
    pub chapter: u32,
    pub time_in_chapter: u32,
    pub spell_id: i32,
    pub miss_count: i32,
    pub spell_timer: i32,
    pub spell_flags: u32,
    pub mode_flags: u32,
}

/// One entity section: its rows' cells, row after row.
pub struct Section {
    pub rows: usize,
    pub cells: Vec<u32>,
}

/// The entity cells of a live stage: the player's five cells and the six sections.
pub struct StateCells {
    pub player: [u32; 5],
    pub sections: Vec<Section>,
}

impl StateCells {
    /// Six sections, each holding `rows` rows of its width.
    pub open spec fn wf(&self) -> bool {
        &&& self.sections@.len() == SECTIONS
        &&& forall|i: int|
            0 <= i < SECTIONS ==> #[trigger] self.sections@[i].cells@.len()
                == self.sections@[i].rows * SECTION_WIDTHS@[i]
    }

    /// The sections as `(rows, cells)`.
    pub open spec fn section_views(&self) -> Seq<(usize, Seq<u32>)> {
        self.sections@.map_values(|s: Section| (s.rows, s.cells@))
    }
}

/// The meta block's words.
pub open spec fn meta_words(in_stage: bool, player: Seq<u32>, meta: Meta, res: Resources) -> Seq<u32> {
    seq![
        meta.step,
        scene_code(meta.scene),
        if in_stage { 1u32 } else { 0u32 },
        meta.wire.load_generation@,
        meta.wire.reset_seq,
        outcome_code(meta.wire.reset_outcome),
        meta.wire.applied_section,
        meta.wire.hits,
        if meta.overrode_input { FLAG_INPUT_OVERRIDDEN } else { 0u32 },
        res.game_tick,
        res.score_div10,
        as_unsigned32(res.graze),
        as_unsigned32(res.value_x100),
        as_unsigned32(res.power),
        as_unsigned32(res.lives),
        as_unsigned32(res.life_fragments),
        as_unsigned32(res.bombs),
        as_unsigned32(res.bomb_fragments),
        res.rng_state,
        res.rng_count,
        res.chapter,
        res.time_in_chapter,
        as_unsigned32(res.spell_id),
        as_unsigned32(res.miss_count),
        as_unsigned32(res.spell_timer),
        res.spell_flags,
        res.mode_flags,
    ] + player
}

/// The sections' words: each section's row count (as a `u32`), then its cells.
pub open spec fn sections_words(secs: Seq<(usize, Seq<u32>)>) -> Seq<u32>
    decreases secs.len(),
{
    if secs.len() == 0 {
        Seq::empty()
    } else {
        sections_words(secs.drop_last()) + seq![secs.last().0 as u32] + secs.last().1
    }
}

/// The words of a payload: the meta block, then six sections (all empty outside a live stage).
pub open spec fn payload_words(
    state: Option<(Seq<u32>, Seq<(usize, Seq<u32>)>)>,
    meta: Meta,
    res: Resources,
) -> Seq<u32> {
    match state {
        Some((player, secs)) => meta_words(true, player, meta, res) + sections_words(secs),
        None => meta_words(false, seq![0u32, 0u32, 0u32, 0u32, 0u32], meta, res) + seq![
            0u32,
            0u32,
            0u32,
            0u32,
            0u32,
            0u32,
        ],
    }
}

/// The number of words that sections take: one count word per section plus its cells.
pub open spec fn sections_len(secs: Seq<(usize, Seq<u32>)>) -> int
    decreases secs.len(),
{
    if secs.len() == 0 {
        0
    } else {
        sections_len(secs.drop_last()) + 1 + secs.last().1.len()
    }
}

/// Appends `value` little-endian.
pub fn put_u32(buf: &mut Vec<u8>, value: u32)
    ensures
        final(buf)@ == old(buf)@ + u32_le_bytes(value),
{
    push_u32_le(buf, value);
}

/// Appends `value`'s two's-complement bits little-endian.
pub fn put_i32(buf: &mut Vec<u8>, value: i32)
    ensures
        final(buf)@ == old(buf)@ + u32_le_bytes(as_unsigned32(value)),
{
    push_u32_le(buf, unsigned32(value));
}

/// Appends a row count as a `u32` (truncated).
pub fn put_count(buf: &mut Vec<u8>, n: usize)
    ensures
        final(buf)@ == old(buf)@ + u32_le_bytes(n as u32),
{
    push_u32_le(buf, n as u32);
}

/// Appends `words` little-endian, word after word.
pub fn put_words(buf: &mut Vec<u8>, words: &[u32])
    ensures
        final(buf)@ == old(buf)@ + words_le_bytes(words@),
{
    let mut k: usize = 0;
    while k < words.len()
        invariant
            k <= words@.len(),
            buf@ == old(buf)@ + words_le_bytes(words@.take(k as int)),
        decreases words@.len() - k,
    {
        let ghost before = buf@;
        push_u32_le(buf, words[k]);
        assert(words@.take(k + 1).drop_last() =~= words@.take(k as int));
        assert(buf@ =~= old(buf)@ + words_le_bytes(words@.take(k + 1)));
        k += 1;
    }
    assert(words@.take(k as int) =~= words@);
}

/// Appends every element of `src` to `dst`.
fn push_all(dst: &mut Vec<u32>, src: &Vec<u32>)
    ensures
        final(dst)@ == old(dst)@ + src@,
{
    let mut k: usize = 0;
    while k < src.len()
        invariant
            k <= src@.len(),
            dst@ == old(dst)@ + src@.take(k as int),
        decreases src@.len() - k,
    {
        dst.push(src[k]);
        assert(src@.take(k + 1) =~= src@.take(k as int).push(src@[k as int]));
        assert(dst@ =~= old(dst)@ + src@.take(k + 1));
        k += 1;
    }
    assert(src@.take(k as int) =~= src@);
}

/// Collects the meta block's words.
fn meta_block(in_stage: bool, player: [u32; 5], meta: &Meta, res: &Resources) -> (r: Vec<u32>)
    ensures
        r@ == meta_words(in_stage, player@, *meta, *res),
{
    let mut w: Vec<u32> = Vec::new();
    w.push(meta.step);
    w.push(meta.scene.to_wire());
    w.push(if in_stage { 1 } else { 0 });
    w.push(meta.wire.load_generation.to_wire());
    w.push(meta.wire.reset_seq);
    w.push(meta.wire.reset_outcome.to_wire());
    w.push(meta.wire.applied_section);
    w.push(meta.wire.hits);
    w.push(if meta.overrode_input { FLAG_INPUT_OVERRIDDEN } else { 0 });
    w.push(res.game_tick);
    w.push(res.score_div10);
    w.push(unsigned32(res.graze));
    w.push(unsigned32(res.value_x100));
    w.push(unsigned32(res.power));
    w.push(unsigned32(res.lives));
    w.push(unsigned32(res.life_fragments));
    w.push(unsigned32(res.bombs));
    w.push(unsigned32(res.bomb_fragments));
    w.push(res.rng_state);
    w.push(res.rng_count);
    w.push(res.chapter);
    w.push(res.time_in_chapter);
    w.push(unsigned32(res.spell_id));
    w.push(unsigned32(res.miss_count));
    w.push(unsigned32(res.spell_timer));
    w.push(res.spell_flags);
    w.push(res.mode_flags);
    w.push(player[0]);
    w.push(player[1]);
    w.push(player[2]);
    w.push(player[3]);
    w.push(player[4]);
    assert(w@ =~= meta_words(in_stage, player@, *meta, *res));
    w
}

/// Appends the observation payload to `buf`: the meta block, then the six sections (all empty
/// when `state` is `None`).
pub fn build(buf: &mut Vec<u8>, state: Option<&StateCells>, meta: &Meta, res: &Resources)
    ensures
        final(buf)@ == old(buf)@ + words_le_bytes(
            payload_words(
                match state {
                    Some(s) => Some((s.player@, s.section_views())),
                    None => None,
                },
                *meta,
                *res,
            ),
        ),
{
    let zeros: [u32; 5] = [0, 0, 0, 0, 0];
    assert(zeros@ =~= seq![0u32, 0u32, 0u32, 0u32, 0u32]);
    let mut words = match state {
        Some(s) => meta_block(true, s.player, meta, res),
        None => meta_block(false, zeros, meta, res),
    };
    let ghost head = words@;
    match state {
        None => {
            let mut i: usize = 0;
            while i < SECTIONS
                invariant
                    i <= SECTIONS,
                    words@ == head + Seq::new(i as nat, |j: int| 0u32),
                decreases SECTIONS - i,
            {
                words.push(0);
                assert(words@ =~= head + Seq::new((i + 1) as nat, |j: int| 0u32));
                i += 1;
            }
            assert(Seq::new(6, |j: int| 0u32) =~= seq![0u32, 0u32, 0u32, 0u32, 0u32, 0u32]);
        },
        Some(s) => {
            let ghost secs = s.section_views();
            let mut i: usize = 0;
            while i < s.sections.len()
                invariant
                    i <= s.sections@.len(),
                    secs == s.section_views(),
                    words@ == head + sections_words(secs.take(i as int)),
                decreases s.sections@.len() - i,
            {
                let sec = &s.sections[i];
                words.push(sec.rows as u32);
                push_all(&mut words, &sec.cells);
                assert(secs.take(i + 1).drop_last() =~= secs.take(i as int));
                assert(secs.take(i + 1).last() == (sec.rows, sec.cells@));
                assert(words@ =~= head + sections_words(secs.take(i + 1)));
                i += 1;
            }
            assert(secs.take(i as int) =~= secs);
        },
    }
    put_words(buf, words.as_slice());
}

/// The payload's length: four bytes per meta word, per section count and per cell.
pub proof fn lemma_payload_len(
    state: Option<(Seq<u32>, Seq<(usize, Seq<u32>)>)>,
    meta: Meta,
    res: Resources,
)
    requires
        state matches Some((player, _)) ==> player.len() == 5,
    ensures
        words_le_bytes(payload_words(state, meta, res)).len() == 4 * (META_WORDS + match state {
            Some((_, secs)) => sections_len(secs),
            None => SECTIONS as int,
        }),
{
    crate::practice::ecl::lemma_words_le_bytes_len(payload_words(state, meta, res));
    match state {
        Some((player, secs)) => lemma_sections_len(secs),
        None => {},
    }
}

proof fn lemma_sections_len(secs: Seq<(usize, Seq<u32>)>)
    ensures
        sections_words(secs).len() == sections_len(secs),
    decreases secs.len(),
{
    if secs.len() > 0 {
        lemma_sections_len(secs.drop_last());
    }
}

/// A `u32` read inside the first part of a concatenation reads that part.
proof fn lemma_le_u32_prefix(a: Seq<u8>, b: Seq<u8>, i: int)
    requires
        0 <= i,
        i + 4 <= a.len(),
    ensures
        le_u32(a + b, i) == le_u32(a, i),
{
    assert((a + b)[i] == a[i]);
    assert((a + b)[i + 1] == a[i + 1]);
    assert((a + b)[i + 2] == a[i + 2]);
    assert((a + b)[i + 3] == a[i + 3]);
}

/// Word `k` of a little-endian word sequence reads back as `ws[k]`.
proof fn lemma_word_read(ws: Seq<u32>, k: int)
    requires
        0 <= k < ws.len(),
    ensures
        le_u32(words_le_bytes(ws), 4 * k) == ws[k],
    decreases ws.len(),
{
    let pre = ws.drop_last();
    crate::practice::ecl::lemma_words_le_bytes_len(pre);
    lemma_u32_le_roundtrip(ws.last());
    if k < pre.len() {
        crate::practice::ecl::lemma_words_le_bytes_len(pre);
        lemma_word_read(pre, k);
        lemma_le_u32_prefix(words_le_bytes(pre), u32_le_bytes(ws.last()), 4 * k);
    } else {
        lemma_le_u32_append(words_le_bytes(pre), u32_le_bytes(ws.last()), 0);
    }
}

/// An `i32` stored as its two's-complement bits reads back as itself.
proof fn lemma_signed_roundtrip(v: i32)
    ensures
        as_signed32(as_unsigned32(v)) == v,
{
}

/// The byte offset of payload word `k`.
pub open spec fn word_offset(k: int) -> int {
    4 * k
}

/// What the driver reads back from a payload: word 0 is the step, and words 9 to 26 are the
/// resources in order (tick, score / 10, graze, value, power, lives, life fragments, bombs, bomb
/// fragments, RNG state and count, chapter, time in chapter, spell id, misses, spell timer, spell
/// and mode flags), each signed field as its two's-complement bits, whatever the stage state.
pub proof fn lemma_payload_resources(
    state: Option<(Seq<u32>, Seq<(usize, Seq<u32>)>)>,
    meta: Meta,
    res: Resources,
)
    ensures
        ({
            let b = words_le_bytes(payload_words(state, meta, res));
            &&& le_u32(b, word_offset(0)) == meta.step
            &&& le_u32(b, word_offset(9)) == res.game_tick
            &&& le_u32(b, word_offset(10)) == res.score_div10
            &&& le_i32(b, word_offset(11)) == res.graze
            &&& le_i32(b, word_offset(12)) == res.value_x100
            &&& le_i32(b, word_offset(13)) == res.power
            &&& le_i32(b, word_offset(14)) == res.lives
            &&& le_i32(b, word_offset(15)) == res.life_fragments
            &&& le_i32(b, word_offset(16)) == res.bombs
            &&& le_i32(b, word_offset(17)) == res.bomb_fragments
            &&& le_u32(b, word_offset(18)) == res.rng_state
            &&& le_u32(b, word_offset(19)) == res.rng_count
            &&& le_u32(b, word_offset(20)) == res.chapter
            &&& le_u32(b, word_offset(21)) == res.time_in_chapter
            &&& le_i32(b, word_offset(22)) == res.spell_id
            &&& le_i32(b, word_offset(23)) == res.miss_count
            &&& le_i32(b, word_offset(24)) == res.spell_timer
            &&& le_u32(b, word_offset(25)) == res.spell_flags
            &&& le_u32(b, word_offset(26)) == res.mode_flags
        }),
{
    let w = payload_words(state, meta, res);
    assert(w.len() > 26);
    assert forall|k: int| 0 <= k <= 26 implies le_u32(words_le_bytes(w), word_offset(k)) == #[trigger] w[k] by {
        lemma_word_read(w, k);
    }
    assert(le_u32(words_le_bytes(w), word_offset(0)) == w[0]);
    assert(le_u32(words_le_bytes(w), word_offset(9)) == w[9]);
    assert(le_u32(words_le_bytes(w), word_offset(10)) == w[10]);
    assert(le_u32(words_le_bytes(w), word_offset(11)) == w[11]);
    assert(le_u32(words_le_bytes(w), word_offset(12)) == w[12]);
    assert(le_u32(words_le_bytes(w), word_offset(13)) == w[13]);
    assert(le_u32(words_le_bytes(w), word_offset(14)) == w[14]);
    assert(le_u32(words_le_bytes(w), word_offset(15)) == w[15]);
    assert(le_u32(words_le_bytes(w), word_offset(16)) == w[16]);
    assert(le_u32(words_le_bytes(w), word_offset(17)) == w[17]);
    assert(le_u32(words_le_bytes(w), word_offset(18)) == w[18]);
    assert(le_u32(words_le_bytes(w), word_offset(19)) == w[19]);
    assert(le_u32(words_le_bytes(w), word_offset(20)) == w[20]);
    assert(le_u32(words_le_bytes(w), word_offset(21)) == w[21]);
    assert(le_u32(words_le_bytes(w), word_offset(22)) == w[22]);
    assert(le_u32(words_le_bytes(w), word_offset(23)) == w[23]);
    assert(le_u32(words_le_bytes(w), word_offset(24)) == w[24]);
    assert(le_u32(words_le_bytes(w), word_offset(25)) == w[25]);
    assert(le_u32(words_le_bytes(w), word_offset(26)) == w[26]);
    lemma_signed_roundtrip(res.graze);
    lemma_signed_roundtrip(res.value_x100);
    lemma_signed_roundtrip(res.power);
    lemma_signed_roundtrip(res.lives);
    lemma_signed_roundtrip(res.life_fragments);
    lemma_signed_roundtrip(res.bombs);
    lemma_signed_roundtrip(res.bomb_fragments);
    lemma_signed_roundtrip(res.spell_id);
    lemma_signed_roundtrip(res.miss_count);
    lemma_signed_roundtrip(res.spell_timer);
}

} // verus!
