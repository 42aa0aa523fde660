//! Chapter semantics requested by a warp, and the decisions of the chapter hooks.
//!
//! A dispatched section may ask that the next chapter-end events skip their completion scoring,
//! that the game's current chapter be set when it next snapshots it, or that the Extra stage's
//! chapter bonus flag be written. The intent is scheduled for the warp's load; each hook consumes
//! its part of it.

use super::Verdict;
use super::load::{Generation, PerLoad};
use crate::thread::MainThread;
use vstd::prelude::*;

verus! {

/// Chapter effects requested by the dispatched section and scheduled for the load's chapter hooks.
#[derive(Debug, Clone, Copy, PartialEq, Eq, Structural)]
pub struct ChapterIntent {
    /// How many more chapter-end events should skip completion scoring.
    pub skip_remaining: i32,
    /// The value of `ECLSetChapter(n)` to be set as the current chapter.
    pub set_chapter: Option<i32>,
    /// Whether the Extra stage chapter bonus write is needed.
    pub st7_bonus: bool,
}

/// The empty intent.
pub open spec fn no_intent() -> ChapterIntent {
    ChapterIntent { skip_remaining: 0, set_chapter: None, st7_bonus: false }
}

/// A chapter-end event under `intent`: while skips remain, one is used up and the event's scoring
/// is suppressed.
pub open spec fn score_step(intent: ChapterIntent) -> Option<(ChapterIntent, ())> {
    if intent.skip_remaining != 0 {
        Some(
            (
                ChapterIntent {
                    skip_remaining: vstd::wrapping::i32_specs::wrapping_sub(
                        intent.skip_remaining,
                        1,
                    ),
                    ..intent
                },
                (),
            ),
        )
    } else {
        None
    }
}

/// The chapter snapshot under `intent`: a requested chapter is handed out once.
pub open spec fn set_step(intent: ChapterIntent) -> Option<(ChapterIntent, i32)> {
    match intent.set_chapter {
        Some(n) => Some((ChapterIntent { set_chapter: None, ..intent }, n)),
        None => None,
    }
}

/// The Extra stage chapter bonus under `intent`: an owed write is handed out once.
pub open spec fn bonus_step(intent: ChapterIntent) -> Option<(ChapterIntent, ())> {
    if intent.st7_bonus {
        Some((ChapterIntent { st7_bonus: false, ..intent }, ()))
    } else {
        None
    }
}

/// The state of a per-load cell after a hook ran `step` on the value of `generation`.
pub open spec fn stepped<R>(
    old: Option<(Generation, ChapterIntent)>,
    generation: Generation,
    step: Option<(ChapterIntent, R)>,
) -> Option<(Generation, ChapterIntent)> {
    match step {
        Some((next, _)) => Some((generation, next)),
        None => old,
    }
}

/// Uses up one scheduled skip, if any remains.
fn use_skip(intent: ChapterIntent) -> (out: Option<(ChapterIntent, ())>)
    ensures
        out == score_step(intent),
{
    if intent.skip_remaining != 0 {
        Some((ChapterIntent { skip_remaining: intent.skip_remaining.wrapping_sub(1), ..intent }, ()))
    } else {
        None
    }
}

/// Hands out the requested chapter, if any.
fn take_chapter(intent: ChapterIntent) -> (out: Option<(ChapterIntent, i32)>)
    ensures
        out == set_step(intent),
{
    match intent.set_chapter {
        Some(n) => Some((ChapterIntent { set_chapter: None, ..intent }, n)),
        None => None,
    }
}

/// Hands out the owed bonus write, if any.
fn take_bonus(intent: ChapterIntent) -> (out: Option<(ChapterIntent, ())>)
    ensures
        out == bonus_step(intent),
{
    if intent.st7_bonus {
        Some((ChapterIntent { st7_bonus: false, ..intent }, ()))
    } else {
        None
    }
}

impl ChapterIntent {
    /// The empty intent with no chapter effects.
    pub fn none() -> (r: Self)
        ensures
            r == no_intent(),
    {
        ChapterIntent { skip_remaining: 0, set_chapter: None, st7_bonus: false }
    }

    /// Schedules the intent recorded by the committed warp for this load's chapter hooks.
    pub fn schedule(
        self,
        scheduled: &mut PerLoad<ChapterIntent>,
        thread: MainThread,
        generation: Generation,
    )
        ensures
            final(scheduled).fresh() == old(scheduled).fresh(),
            final(scheduled).stored() == Some((generation, self)),
            final(scheduled).value_at(generation) == self,
    {
        scheduled.set(thread, generation, self);
    }
}

/// Decides a chapter-end event: while scheduled skips remain, one is used up and the event's
/// end-of-chapter score is skipped (the verdict is `Divert`).
pub fn on_chapter_score(
    scheduled: &mut PerLoad<ChapterIntent>,
    thread: MainThread,
    generation: Generation,
) -> (v: Verdict)
    ensures
        final(scheduled).fresh() == old(scheduled).fresh(),
        final(scheduled).stored() == stepped(
            old(scheduled).stored(),
            generation,
            score_step(old(scheduled).value_at(generation)),
        ),
        v == (if old(scheduled).value_at(generation).skip_remaining != 0 {
            Verdict::Divert
        } else {
            Verdict::Run
        }),
{
    let suppressed = scheduled.update(thread, generation, use_skip);
    if suppressed.is_some() {
        Verdict::Divert
    } else {
        Verdict::Run
    }
}

/// The chapter snapshot hook: returns the chapter to write as the current one, if the warp
/// requested one that was not handed out yet.
pub fn on_chapter_set(
    scheduled: &mut PerLoad<ChapterIntent>,
    thread: MainThread,
    generation: Generation,
) -> (r: Option<i32>)
    ensures
        final(scheduled).fresh() == old(scheduled).fresh(),
        final(scheduled).stored() == stepped(
            old(scheduled).stored(),
            generation,
            set_step(old(scheduled).value_at(generation)),
        ),
        r == old(scheduled).value_at(generation).set_chapter,
{
    scheduled.update(thread, generation, take_chapter)
}

/// The Extra stage chapter bonus hook: returns whether the bonus flag is owed and must be written
/// now.
pub fn on_st7_chapter_bonus(
    scheduled: &mut PerLoad<ChapterIntent>,
    thread: MainThread,
    generation: Generation,
) -> (owed: bool)
    ensures
        final(scheduled).fresh() == old(scheduled).fresh(),
        final(scheduled).stored() == stepped(
            old(scheduled).stored(),
            generation,
            bonus_step(old(scheduled).value_at(generation)),
        ),
        owed == old(scheduled).value_at(generation).st7_bonus,
{
    let r = scheduled.update(thread, generation, take_bonus);
    r.is_some()
}

} // verus!
