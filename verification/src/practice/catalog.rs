//! The interpreter that applies a section's primitive stream to the live ECL buffers.

use super::chapter::{ChapterIntent, no_intent};
use super::data::{PrimOp, expand_section, spec_section_mapped, spec_section_prims};
use super::ecl::{
    Cursor, Ecl, EclError, EclFiles, FilesView, i16_le_bytes, i32_le_bytes, i8_le_bytes,
    jump_words, spec_check_ins, spec_select, spec_write, words_le_bytes,
};
use crate::bytes::u32_le_bytes;
use vstd::prelude::*;

verus! {

/// A write's outcome with the chapter intent carried along.
pub open spec fn with_intent(
    w: Result<(FilesView, Cursor), EclError>,
    intent: ChapterIntent,
) -> Result<(FilesView, Cursor, ChapterIntent), EclError> {
    match w {
        Ok((f, c)) => Ok((f, c, intent)),
        Err(e) => Err(e),
    }
}

/// A checked write: the instruction at `pos` must have ID `expect`, then `b` is written from
/// `pos`.
pub open spec fn checked_write(
    files: FilesView,
    c: Cursor,
    intent: ChapterIntent,
    pos: u32,
    expect: u16,
    b: Seq<u8>,
) -> Result<(FilesView, Cursor, ChapterIntent), EclError> {
    match spec_check_ins(files, c, pos, expect) {
        Err(e) => Err(e),
        Ok(_) => with_intent(spec_write(files, Cursor { pos, ..c }, b), intent),
    }
}

/// What one primitive operation does to the files, the cursor and the chapter intent.
#[verifier::opaque]
pub open spec fn apply_prim(files: FilesView, c: Cursor, intent: ChapterIntent, op: PrimOp) -> Result<
    (FilesView, Cursor, ChapterIntent),
    EclError,
> {
    match op {
        PrimOp::File(n) => match spec_select(files, n) {
            Ok(c2) => Ok((files, c2, intent)),
            Err(e) => Err(e),
        },
        PrimOp::Pos(p) => Ok((files, Cursor { pos: p, ..c }, intent)),
        PrimOp::Jump { start, expect, dest, at_frame, ecl_time } => checked_write(
            files,
            c,
            intent,
            start,
            expect,
            words_le_bytes(jump_words(start, dest, at_frame, ecl_time)),
        ),
        PrimOp::SeqAt { pos, expect, words } => checked_write(
            files,
            c,
            intent,
            pos,
            expect,
            words_le_bytes(words.spec_words()),
        ),
        PrimOp::SeqCont { words } => with_intent(
            spec_write(files, c, words_le_bytes(words.spec_words())),
            intent,
        ),
        PrimOp::I8 { at, v } => with_intent(
            spec_write(files, Cursor { pos: at, ..c }, i8_le_bytes(v)),
            intent,
        ),
        PrimOp::I16 { at, v } => with_intent(
            spec_write(files, Cursor { pos: at, ..c }, i16_le_bytes(v)),
            intent,
        ),
        PrimOp::I32 { at, v } => with_intent(
            spec_write(files, Cursor { pos: at, ..c }, i32_le_bytes(v)),
            intent,
        ),
        PrimOp::U32 { at, v } => with_intent(
            spec_write(files, Cursor { pos: at, ..c }, u32_le_bytes(v)),
            intent,
        ),
        PrimOp::Skip(n) => Ok((files, c, ChapterIntent { skip_remaining: n, ..intent })),
        PrimOp::SetChapter(n) => Ok((files, c, ChapterIntent { set_chapter: Some(n), ..intent })),
        PrimOp::St7Bonus => Ok((files, c, ChapterIntent { st7_bonus: true, ..intent })),
    }
}

/// Applies `ops` in order, stopping at the first failure: the files as the last applied
/// operation left them, and either the final cursor and intent or the failure.
pub open spec fn run_prims(files: FilesView, c: Cursor, intent: ChapterIntent, ops: Seq<PrimOp>) -> (
    FilesView,
    Result<(Cursor, ChapterIntent), EclError>,
)
    decreases ops.len(),
{
    if ops.len() == 0 {
        (files, Ok((c, intent)))
    } else {
        match apply_prim(files, c, intent, ops[0]) {
            Ok((f, c2, i2)) => run_prims(f, c2, i2, ops.skip(1)),
            Err(e) => (files, Err(e)),
        }
    }
}

/// Applies one primitive operation.
pub fn apply_op(ecl: &mut Ecl, files: &mut EclFiles, intent: &mut ChapterIntent, op: PrimOp) -> (r:
    Result<(), EclError>)
    requires
        old(files).wf(),
        old(ecl).inv(old(files)@),
    ensures
        final(files).wf(),
        final(ecl).inv(final(files)@),
        final(ecl).start == old(ecl).start,
        match apply_prim(old(files)@, old(ecl).cursor, *old(intent), op) {
            Ok((f, c, i)) => {
                &&& r is Ok
                &&& final(files)@ == f
                &&& final(ecl).cursor == c
                &&& *final(intent) == i
            },
            Err(e) => r == Err::<(), EclError>(e) && final(files)@ == old(files)@,
        },
{
    reveal(apply_prim);
    match op {
        PrimOp::File(n) => ecl.set_file(files, n),
        PrimOp::Pos(p) => {
            ecl.set_pos(p);
            Ok(())
        },
        PrimOp::Jump { start, expect, dest, at_frame, ecl_time } => ecl.jump(
            files,
            start,
            expect,
            dest,
            at_frame,
            ecl_time,
        ),
        PrimOp::SeqAt { pos, expect, words } => {
            let w = words.words();
            ecl.write_seq_at(files, pos, expect, w.as_slice())
        },
        PrimOp::SeqCont { words } => {
            let w = words.words();
            ecl.write_seq(files, w.as_slice())
        },
        PrimOp::I8 { at, v } => ecl.write_i8_at(files, at, v),
        PrimOp::I16 { at, v } => ecl.write_i16_at(files, at, v),
        PrimOp::I32 { at, v } => ecl.write_i32_at(files, at, v),
        PrimOp::U32 { at, v } => ecl.write_u32_at(files, at, v),
        PrimOp::Skip(n) => {
            intent.skip_remaining = n;
            Ok(())
        },
        PrimOp::SetChapter(n) => {
            intent.set_chapter = Some(n);
            Ok(())
        },
        PrimOp::St7Bonus => {
            intent.st7_bonus = true;
            Ok(())
        },
    }
}

/// Applies the warp of `section` and `phase` through `ecl`. Returns the chapter effects to
/// schedule, or the first operation's failure (the writes before it stay applied and recorded).
pub fn apply_section(ecl: &mut Ecl, files: &mut EclFiles, section: u32, phase: u32) -> (r: Result<
    ChapterIntent,
    EclError,
>)
    requires
        spec_section_mapped(section, phase),
        old(files).wf(),
        old(ecl).inv(old(files)@),
    ensures
        final(files).wf(),
        final(ecl).inv(final(files)@),
        final(ecl).start == old(ecl).start,
        ({
            let (f, res) = run_prims(
                old(files)@,
                old(ecl).cursor,
                no_intent(),
                spec_section_prims(section, phase)->0,
            );
            &&& final(files)@ == f
            &&& match res {
                Ok((c, i)) => r == Ok::<ChapterIntent, EclError>(i) && final(ecl).cursor == c,
                Err(e) => r == Err::<ChapterIntent, EclError>(e),
            }
        }),
{
    let mut prims: Vec<PrimOp> = Vec::new();
    let mapped = expand_section(section, phase, &mut prims);
    assert(mapped);
    assert(prims@ =~= spec_section_prims(section, phase)->0);
    let mut intent = ChapterIntent::none();
    let ghost target = run_prims(files@, ecl.cursor, intent, prims@);
    let mut k: usize = 0;
    assert(prims@.skip(0) =~= prims@);
    assert(target == run_prims(
        old(files)@,
        old(ecl).cursor,
        no_intent(),
        spec_section_prims(section, phase)->0,
    ));
    while k < prims.len()
        invariant
            k <= prims@.len(),
            files.wf(),
            ecl.inv(files@),
            ecl.start == old(ecl).start,
            target == run_prims(files@, ecl.cursor, intent, prims@.skip(k as int)),
            target == run_prims(
                old(files)@,
                old(ecl).cursor,
                no_intent(),
                spec_section_prims(section, phase)->0,
            ),
        decreases prims@.len() - k,
    {
        let op = prims[k];
        let ghost rest = prims@.skip(k as int);
        assert(rest[0] == op);
        assert(rest.skip(1) =~= prims@.skip(k + 1));
        let ghost fb = files@;
        let ghost cb = ecl.cursor;
        let ghost ib = intent;
        let step = apply_op(ecl, files, &mut intent, op);
        if let Err(e) = step {
            assert(apply_prim(fb, cb, ib, op) == Err::<(FilesView, Cursor, ChapterIntent), EclError>(e));
            assert(target == (fb, Err::<(Cursor, ChapterIntent), EclError>(e)));
            assert(target.0 == files@);
            return Err(e);
        }
        k += 1;
    }
    assert(prims@.skip(k as int) =~= Seq::<PrimOp>::empty());
    Ok(intent)
}

} // verus!
