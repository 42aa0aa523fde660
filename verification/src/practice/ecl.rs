//! ECL patching with an undo log.
//!
//! The game reuses a stage's in-memory ECL buffers when retrying the same stage, so a warp's
//! patches must not persist into the next episode or leak into a vanilla reload. Every write
//! through an [`Ecl`] cursor records the bytes it replaced; [`EclUndo::revert`] puts them back.

use crate::bytes::{as_unsigned32, le_u16, read_u16_le, u32_le_bytes, push_u32_le, unsigned32};
use vstd::prelude::*;

verus! {

/// A jump's instruction header: size `0x18`, opcode `0xC`.
pub const ECL_JUMP_HEADER: u32 = 0x0018_000C;
/// A jump's descriptor: 2 parameters, rank mask `0xFF`.
pub const ECL_JUMP_DESCRIPTOR: u32 = 0x02FF_0000;
/// The largest single write that the undo log records.
pub const MAX_UNDO_WRITE: usize = 8;
/// The length of an ECL jump instruction.
pub const ECL_JUMP_LEN: usize = 24;

/// The loaded ECL files: slot `i` is the buffer at address `bases[i]` holding `data[i]`; a base
/// of `0` is a null slot.
pub struct EclFiles {
    pub bases: Vec<usize>,
    pub data: Vec<Vec<u8>>,
}

/// The files as `(base, bytes)` per slot.
pub type FilesView = Seq<(usize, Seq<u8>)>;

impl View for EclFiles {
    type V = FilesView;

    open spec fn view(&self) -> FilesView {
        Seq::new(self.bases@.len(), |i: int| (self.bases@[i], self.data@[i]@))
    }
}

impl EclFiles {
    /// Every slot has both a base and a buffer.
    pub open spec fn wf(&self) -> bool {
        self.bases@.len() == self.data@.len()
    }
}

/// `s` with `b` written at `at`.
pub open spec fn write_range(s: Seq<u8>, at: int, b: Seq<u8>) -> Seq<u8> {
    s.subrange(0, at) + b + s.subrange(at + b.len(), s.len() as int)
}

/// Whether slot `ordinal` is live with base `base` and `len` bytes fit at `at`.
pub open spec fn slot_fits(files: FilesView, ordinal: int, base: usize, at: int, len: int) -> bool {
    &&& 0 <= ordinal < files.len()
    &&& base != 0
    &&& files[ordinal].0 == base
    &&& 0 <= at
    &&& at + len <= files[ordinal].1.len()
}

/// The files with `b` written at `at` in slot `ordinal`.
pub open spec fn write_file(files: FilesView, ordinal: int, at: int, b: Seq<u8>) -> FilesView {
    files.update(ordinal, (files[ordinal].0, write_range(files[ordinal].1, at, b)))
}

/// An undo entry: `(ordinal, base, offset, original, patched)`.
pub type EntryView = (usize, usize, u32, Seq<u8>, Seq<u8>);

/// Applying an entry forward: valid only if the slot still has the entry's base, the span fits,
/// and the span holds the entry's original bytes.
pub open spec fn step_entry(files: FilesView, e: EntryView) -> Option<FilesView> {
    if slot_fits(files, e.0 as int, e.1, e.2 as int, e.4.len() as int) && e.3.len() == e.4.len()
        && files[e.0 as int].1.subrange(e.2 as int, e.2 + e.3.len()) == e.3 {
        Some(write_file(files, e.0 as int, e.2 as int, e.4))
    } else {
        None
    }
}

/// The files reached from `start` by the entries in order, if each entry is consistent.
pub open spec fn recorded(start: FilesView, entries: Seq<EntryView>) -> Option<FilesView>
    decreases entries.len(),
{
    if entries.len() == 0 {
        Some(start)
    } else {
        match recorded(start, entries.drop_last()) {
            Some(files) => step_entry(files, entries.last()),
            None => None,
        }
    }
}

/// Undoing one entry: the original bytes go back only if the slot still has the entry's base
/// and the span still holds the patched bytes.
pub open spec fn revert_entry(files: FilesView, e: EntryView) -> FilesView {
    if slot_fits(files, e.0 as int, e.1, e.2 as int, e.4.len() as int) && e.3.len() == e.4.len()
        && files[e.0 as int].1.subrange(e.2 as int, e.2 + e.4.len()) == e.4 {
        write_file(files, e.0 as int, e.2 as int, e.3)
    } else {
        files
    }
}

/// Undoing the entries, last first.
pub open spec fn spec_revert(files: FilesView, entries: Seq<EntryView>) -> FilesView
    decreases entries.len(),
{
    if entries.len() == 0 {
        files
    } else {
        spec_revert(revert_entry(files, entries.last()), entries.drop_last())
    }
}

/// Writing bytes over a span and then writing back what the span held restores the buffer.
proof fn lemma_write_back(s: Seq<u8>, at: int, original: Seq<u8>, patched: Seq<u8>)
    requires
        0 <= at,
        at + patched.len() <= s.len(),
        original.len() == patched.len(),
        s.subrange(at, at + original.len()) == original,
    ensures
        write_range(write_range(s, at, patched), at, original) == s,
        write_range(s, at, patched).len() == s.len(),
        write_range(s, at, patched).subrange(at, at + patched.len()) == patched,
{
    let w = write_range(s, at, patched);
    assert(w.subrange(at, at + patched.len()) =~= patched);
    assert(write_range(w, at, original) =~= s);
}

/// Undoing a consistent undo log restores the files it started from: whatever sequence of
/// recorded writes a warp made, reverting them leaves the ECL buffers as loaded.
pub proof fn lemma_revert_restores(start: FilesView, entries: Seq<EntryView>)
    requires
        recorded(start, entries) is Some,
    ensures
        spec_revert(recorded(start, entries)->0, entries) == start,
    decreases entries.len(),
{
    if entries.len() > 0 {
        let e = entries.last();
        let before = recorded(start, entries.drop_last())->0;
        let after = recorded(start, entries)->0;
        let o = e.0 as int;
        lemma_write_back(before[o].1, e.2 as int, e.3, e.4);
        assert(revert_entry(after, e) =~= before);
        lemma_revert_restores(start, entries.drop_last());
    }
}

/// Recording two logs one after the other is recording their concatenation.
pub proof fn lemma_recorded_append(start: FilesView, a: Seq<EntryView>, b: Seq<EntryView>)
    requires
        recorded(start, a) is Some,
    ensures
        recorded(start, a + b) == recorded(recorded(start, a)->0, b),
    decreases b.len(),
{
    if b.len() == 0 {
        assert(a + b =~= a);
    } else {
        assert((a + b).drop_last() =~= a + b.drop_last());
        assert((a + b).last() == b.last());
        lemma_recorded_append(start, a, b.drop_last());
    }
}

/// A write that the undo log remembers.
pub struct UndoEntry {
    /// The file slot index.
    pub ordinal: usize,
    /// The base address of the file buffer when the write occurred.
    pub base: usize,
    pub offset: u32,
    /// The bytes before the write.
    pub original: Vec<u8>,
    /// The bytes after the write.
    pub patched: Vec<u8>,
}

impl View for UndoEntry {
    type V = EntryView;

    open spec fn view(&self) -> EntryView {
        (self.ordinal, self.base, self.offset, self.original@, self.patched@)
    }
}

/// A warp's ECL patches in application order.
pub struct EclUndo {
    pub entries: Vec<UndoEntry>,
}

impl View for EclUndo {
    type V = Seq<EntryView>;

    open spec fn view(&self) -> Seq<EntryView> {
        self.entries@.map_values(|e: UndoEntry| e@)
    }
}

/// Returns `buf` with `bytes` written at `at`.
fn write_bytes_into(buf: &mut Vec<u8>, at: usize, bytes: &[u8])
    requires
        at + bytes@.len() <= old(buf)@.len(),
    ensures
        final(buf)@ == write_range(old(buf)@, at as int, bytes@),
{
    let n = bytes.len();
    let total = buf.len();
    let mut k: usize = 0;
    while k < n
        invariant
            n == bytes@.len(),
            k <= n,
            at + n <= total,
            total == old(buf)@.len(),
            buf@.len() == old(buf)@.len(),
            buf@.subrange(0, at as int) == old(buf)@.subrange(0, at as int),
            buf@.subrange(at as int, at + k) == bytes@.subrange(0, k as int),
            buf@.subrange(at + k, buf@.len() as int) == old(buf)@.subrange(
                at + k,
                old(buf)@.len() as int,
            ),
        decreases n - k,
    {
        let ghost prev = buf@;
        let ghost tail = total as int;
        buf.set(at + k, bytes[k]);
        assert forall|i: int| at + k + 1 <= i < tail implies #[trigger] prev[i] == old(buf)@[i] by {
            assert(prev.subrange(at + k, tail)[i - (at + k)] == old(buf)@.subrange(at + k, tail)[i
                - (at + k)]);
        }
        assert(buf@.subrange(at + k + 1, tail) =~= old(buf)@.subrange(at + k + 1, tail));
        assert(buf@.subrange(0, at as int) =~= prev.subrange(0, at as int));
        assert(buf@.subrange(at as int, at + k + 1) =~= bytes@.subrange(0, k + 1));
        assert(buf@.subrange(at + k + 1, buf@.len() as int) =~= prev.subrange(
            at + k + 1,
            prev.len() as int,
        ));
        k += 1;
    }
    assert(bytes@.subrange(0, n as int) =~= bytes@);
    assert(buf@ =~= write_range(old(buf)@, at as int, bytes@));
}

/// Returns whether `buf[at..at + bytes.len()]` equals `bytes`.
fn span_equals(buf: &Vec<u8>, at: usize, bytes: &Vec<u8>) -> (r: bool)
    requires
        at + bytes@.len() <= buf@.len(),
    ensures
        r == (buf@.subrange(at as int, at + bytes@.len()) == bytes@),
{
    let n = bytes.len();
    let total = buf.len();
    let mut k: usize = 0;
    while k < n
        invariant
            n == bytes@.len(),
            k <= n,
            at + n <= total,
            total == buf@.len(),
            buf@.subrange(at as int, at + k) == bytes@.subrange(0, k as int),
        decreases n - k,
    {
        if buf[at + k] != bytes[k] {
            assert(buf@.subrange(at as int, at + n)[k as int] != bytes@[k as int]);
            return false;
        }
        assert(buf@.subrange(at as int, at + k + 1) =~= bytes@.subrange(0, k + 1));
        k += 1;
    }
    assert(bytes@.subrange(0, n as int) =~= bytes@);
    true
}

/// Copies `buf[at..at + len]`.
fn copy_span(buf: &Vec<u8>, at: usize, len: usize) -> (r: Vec<u8>)
    requires
        at + len <= buf@.len(),
    ensures
        r@ == buf@.subrange(at as int, at + len),
{
    let mut out: Vec<u8> = Vec::new();
    let total = buf.len();
    let mut k: usize = 0;
    while k < len
        invariant
            k <= len,
            at + len <= total,
            total == buf@.len(),
            out@ == buf@.subrange(at as int, at + k),
        decreases len - k,
    {
        out.push(buf[at + k]);
        assert(out@ =~= buf@.subrange(at as int, at + k + 1));
        k += 1;
    }
    out
}

/// Undoes one entry in place.
fn revert_one(files: &mut EclFiles, entry: &UndoEntry)
    requires
        old(files).wf(),
    ensures
        final(files).wf(),
        final(files)@ == revert_entry(old(files)@, entry@),
{
    let o = entry.ordinal;
    let len = entry.patched.len();
    if o < files.bases.len() && entry.base != 0 && files.bases[o] == entry.base
        && entry.original.len() == len && (entry.offset as usize) <= files.data[o].len() && len
        <= files.data[o].len() - entry.offset as usize {
        let at = entry.offset as usize;
        if span_equals(&files.data[o], at, &entry.patched) {
            let ghost prev = files@;
            write_bytes_into(&mut files.data[o], at, entry.original.as_slice());
            assert(files@ =~= write_file(prev, o as int, at as int, entry.original@));
        }
    }
}

impl EclUndo {
    /// An empty log.
    pub fn new() -> (r: Self)
        ensures
            r@ == Seq::<EntryView>::empty(),
    {
        let r = EclUndo { entries: Vec::new() };
        assert(r@ =~= Seq::<EntryView>::empty());
        r
    }

    /// Restores each overwritten span to its original bytes, last write first. A span is
    /// skipped if its slot no longer holds the buffer that was patched or if the span no longer
    /// holds the patched bytes.
    pub fn revert(&self, files: &mut EclFiles)
        requires
            old(files).wf(),
        ensures
            final(files).wf(),
            final(files)@ == spec_revert(old(files)@, self@),
    {
        let mut i = self.entries.len();
        assert(self@.take(i as int) =~= self@);
        while i > 0
            invariant
                i <= self.entries@.len(),
                files.wf(),
                spec_revert(old(files)@, self@) == spec_revert(files@, self@.take(i as int)),
            decreases i,
        {
            let ghost cur = files@;
            revert_one(files, &self.entries[i - 1]);
            assert(self@.take(i as int).drop_last() =~= self@.take(i - 1));
            assert(self@.take(i as int).last() == self.entries@[i - 1]@);
            i -= 1;
        }
        assert(self@.take(0) =~= Seq::<EntryView>::empty());
    }
}

/// Why a patch could not be applied.
#[derive(Debug, Clone, Copy, PartialEq, Eq, Structural)]
pub enum EclError {
    /// The selected file slot is null: the stage has fewer ECL files than the warp expects.
    NullFileSlot,
    /// The instruction at the expected offset has another ID.
    IdMismatch,
    /// The access runs past the end of the file.
    OutOfBounds,
}

/// The cursor's position: a live file slot, its base, and an offset into it.
#[derive(Debug, Clone, Copy, PartialEq, Eq, Structural)]
pub struct Cursor {
    pub ordinal: usize,
    pub base: usize,
    pub pos: u32,
}

/// Whether the cursor's slot is live with the cursor's base.
pub open spec fn cursor_live(files: FilesView, c: Cursor) -> bool {
    &&& c.ordinal < files.len()
    &&& c.base != 0
    &&& files[c.ordinal as int].0 == c.base
}

/// Selecting slot `ordinal`: the cursor at its start, or a null slot.
pub open spec fn spec_select(files: FilesView, ordinal: usize) -> Result<Cursor, EclError> {
    if ordinal < files.len() && files[ordinal as int].0 != 0 {
        Ok(Cursor { ordinal, base: files[ordinal as int].0, pos: 0 })
    } else {
        Err(EclError::NullFileSlot)
    }
}

/// Checking that the instruction at `pos` of the cursor's file has ID `expect` (the `u16` at
/// `pos + 4`).
pub open spec fn spec_check_ins(files: FilesView, c: Cursor, pos: u32, expect: u16) -> Result<
    (),
    EclError,
> {
    let file = files[c.ordinal as int].1;
    if pos + 6 > file.len() {
        Err(EclError::OutOfBounds)
    } else if le_u16(file, pos + 4) != expect {
        Err(EclError::IdMismatch)
    } else {
        Ok(())
    }
}

/// Writing `b` at the cursor and advancing past it, or a span that does not fit the file (or
/// the cursor's `u32` range).
pub open spec fn spec_write(files: FilesView, c: Cursor, b: Seq<u8>) -> Result<
    (FilesView, Cursor),
    EclError,
> {
    if c.pos + b.len() <= files[c.ordinal as int].1.len() && c.pos + b.len() <= u32::MAX {
        Ok(
            (
                write_file(files, c.ordinal as int, c.pos as int, b),
                Cursor { ordinal: c.ordinal, base: c.base, pos: (c.pos + b.len()) as u32 },
            ),
        )
    } else {
        Err(EclError::OutOfBounds)
    }
}

/// The little-endian bytes of `ws`, word after word.
pub open spec fn words_le_bytes(ws: Seq<u32>) -> Seq<u8>
    decreases ws.len(),
{
    if ws.len() == 0 {
        Seq::empty()
    } else {
        words_le_bytes(ws.drop_last()) + u32_le_bytes(ws.last())
    }
}

pub open spec fn i8_le_bytes(v: i8) -> Seq<u8> {
    seq![v as u8]
}

pub open spec fn i16_le_bytes(v: i16) -> Seq<u8> {
    seq![((v as u16) % 0x100) as u8, ((v as u16) / 0x100) as u8]
}

pub open spec fn i32_le_bytes(v: i32) -> Seq<u8> {
    u32_le_bytes(as_unsigned32(v))
}

/// The six words of an ECL jump from `start` to `dest`, taken at frame `at_frame`.
pub open spec fn jump_words(start: u32, dest: u32, at_frame: i32, ecl_time: i32) -> Seq<u32> {
    seq![
        as_unsigned32(ecl_time),
        ECL_JUMP_HEADER,
        ECL_JUMP_DESCRIPTOR,
        0,
        vstd::wrapping::u32_specs::wrapping_sub(dest, start),
        as_unsigned32(at_frame),
    ]
}

/// The undo entry that writing `b` at the cursor `c` records over `files`: the slot, its base,
/// the offset, the bytes there before, and `b`.
pub open spec fn entry_at(files: FilesView, c: Cursor, b: Seq<u8>) -> EntryView {
    (c.ordinal, c.base, c.pos, files[c.ordinal as int].1.subrange(c.pos as int, c.pos + b.len()), b)
}

/// The undo entries that writing `ws` word by word from the cursor `c` records over `files`:
/// one per word, in order, each at its own offset.
pub open spec fn word_entries(files: FilesView, c: Cursor, ws: Seq<u32>) -> Seq<EntryView> {
    Seq::new(
        ws.len(),
        |k: int| entry_at(files, Cursor { pos: (c.pos + 4 * k) as u32, ..c }, u32_le_bytes(ws[k])),
    )
}

/// Two adjacent writes are one write of both.
proof fn lemma_write_range_adjacent(s: Seq<u8>, at: int, b1: Seq<u8>, b2: Seq<u8>)
    requires
        0 <= at,
        at + b1.len() + b2.len() <= s.len(),
    ensures
        write_range(write_range(s, at, b1), at + b1.len(), b2) == write_range(s, at, b1 + b2),
        write_range(s, at, b1).len() == s.len(),
        write_range(s, at, b1).subrange(at + b1.len(), at + b1.len() + b2.len()) == s.subrange(
            at + b1.len(),
            at + b1.len() + b2.len(),
        ),
{
    let w = write_range(s, at, b1);
    assert(w.subrange(at + b1.len(), at + b1.len() + b2.len()) =~= s.subrange(
        at + b1.len(),
        at + b1.len() + b2.len(),
    ));
    assert(write_range(w, at + b1.len(), b2) =~= write_range(s, at, b1 + b2));
}

pub proof fn lemma_words_le_bytes_len(ws: Seq<u32>)
    ensures
        words_le_bytes(ws).len() == 4 * ws.len(),
    decreases ws.len(),
{
    if ws.len() > 0 {
        lemma_words_le_bytes_len(ws.drop_last());
    }
}

/// Returns the little-endian bytes of `words`.
pub fn words_to_bytes(words: &[u32]) -> (r: Vec<u8>)
    ensures
        r@ == words_le_bytes(words@),
{
    let mut out: Vec<u8> = Vec::new();
    let mut k: usize = 0;
    while k < words.len()
        invariant
            k <= words@.len(),
            out@ == words_le_bytes(words@.take(k as int)),
        decreases words@.len() - k,
    {
        push_u32_le(&mut out, words[k]);
        assert(words@.take(k + 1).drop_last() =~= words@.take(k as int));
        k += 1;
    }
    assert(words@.take(k as int) =~= words@);
    out
}

/// A cursor over the loaded ECL files that records every write in an undo log.
pub struct Ecl {
    pub cursor: Cursor,
    pub undo: EclUndo,
    /// The files as they were when the cursor was created.
    pub start: Ghost<FilesView>,
}

impl Ecl {
    /// The cursor's slot is live, and replaying the undo log from the starting files gives
    /// `files`.
    pub open spec fn inv(&self, files: FilesView) -> bool {
        &&& cursor_live(files, self.cursor)
        &&& recorded(self.start@, self.undo@) == Some(files)
    }

    /// A cursor at the start of file slot 0, or `None` if that slot is null (no stage is loaded
    /// or its files are not published yet).
    pub fn new(files: &EclFiles) -> (r: Option<Self>)
        requires
            files.wf(),
        ensures
            r is Some <==> spec_select(files@, 0) is Ok,
            r matches Some(e) ==> {
                &&& e.inv(files@)
                &&& spec_select(files@, 0) == Ok::<Cursor, EclError>(e.cursor)
                &&& e.undo@ == Seq::<EntryView>::empty()
                &&& e.start@ == files@
            },
    {
        if files.bases.len() == 0 || files.bases[0] == 0 {
            return None;
        }
        let e = Ecl {
            cursor: Cursor { ordinal: 0, base: files.bases[0], pos: 0 },
            undo: EclUndo::new(),
            start: Ghost(files@),
        };
        Some(e)
    }

    /// Gives up the cursor, keeping its undo log.
    pub fn take_undo(self) -> (r: EclUndo)
        ensures
            r@ == self.undo@,
    {
        self.undo
    }

    /// Selects file `ordinal` and seeks to its start.
    pub fn set_file(&mut self, files: &EclFiles, ordinal: usize) -> (r: Result<(), EclError>)
        requires
            files.wf(),
            old(self).inv(files@),
        ensures
            final(self).inv(files@),
            final(self).undo@ == old(self).undo@,
            final(self).start == old(self).start,
            match spec_select(files@, ordinal) {
                Ok(c) => r is Ok && final(self).cursor == c,
                Err(e) => r == Err::<(), EclError>(e) && final(self).cursor == old(self).cursor,
            },
    {
        if ordinal >= files.bases.len() || files.bases[ordinal] == 0 {
            return Err(EclError::NullFileSlot);
        }
        self.cursor = Cursor { ordinal, base: files.bases[ordinal], pos: 0 };
        Ok(())
    }

    /// Seeks within the current file.
    pub fn set_pos(&mut self, pos: u32)
        ensures
            final(self).cursor == (Cursor { pos, ..old(self).cursor }),
            final(self).undo == old(self).undo,
            final(self).start == old(self).start,
    {
        self.cursor.pos = pos;
    }

    /// Checks that the instruction at `pos` of the current file has ID `expect`.
    pub fn expect_ins(&self, files: &EclFiles, pos: u32, expect: u16) -> (r: Result<(), EclError>)
        requires
            files.wf(),
            self.inv(files@),
        ensures
            r == spec_check_ins(files@, self.cursor, pos, expect),
    {
        let o = self.cursor.ordinal;
        let file = &files.data[o];
        if (pos as usize) > file.len() || file.len() - (pos as usize) < 6 {
            return Err(EclError::OutOfBounds);
        }
        let id = read_u16_le(file.as_slice(), pos as usize + 4);
        if id != expect {
            Err(EclError::IdMismatch)
        } else {
            Ok(())
        }
    }

    /// Writes `bytes` at the cursor, records the write, and advances past it.
    fn write(&mut self, files: &mut EclFiles, bytes: Vec<u8>) -> (r: Result<(), EclError>)
        requires
            old(files).wf(),
            old(self).inv(old(files)@),
        ensures
            final(files).wf(),
            final(self).inv(final(files)@),
            final(self).start == old(self).start,
            match spec_write(old(files)@, old(self).cursor, bytes@) {
                Ok((f, c)) => r is Ok && final(files)@ == f && final(self).cursor == c
                    && final(self).undo@ == old(self).undo@.push(
                    entry_at(old(files)@, old(self).cursor, bytes@),
                ),
                Err(e) => r == Err::<(), EclError>(e) && final(files)@ == old(files)@
                    && final(self).cursor == old(self).cursor && final(self).undo@ == old(
                    self,
                ).undo@,
            },
    {
        let o = self.cursor.ordinal;
        let pos = self.cursor.pos;
        let at = pos as usize;
        let len = bytes.len();
        let flen = files.data[o].len();
        if at > flen || len > flen - at || len > (u32::MAX - pos) as usize {
            return Err(EclError::OutOfBounds);
        }
        let ghost before = files@;
        let original = copy_span(&files.data[o], at, len);
        write_bytes_into(&mut files.data[o], at, bytes.as_slice());
        let entry = UndoEntry { ordinal: o, base: self.cursor.base, offset: pos, original, patched: bytes };
        let ghost e = entry@;
        let ghost old_log = self.undo@;
        self.undo.entries.push(entry);
        self.cursor.pos = pos + len as u32;
        proof {
            assert(files@ =~= write_file(before, o as int, at as int, e.4));
            assert(self.undo@ =~= old_log.push(e));
            assert(self.undo@.drop_last() =~= old_log);
        }
        Ok(())
    }

    /// Writes `v` at `at` and leaves the cursor after it.
    pub fn write_i8_at(&mut self, files: &mut EclFiles, at: u32, v: i8) -> (r: Result<(), EclError>)
        requires
            old(files).wf(),
            old(self).inv(old(files)@),
        ensures
            final(files).wf(),
            final(self).inv(final(files)@),
            final(self).start == old(self).start,
            match spec_write(old(files)@, Cursor { pos: at, ..old(self).cursor }, i8_le_bytes(v)) {
                Ok((f, c)) => r is Ok && final(files)@ == f && final(self).cursor == c
                    && final(self).undo@ == old(self).undo@.push(
                    entry_at(old(files)@, Cursor { pos: at, ..old(self).cursor }, i8_le_bytes(v)),
                ),
                Err(e) => r == Err::<(), EclError>(e) && final(files)@ == old(files)@
                    && final(self).undo@ == old(self).undo@,
            },
    {
        self.set_pos(at);
        let mut b: Vec<u8> = Vec::new();
        b.push(v as u8);
        assert(b@ =~= i8_le_bytes(v));
        self.write(files, b)
    }

    /// Writes `v` little-endian at `at` and leaves the cursor after it.
    pub fn write_i16_at(&mut self, files: &mut EclFiles, at: u32, v: i16) -> (r: Result<(), EclError>)
        requires
            old(files).wf(),
            old(self).inv(old(files)@),
        ensures
            final(files).wf(),
            final(self).inv(final(files)@),
            final(self).start == old(self).start,
            match spec_write(old(files)@, Cursor { pos: at, ..old(self).cursor }, i16_le_bytes(v)) {
                Ok((f, c)) => r is Ok && final(files)@ == f && final(self).cursor == c
                    && final(self).undo@ == old(self).undo@.push(
                    entry_at(old(files)@, Cursor { pos: at, ..old(self).cursor }, i16_le_bytes(v)),
                ),
                Err(e) => r == Err::<(), EclError>(e) && final(files)@ == old(files)@
                    && final(self).undo@ == old(self).undo@,
            },
    {
        self.set_pos(at);
        let u = v as u16;
        let mut b: Vec<u8> = Vec::new();
        b.push((u % 0x100) as u8);
        b.push((u / 0x100) as u8);
        assert(b@ =~= i16_le_bytes(v));
        self.write(files, b)
    }

    /// Writes `v` little-endian at `at` and leaves the cursor after it.
    pub fn write_i32_at(&mut self, files: &mut EclFiles, at: u32, v: i32) -> (r: Result<(), EclError>)
        requires
            old(files).wf(),
            old(self).inv(old(files)@),
        ensures
            final(files).wf(),
            final(self).inv(final(files)@),
            final(self).start == old(self).start,
            match spec_write(old(files)@, Cursor { pos: at, ..old(self).cursor }, i32_le_bytes(v)) {
                Ok((f, c)) => r is Ok && final(files)@ == f && final(self).cursor == c
                    && final(self).undo@ == old(self).undo@.push(
                    entry_at(old(files)@, Cursor { pos: at, ..old(self).cursor }, i32_le_bytes(v)),
                ),
                Err(e) => r == Err::<(), EclError>(e) && final(files)@ == old(files)@
                    && final(self).undo@ == old(self).undo@,
            },
    {
        self.set_pos(at);
        let mut b: Vec<u8> = Vec::new();
        push_u32_le(&mut b, unsigned32(v));
        assert(b@ =~= i32_le_bytes(v));
        self.write(files, b)
    }

    /// Writes `v` little-endian at `at` and leaves the cursor after it.
    pub fn write_u32_at(&mut self, files: &mut EclFiles, at: u32, v: u32) -> (r: Result<(), EclError>)
        requires
            old(files).wf(),
            old(self).inv(old(files)@),
        ensures
            final(files).wf(),
            final(self).inv(final(files)@),
            final(self).start == old(self).start,
            match spec_write(old(files)@, Cursor { pos: at, ..old(self).cursor }, u32_le_bytes(v)) {
                Ok((f, c)) => r is Ok && final(files)@ == f && final(self).cursor == c
                    && final(self).undo@ == old(self).undo@.push(
                    entry_at(old(files)@, Cursor { pos: at, ..old(self).cursor }, u32_le_bytes(v)),
                ),
                Err(e) => r == Err::<(), EclError>(e) && final(files)@ == old(files)@
                    && final(self).undo@ == old(self).undo@,
            },
    {
        self.set_pos(at);
        let mut b: Vec<u8> = Vec::new();
        push_u32_le(&mut b, v);
        assert(b@ =~= u32_le_bytes(v));
        self.write(files, b)
    }

    /// Writes `words` little-endian at the cursor, one recorded write per word, and leaves the
    /// cursor after them. Nothing is written unless all of them fit.
    pub fn write_seq(&mut self, files: &mut EclFiles, words: &[u32]) -> (r: Result<(), EclError>)
        requires
            old(files).wf(),
            old(self).inv(old(files)@),
        ensures
            final(files).wf(),
            final(self).inv(final(files)@),
            final(self).start == old(self).start,
            match spec_write(old(files)@, old(self).cursor, words_le_bytes(words@)) {
                Ok((f, c)) => r is Ok && final(files)@ == f && final(self).cursor == c
                    && final(self).undo@ == old(self).undo@ + word_entries(
                    old(files)@,
                    old(self).cursor,
                    words@,
                ),
                Err(e) => r == Err::<(), EclError>(e) && final(files)@ == old(files)@
                    && final(self).cursor == old(self).cursor && final(self).undo@ == old(
                    self,
                ).undo@,
            },
    {
        let ghost f0 = files@;
        let ghost c0 = self.cursor;
        let ghost u0 = self.undo@;
        proof {
            lemma_words_le_bytes_len(words@);
        }
        let n = words.len();
        let o = self.cursor.ordinal;
        let pos = self.cursor.pos;
        let flen = files.data[o].len();
        if (pos as usize) > flen || n > (flen - pos as usize) / 4 || n > ((u32::MAX - pos) / 4) as usize {
            return Err(EclError::OutOfBounds);
        }
        assert(pos + 4 * n <= flen && pos + 4 * n <= u32::MAX);
        proof {
            assert(words@.take(0) =~= Seq::<u32>::empty());
            assert(words_le_bytes(words@.take(0)) =~= Seq::<u8>::empty());
            assert(write_range(f0[o as int].1, pos as int, Seq::<u8>::empty()) =~= f0[o as int].1);
            assert(write_file(f0, o as int, pos as int, Seq::<u8>::empty()) =~= f0);
            assert(word_entries(f0, c0, words@.take(0)) =~= Seq::<EntryView>::empty());
            assert(u0 + Seq::<EntryView>::empty() =~= u0);
        }
        let mut k: usize = 0;
        while k < n
            invariant
                n == words@.len(),
                k <= n,
                o == c0.ordinal,
                pos == c0.pos,
                flen == f0[o as int].1.len(),
                pos + 4 * n <= flen,
                pos + 4 * n <= u32::MAX,
                files.wf(),
                self.inv(files@),
                self.start == old(self).start,
                c0 == old(self).cursor,
                f0 == old(files)@,
                u0 == old(self).undo@,
                cursor_live(f0, c0),
                self.cursor == (Cursor { pos: (pos + 4 * k) as u32, ..c0 }),
                files@ == write_file(f0, o as int, pos as int, words_le_bytes(words@.take(k as int))),
                self.undo@ == u0 + word_entries(f0, c0, words@.take(k as int)),
            decreases n - k,
        {
            let ghost fk = files@;
            let ghost uk = self.undo@;
            let ghost prefix = words_le_bytes(words@.take(k as int));
            let mut b: Vec<u8> = Vec::new();
            push_u32_le(&mut b, words[k]);
            proof {
                lemma_words_le_bytes_len(words@.take(k as int));
                assert(words@.take(k + 1).drop_last() =~= words@.take(k as int));
                assert(words@.take(k + 1).last() == words@[k as int]);
                lemma_write_range_adjacent(f0[o as int].1, pos as int, prefix, b@);
                assert(fk[o as int].1 == write_range(f0[o as int].1, pos as int, prefix));
            }
            if let Err(e) = self.write(files, b) {
                return Err(e);
            }
            proof {
                let c = Cursor { pos: (pos + 4 * k) as u32, ..c0 };
                assert(entry_at(fk, c, b@) == entry_at(f0, c, b@));
                assert(files@ =~= write_file(f0, o as int, pos as int, words_le_bytes(words@.take(k + 1))));
                assert(word_entries(f0, c0, words@.take(k + 1)) =~= word_entries(f0, c0, words@.take(k as int)).push(
                    entry_at(f0, c, b@),
                ));
                assert(self.undo@ =~= u0 + word_entries(f0, c0, words@.take(k + 1)));
            }
            k += 1;
        }
        proof {
            assert(words@.take(n as int) =~= words@);
        }
        Ok(())
    }

    /// Checks that the instruction at `pos` has ID `expect`, then writes `words` from there.
    pub fn write_seq_at(&mut self, files: &mut EclFiles, pos: u32, expect: u16, words: &[u32]) -> (r:
        Result<(), EclError>)
        requires
            old(files).wf(),
            old(self).inv(old(files)@),
        ensures
            final(files).wf(),
            final(self).inv(final(files)@),
            final(self).start == old(self).start,
            match spec_check_ins(old(files)@, old(self).cursor, pos, expect) {
                Err(e) => r == Err::<(), EclError>(e) && final(files)@ == old(files)@
                    && final(self).cursor == old(self).cursor && final(self).undo@ == old(
                    self,
                ).undo@,
                Ok(_) => match spec_write(
                    old(files)@,
                    Cursor { pos, ..old(self).cursor },
                    words_le_bytes(words@),
                ) {
                    Ok((f, c)) => r is Ok && final(files)@ == f && final(self).cursor == c
                        && final(self).undo@ == old(self).undo@ + word_entries(
                        old(files)@,
                        Cursor { pos, ..old(self).cursor },
                        words@,
                    ),
                    Err(e) => r == Err::<(), EclError>(e) && final(files)@ == old(files)@
                        && final(self).undo@ == old(self).undo@,
                },
            },
    {
        self.expect_ins(files, pos, expect)?;
        self.set_pos(pos);
        self.write_seq(files, words)
    }

    /// Checks that the instruction at `start` has ID `expect`, then overwrites it with a 24-byte
    /// jump to file offset `dest`, taken at frame `at_frame`.
    pub fn jump(
        &mut self,
        files: &mut EclFiles,
        start: u32,
        expect: u16,
        dest: u32,
        at_frame: i32,
        ecl_time: i32,
    ) -> (r: Result<(), EclError>)
        requires
            old(files).wf(),
            old(self).inv(old(files)@),
        ensures
            final(files).wf(),
            final(self).inv(final(files)@),
            final(self).start == old(self).start,
            match spec_check_ins(old(files)@, old(self).cursor, start, expect) {
                Err(e) => r == Err::<(), EclError>(e) && final(files)@ == old(files)@
                    && final(self).cursor == old(self).cursor && final(self).undo@ == old(
                    self,
                ).undo@,
                Ok(_) => match spec_write(
                    old(files)@,
                    Cursor { pos: start, ..old(self).cursor },
                    words_le_bytes(jump_words(start, dest, at_frame, ecl_time)),
                ) {
                    Ok((f, c)) => r is Ok && final(files)@ == f && final(self).cursor == c
                        && final(self).undo@ == old(self).undo@ + word_entries(
                        old(files)@,
                        Cursor { pos: start, ..old(self).cursor },
                        jump_words(start, dest, at_frame, ecl_time),
                    ),
                    Err(e) => r == Err::<(), EclError>(e) && final(files)@ == old(files)@
                        && final(self).undo@ == old(self).undo@,
                },
            },
    {
        self.expect_ins(files, start, expect)?;
        self.set_pos(start);
        let words = [
            unsigned32(ecl_time),
            ECL_JUMP_HEADER,
            ECL_JUMP_DESCRIPTOR,
            0,
            dest.wrapping_sub(start),
            unsigned32(at_frame),
        ];
        assert(words@ =~= jump_words(start, dest, at_frame, ecl_time));
        self.write_seq(files, &words)
    }
}

/// Reverting a cursor's undo log on the files it patched gives back the files it started from.
pub proof fn lemma_ecl_revert_restores(e: Ecl, files: FilesView)
    requires
        e.inv(files),
    ensures
        spec_revert(files, e.undo@) == e.start@,
{
    lemma_revert_restores(e.start@, e.undo@);
}

/// The undo entries of a run of scalar writes: write `k` puts `bs[k]` at the cursor `cs[k]` over
/// the files `fs[k]`.
pub open spec fn run_entries(fs: Seq<FilesView>, cs: Seq<Cursor>, bs: Seq<Seq<u8>>) -> Seq<EntryView> {
    Seq::new(cs.len(), |k: int| entry_at(fs[k], cs[k], bs[k]))
}

/// `fs`, `cs`, `bs` describe a run of scalar writes that each succeed: write `k` turns `fs[k]`
/// into `fs[k + 1]`.
pub open spec fn is_write_run(fs: Seq<FilesView>, cs: Seq<Cursor>, bs: Seq<Seq<u8>>) -> bool {
    &&& cs.len() == bs.len()
    &&& fs.len() == cs.len() + 1
    &&& forall|k: int|
        0 <= k < cs.len() ==> (#[trigger] spec_write(fs[k], cs[k], bs[k]) matches Ok((f, _))
            && f == fs[k + 1])
}

/// Over a run of scalar writes through a cursor, where each write appends its entry to the log
/// (as every write on [`Ecl`] states), the log ends with exactly one entry per write, in order:
/// entry `k` holds the slot and base of the file written, the offset of the write, the bytes that
/// were there before it, and the bytes it wrote. With the cursor's slot live at every write, a log
/// that replayed to the files before the run replays to the files after it.
pub proof fn lemma_undo_run(
    start: FilesView,
    logs: Seq<Seq<EntryView>>,
    fs: Seq<FilesView>,
    cs: Seq<Cursor>,
    bs: Seq<Seq<u8>>,
)
    requires
        is_write_run(fs, cs, bs),
        logs.len() == cs.len() + 1,
        forall|k: int|
            0 <= k < cs.len() ==> #[trigger] logs[k + 1] == logs[k].push(entry_at(fs[k], cs[k], bs[k])),
    ensures
        logs.last() == logs[0] + run_entries(fs, cs, bs),
        logs.last().len() == logs[0].len() + cs.len(),
        forall|k: int|
            0 <= k < cs.len() ==> #[trigger] logs.last()[logs[0].len() + k] == (
                cs[k].ordinal,
                cs[k].base,
                cs[k].pos,
                fs[k][cs[k].ordinal as int].1.subrange(cs[k].pos as int, cs[k].pos + bs[k].len()),
                bs[k],
            ),
        (recorded(start, logs[0]) == Some(fs[0]) && forall|k: int|
            0 <= k < cs.len() ==> #[trigger] cursor_live(fs[k], cs[k])) ==> recorded(
            start,
            logs.last(),
        ) == Some(fs.last()),
{
    lemma_undo_prefix(start, logs, fs, cs, bs, cs.len() as int);
    assert(run_entries(fs, cs, bs).take(cs.len() as int) =~= run_entries(fs, cs, bs));
}

proof fn lemma_undo_prefix(
    start: FilesView,
    logs: Seq<Seq<EntryView>>,
    fs: Seq<FilesView>,
    cs: Seq<Cursor>,
    bs: Seq<Seq<u8>>,
    n: int,
)
    requires
        is_write_run(fs, cs, bs),
        logs.len() == cs.len() + 1,
        forall|k: int|
            0 <= k < cs.len() ==> #[trigger] logs[k + 1] == logs[k].push(entry_at(fs[k], cs[k], bs[k])),
        0 <= n <= cs.len(),
    ensures
        logs[n] == logs[0] + run_entries(fs, cs, bs).take(n),
        (recorded(start, logs[0]) == Some(fs[0]) && forall|k: int|
            0 <= k < cs.len() ==> #[trigger] cursor_live(fs[k], cs[k])) ==> recorded(start, logs[n])
            == Some(fs[n]),
    decreases n,
{
    if n == 0 {
        assert(logs[0] + run_entries(fs, cs, bs).take(0) =~= logs[0]);
    } else {
        let k = n - 1;
        lemma_undo_prefix(start, logs, fs, cs, bs, k);
        let e = entry_at(fs[k], cs[k], bs[k]);
        assert(logs[k + 1] == logs[k].push(e));
        assert(run_entries(fs, cs, bs).take(n) =~= run_entries(fs, cs, bs).take(k).push(e));
        assert(logs[n] =~= logs[0] + run_entries(fs, cs, bs).take(n));
        if recorded(start, logs[0]) == Some(fs[0]) && forall|j: int|
            0 <= j < cs.len() ==> #[trigger] cursor_live(fs[j], cs[j]) {
            assert(cursor_live(fs[k], cs[k]));
            assert(spec_write(fs[k], cs[k], bs[k]) matches Ok((f, _)) && f == fs[k + 1]);
            assert(logs[n].drop_last() =~= logs[k]);
            let o = cs[k].ordinal as int;
            assert(e.3.len() == e.4.len());
            assert(step_entry(fs[k], e) == Some(fs[n]));
        }
    }
}

/// A word sequence written from a cursor is a run of scalar writes, one per word: word `k` is
/// written at `pos + 4k` over the files with the first `k` words already written, and its undo
/// entry is the one such a scalar write records.
pub proof fn lemma_word_entries_are_scalar_writes(f: FilesView, c: Cursor, ws: Seq<u32>, k: int)
    requires
        c.ordinal < f.len(),
        c.pos + 4 * ws.len() <= f[c.ordinal as int].1.len(),
        c.pos + 4 * ws.len() <= u32::MAX,
        0 <= k < ws.len(),
    ensures
        ({
            let fk = write_file(f, c.ordinal as int, c.pos as int, words_le_bytes(ws.take(k)));
            let ck = Cursor { pos: (c.pos + 4 * k) as u32, ..c };
            &&& word_entries(f, c, ws)[k] == entry_at(fk, ck, u32_le_bytes(ws[k]))
            &&& spec_write(fk, ck, u32_le_bytes(ws[k])) == Ok::<(FilesView, Cursor), EclError>(
                (
                    write_file(f, c.ordinal as int, c.pos as int, words_le_bytes(ws.take(k + 1))),
                    Cursor { pos: (c.pos + 4 * (k + 1)) as u32, ..c },
                ),
            )
        }),
{
    let o = c.ordinal as int;
    let prefix = words_le_bytes(ws.take(k));
    let b = u32_le_bytes(ws[k]);
    lemma_words_le_bytes_len(ws.take(k));
    assert(ws.take(k + 1).drop_last() =~= ws.take(k));
    assert(ws.take(k + 1).last() == ws[k]);
    lemma_write_range_adjacent(f[o].1, c.pos as int, prefix, b);
    let fk = write_file(f, o, c.pos as int, prefix);
    let ck = Cursor { pos: (c.pos + 4 * k) as u32, ..c };
    assert(fk[o].1 == write_range(f[o].1, c.pos as int, prefix));
    assert(entry_at(fk, ck, b) == entry_at(f, ck, b));
    assert(write_file(fk, o, ck.pos as int, b) =~= write_file(
        f,
        o,
        c.pos as int,
        words_le_bytes(ws.take(k + 1)),
    ));
}

} // verus!
