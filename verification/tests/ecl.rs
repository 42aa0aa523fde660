use nokozero::practice::catalog::apply_op;
use nokozero::practice::chapter::ChapterIntent;
use nokozero::practice::data::{PrimOp, expand_section};
use nokozero::practice::ecl::{Ecl, EclError, EclFiles, ECL_JUMP_DESCRIPTOR, ECL_JUMP_HEADER};

/// Two files: slot 0 at base 0x1000 with 64 bytes, slot 1 null, slot 2 at base 0x3000.
fn files() -> EclFiles {
    let mut f0 = vec![0u8; 64];
    // An instruction with ID 0x17 at offset 8 (the ID sits at +4).
    f0[12] = 0x17;
    f0[13] = 0x00;
    let f2: Vec<u8> = (0..32u8).collect();
    EclFiles {
        bases: vec![0x1000, 0, 0x3000],
        data: vec![f0, vec![], f2],
    }
}

fn u32_at(b: &[u8], at: usize) -> u32 {
    u32::from_le_bytes(b[at..at + 4].try_into().unwrap())
}

#[test]
fn cursor_needs_a_live_first_slot() {
    let empty = EclFiles { bases: vec![], data: vec![] };
    assert!(Ecl::new(&empty).is_none());
    let null = EclFiles { bases: vec![0], data: vec![vec![0; 8]] };
    assert!(Ecl::new(&null).is_none());
    let e = Ecl::new(&files()).expect("slot 0 is live");
    assert_eq!(e.cursor.ordinal, 0);
    assert_eq!(e.cursor.base, 0x1000);
    assert_eq!(e.cursor.pos, 0);
}

#[test]
fn jump_writes_the_instruction_and_revert_restores() {
    let mut files = files();
    let before = files.data.clone();
    let mut e = Ecl::new(&files).unwrap();
    assert_eq!(e.jump(&mut files, 8, 0x17, 0x30, 60, 0), Ok(()));
    let f = &files.data[0];
    assert_eq!(u32_at(f, 8), 0);
    assert_eq!(u32_at(f, 12), ECL_JUMP_HEADER);
    assert_eq!(u32_at(f, 16), ECL_JUMP_DESCRIPTOR);
    assert_eq!(u32_at(f, 20), 0);
    assert_eq!(u32_at(f, 24), 0x30 - 8);
    assert_eq!(u32_at(f, 28), 60);
    assert_eq!(e.cursor.pos, 32);
    e.write_u32_at(&mut files, 40, 7).unwrap();
    assert_eq!(u32_at(&files.data[0], 40), 7);
    let undo = e.take_undo();
    // One entry per word of the jump, then one for the `u32`.
    assert_eq!(undo.entries.len(), 7);
    let offsets: Vec<u32> = undo.entries.iter().map(|x| x.offset).collect();
    assert_eq!(offsets, vec![8, 12, 16, 20, 24, 28, 40]);
    assert!(undo.entries.iter().all(|x| x.patched.len() == 4 && x.original.len() == 4));
    assert_eq!(undo.entries[1].patched, ECL_JUMP_HEADER.to_le_bytes().to_vec());
    undo.revert(&mut files);
    assert_eq!(files.data, before);
}

#[test]
fn each_error_has_its_input() {
    let mut files = files();
    let mut e = Ecl::new(&files).unwrap();
    assert_eq!(e.set_file(&files, 1), Err(EclError::NullFileSlot));
    assert_eq!(e.set_file(&files, 9), Err(EclError::NullFileSlot));
    assert_eq!(e.jump(&mut files, 8, 0x18, 0, 0, 0), Err(EclError::IdMismatch));
    assert_eq!(e.jump(&mut files, 60, 0x17, 0, 0, 0), Err(EclError::OutOfBounds));
    assert_eq!(e.write_u32_at(&mut files, 62, 1), Err(EclError::OutOfBounds));
    assert_eq!(e.take_undo().entries.len(), 0);
}

#[test]
fn little_endian_writes_of_each_width() {
    let mut files = files();
    let mut e = Ecl::new(&files).unwrap();
    e.set_file(&files, 2).unwrap();
    e.write_i8_at(&mut files, 0, -1).unwrap();
    e.write_i16_at(&mut files, 2, -2).unwrap();
    e.write_i32_at(&mut files, 4, -3).unwrap();
    e.set_pos(8);
    e.write_seq(&mut files, &[0x0102_0304, 5]).unwrap();
    let f = &files.data[2];
    assert_eq!(f[0], 0xff);
    assert_eq!(&f[2..4], &[0xfe, 0xff]);
    assert_eq!(&f[4..8], &[0xfd, 0xff, 0xff, 0xff]);
    assert_eq!(&f[8..16], &[4, 3, 2, 1, 5, 0, 0, 0]);
    assert_eq!(f[1], 1);
    assert_eq!(e.cursor.pos, 16);
    let undo = e.take_undo();
    let shape: Vec<(usize, u32, usize)> =
        undo.entries.iter().map(|x| (x.ordinal, x.offset, x.patched.len())).collect();
    assert_eq!(shape, vec![(2, 0, 1), (2, 2, 2), (2, 4, 4), (2, 8, 4), (2, 12, 4)]);
    assert_eq!(undo.entries[3].patched, vec![4, 3, 2, 1]);
    assert_eq!(undo.entries[4].patched, vec![5, 0, 0, 0]);
}

#[test]
fn revert_skips_a_replaced_buffer() {
    let mut files = files();
    let mut e = Ecl::new(&files).unwrap();
    e.write_u32_at(&mut files, 0, 0xdead_beef).unwrap();
    let undo = e.take_undo();
    // The game reloaded slot 0 into another buffer: nothing is written back.
    files.bases[0] = 0x9000;
    let snapshot = files.data.clone();
    undo.revert(&mut files);
    assert_eq!(files.data, snapshot);
}

#[test]
fn apply_op_updates_the_intent() {
    let mut files = files();
    let mut e = Ecl::new(&files).unwrap();
    let mut intent = ChapterIntent::none();
    apply_op(&mut e, &mut files, &mut intent, PrimOp::Skip(2)).unwrap();
    apply_op(&mut e, &mut files, &mut intent, PrimOp::SetChapter(4)).unwrap();
    apply_op(&mut e, &mut files, &mut intent, PrimOp::St7Bonus).unwrap();
    assert_eq!(
        intent,
        ChapterIntent { skip_remaining: 2, set_chapter: Some(4), st7_bonus: true }
    );
    assert_eq!(
        apply_op(&mut e, &mut files, &mut intent, PrimOp::File(1)),
        Err(EclError::NullFileSlot)
    );
    apply_op(&mut e, &mut files, &mut intent, PrimOp::File(2)).unwrap();
    apply_op(&mut e, &mut files, &mut intent, PrimOp::Pos(4)).unwrap();
    assert_eq!(e.cursor.pos, 4);
    apply_op(&mut e, &mut files, &mut intent, PrimOp::I16 { at: 0, v: 0 }).unwrap();
    assert_eq!(&files.data[2][0..2], &[0, 0]);
}

#[test]
fn only_a_stage_start_expands_to_nothing() {
    for stage in 1..=7u32 {
        let mut out: Vec<PrimOp> = Vec::new();
        assert!(expand_section(10000 + stage * 100 + 1, 0, &mut out));
        assert!(out.is_empty());
    }
    let mut out: Vec<PrimOp> = Vec::new();
    assert!(!expand_section(10801, 0, &mut out));
    assert!(out.is_empty());
    assert!(expand_section(1202, 0, &mut out));
    assert!(!out.is_empty());
}
