use nokozero::features::{
    FLAG_INPUT_OVERRIDDEN, META_WORDS, Meta, Resources, SECTION_WIDTHS, Scene, Section,
    StateCells, build,
};
use nokozero::practice::WireMeta;
use nokozero::practice::load::Generation;
use nokozero::practice::machine::Outcome;

fn resources() -> Resources {
    Resources {
        game_tick: 1234,
        score_div10: 567,
        graze: 89,
        value_x100: 500_000,
        power: 350,
        lives: 5,
        life_fragments: 1,
        bombs: 3,
        bomb_fragments: 2,
        rng_state: 0xBEEF,
        rng_count: 44,
        chapter: 3,
        time_in_chapter: 77,
        spell_id: -1,
        miss_count: 2,
        spell_timer: -5,
        spell_flags: 0x8000_0001,
        mode_flags: 0x18,
    }
}

fn payload_len(counts: [usize; 6]) -> usize {
    4 * (META_WORDS
        + counts
            .iter()
            .zip(SECTION_WIDTHS)
            .map(|(count, width)| 1 + count * width)
            .sum::<usize>())
}

fn wire_for_test() -> WireMeta {
    WireMeta {
        load_generation: Generation::for_test(0),
        reset_seq: 0,
        reset_outcome: Outcome::Idle,
        applied_section: 0,
        hits: 0,
    }
}

fn f32_at(buf: &[u8], word: usize) -> f32 {
    f32::from_le_bytes(buf[(word * 4)..(word * 4 + 4)].try_into().unwrap())
}

fn u32_at(buf: &[u8], word: usize) -> u32 {
    u32::from_le_bytes(buf[(word * 4)..(word * 4 + 4)].try_into().unwrap())
}

fn i32_at(buf: &[u8], word: usize) -> i32 {
    i32::from_le_bytes(buf[(word * 4)..(word * 4 + 4)].try_into().unwrap())
}

/// The bit patterns of rows of float cells.
fn section(rows: &[&[f32]]) -> Section {
    Section {
        rows: rows.len(),
        cells: rows.iter().flat_map(|r| r.iter().map(|c| c.to_bits())).collect(),
    }
}

/// A flag word split into its low and high 16 bits, each as a float.
fn split_flags(flags: u32) -> [f32; 2] {
    [f32::from(flags as u16), f32::from((flags >> 16) as u16)]
}

#[test]
#[allow(clippy::float_cmp)]
fn outside_stage_layout() {
    let mut buf = Vec::new();
    build(
        &mut buf,
        None,
        &Meta {
            step: 42,
            scene: Scene::Menu,
            wire: WireMeta {
                load_generation: Generation::for_test(9),
                reset_seq: 7,
                reset_outcome: Outcome::Pending,
                applied_section: 1201,
                hits: 3,
            },
            overrode_input: true,
        },
        &resources(),
    );
    assert_eq!(buf.len(), payload_len([0; 6]));
    assert_eq!(u32_at(&buf, 0), 42); // step
    assert_eq!(u32_at(&buf, 1), Scene::Menu.to_wire()); // scene
    assert_eq!(u32_at(&buf, 2), 0); // in_stage
    assert_eq!(u32_at(&buf, 3), 9); // load_generation
    assert_eq!(u32_at(&buf, 4), 7); // reset_seq
    assert_eq!(u32_at(&buf, 5), 1); // reset_outcome
    assert_eq!(u32_at(&buf, 6), 1201); // applied_section
    assert_eq!(u32_at(&buf, 7), 3); // hits
    assert_eq!(u32_at(&buf, 8), FLAG_INPUT_OVERRIDDEN); // frame flags
    assert_eq!(u32_at(&buf, 9), 1234); // game_tick
    assert_eq!(u32_at(&buf, 10), 567); // score_div10
    assert_eq!(i32_at(&buf, 11), 89); // graze
    assert_eq!(i32_at(&buf, 12), 500_000); // value_x100
    assert_eq!(i32_at(&buf, 17), 2); // bomb_fragments
    assert_eq!(u32_at(&buf, 18), 0xBEEF); // rng_state
    assert_eq!(u32_at(&buf, 19), 44); // rng_count
    assert_eq!(u32_at(&buf, 20), 3); // chapter
    assert_eq!(u32_at(&buf, 21), 77); // time_in_chapter
    assert_eq!(i32_at(&buf, 22), -1); // spell_id
    assert_eq!(i32_at(&buf, 23), 2); // miss_count
    assert_eq!(i32_at(&buf, 24), -5); // spell_timer
    assert_eq!(u32_at(&buf, 25), 0x8000_0001); // spell_flags
    assert_eq!(u32_at(&buf, 26), 0x18); // mode_flags
    // player block
    for word in 27..32 {
        assert_eq!(f32_at(&buf, word), 0.);
    }
    for section in 0..6 {
        assert_eq!(u32_at(&buf, META_WORDS + section), 0);
    }
}

#[test]
#[allow(clippy::float_cmp, clippy::too_many_lines)]
fn inside_stage_layout() {
    let [b_lo, b_hi] = split_flags(0x0001_0012);
    let [e_lo, e_hi] = split_flags(0x0400_0002);
    let state = StateCells {
        player: [
            (-100.5f32).to_bits(),
            200.25f32.to_bits(),
            1.0f32.to_bits(),
            2.0f32.to_bits(),
            3.0f32.to_bits(),
        ],
        sections: vec![
            section(&[&[1., 2., 3., 4., 5., 6., 7., b_lo, b_hi]]),
            section(&[&[
                10., 11., 12., 13., 14., 15., 16., 17., 0.5, 60000., 1., 1., 42., 0., 9., e_lo,
                e_hi,
            ]]),
            section(&[&[20., 21., 22., 23., 8.]]),
            section(&[&[30., 31., 32., 33., 34., 35.]]),
            section(&[]),
            section(&[&[40., 41., 42., 43., 48.], &[44., 45., 46., 47., 48.]]),
        ],
    };

    let mut buf = Vec::new();
    build(
        &mut buf,
        Some(&state),
        &Meta {
            step: 6,
            scene: Scene::InGame,
            wire: WireMeta {
                load_generation: Generation::for_test(2),
                hits: 1,
                ..wire_for_test()
            },
            overrode_input: false,
        },
        &resources(),
    );
    assert_eq!(buf.len(), payload_len([1, 1, 1, 1, 0, 2]));
    assert_eq!(u32_at(&buf, 2), 1); // in_stage
    assert_eq!(u32_at(&buf, 3), 2); // load_generation
    assert_eq!(u32_at(&buf, 7), 1); // hits
    assert_eq!(u32_at(&buf, 8), 0); // frame flags
    assert_eq!(u32_at(&buf, 18), 0xBEEF); // rng_state
    // player block
    assert_eq!(f32_at(&buf, 27), -100.5);
    assert_eq!(f32_at(&buf, 28), 200.25);
    assert_eq!(f32_at(&buf, 29), 1.);
    assert_eq!(f32_at(&buf, 30), 2.);
    assert_eq!(f32_at(&buf, 31), 3.);
    // bullets
    let mut word = META_WORDS;
    assert_eq!(u32_at(&buf, word), 1);
    assert_eq!(f32_at(&buf, word + 1), 1.);
    assert_eq!(f32_at(&buf, word + 5), 5.);
    assert_eq!(f32_at(&buf, word + 6), 6.);
    assert_eq!(f32_at(&buf, word + 7), 7.);
    assert_eq!(f32_at(&buf, word + 8), 18.); // flags low half: 0x0012
    assert_eq!(f32_at(&buf, word + 9), 1.); // flags high half: 0x0001
    // enemies
    word += 1 + 9;
    assert_eq!(u32_at(&buf, word), 1);
    assert_eq!(f32_at(&buf, word + 5), 14.);
    assert_eq!(f32_at(&buf, word + 6), 15.);
    assert_eq!(f32_at(&buf, word + 7), 16.);
    assert_eq!(f32_at(&buf, word + 8), 17.);
    assert_eq!(f32_at(&buf, word + 9), 0.5);
    assert_eq!(f32_at(&buf, word + 10), 60000.);
    assert_eq!(f32_at(&buf, word + 11), 1.);
    assert_eq!(f32_at(&buf, word + 12), 1.);
    assert_eq!(f32_at(&buf, word + 13), 42.);
    assert_eq!(f32_at(&buf, word + 14), 0.); // is_lethal
    assert_eq!(f32_at(&buf, word + 15), 9.); // no_hitbox_frames
    assert_eq!(f32_at(&buf, word + 16), 2.); // flags low half
    assert_eq!(f32_at(&buf, word + 17), 1024.); // flags high half: 0x0400
    // items
    word += 1 + 17;
    assert_eq!(u32_at(&buf, word), 1);
    assert_eq!(f32_at(&buf, word + 5), 8.);
    // segment lasers
    word += 1 + 5;
    assert_eq!(u32_at(&buf, word), 1);
    assert_eq!(f32_at(&buf, word + 6), 35.);
    // ray lasers
    word += 1 + 6;
    assert_eq!(u32_at(&buf, word), 0);
    // curve laser points
    word += 1;
    assert_eq!(u32_at(&buf, word), 2);
    assert_eq!(f32_at(&buf, word + 1), 40.);
    assert_eq!(f32_at(&buf, word + 5), 48.);
    assert_eq!(f32_at(&buf, word + 6), 44.);
    assert_eq!(f32_at(&buf, word + 10), 48.);
}

#[test]
fn put_words_little_endian() {
    let mut buf = vec![9u8];
    nokozero::features::put_u32(&mut buf, 0x0102_0304);
    nokozero::features::put_i32(&mut buf, -2);
    nokozero::features::put_count(&mut buf, 3);
    assert_eq!(
        buf,
        vec![9, 4, 3, 2, 1, 0xfe, 0xff, 0xff, 0xff, 3, 0, 0, 0]
    );
    assert_eq!(Scene::Other.to_wire(), 0);
    assert_eq!(Scene::InGame.to_wire(), 2);
}
