use nokozero::practice::{KNOWN_FLAGS, MAX_STEP_INTERVAL, PARAMS_LEN, PracticeParams};

/// Returns a valid params block with the given categorical selectors.
fn wire_bytes(section: u32, active: u32, phase: u32) -> [u8; PARAMS_LEN] {
    let mut b = [0u8; PARAMS_LEN];
    let mut put = |at: usize, bytes: [u8; 4]| b[at..at + 4].copy_from_slice(&bytes);
    put(0, section.to_le_bytes());
    put(4, active.to_le_bytes());
    put(24, 400i32.to_le_bytes()); // power
    put(28, 2i32.to_le_bytes()); // lives
    put(36, 3i32.to_le_bytes()); // bombs
    put(44, phase.to_le_bytes());
    put(48, 3i32.to_le_bytes()); // difficulty
    put(52, 0i32.to_le_bytes()); // character
    put(56, 0xBEEFu32.to_le_bytes()); // rng seed
    put(60, 3u32.to_le_bytes()); // step interval
    put(72, 0.0f32.to_le_bytes()); // player x
    put(76, 400.0f32.to_le_bytes()); // player y
    b
}

fn params(section: u32, active: u32, phase: u32) -> PracticeParams {
    PracticeParams::parse(&wire_bytes(section, active, phase)).expect("valid params")
}

#[test]
fn parse_accept_valid_params() {
    let params = params(1202, 1, 0);
    assert!(params.active);
    assert_eq!(params.section, 1202);
    assert_eq!(params.difficulty, 3);
    assert_eq!(params.character, 0);
}

#[test]
fn parse_length_exact() {
    let bytes = wire_bytes(1202, 1, 0);
    assert!(PracticeParams::parse(&bytes[..PARAMS_LEN - 1]).is_none());
    let mut long = bytes.to_vec();
    long.push(0);
    assert!(PracticeParams::parse(&long).is_none());
}

#[test]
fn parse_reject_out_of_range_selectors() {
    // Difficulty 5 does not exist.
    let mut bytes = wire_bytes(1202, 1, 0);
    bytes[48..52].copy_from_slice(&5i32.to_le_bytes());
    assert!(PracticeParams::parse(&bytes).is_none());
    // Stage 9 does not exist.
    assert!(PracticeParams::parse(&wire_bytes(9101, 1, 0)).is_none());
}

#[test]
fn parse_extra_stage_and_difficulty() {
    let mut bytes = wire_bytes(7201, 1, 0);

    assert!(PracticeParams::parse(&bytes).is_none());

    bytes[48..52].copy_from_slice(&4i32.to_le_bytes());
    assert!(PracticeParams::parse(&bytes).is_some());

    let mut bytes = wire_bytes(1202, 1, 0);
    bytes[48..52].copy_from_slice(&4i32.to_le_bytes());
    assert!(PracticeParams::parse(&bytes).is_none());

    let mut bytes = wire_bytes(0, 0, 0);
    bytes[48..52].copy_from_slice(&4i32.to_le_bytes());
    assert!(PracticeParams::parse(&bytes).is_some());
}

#[test]
fn parse_ignore_warp_fields_when_inactive() {
    let params = params(9101, 0, 0);
    assert!(!params.active);
    assert_eq!(params.difficulty, 3);
}

#[test]
fn parse_reject_wide_rng_seed() {
    let mut bytes = wire_bytes(1202, 1, 0);
    assert_eq!(PracticeParams::parse(&bytes).unwrap().rng_seed, 0xBEEF);
    bytes[56..60].copy_from_slice(&0x1_0000u32.to_le_bytes());
    assert!(PracticeParams::parse(&bytes).is_none());
    bytes[56..60].copy_from_slice(&0xFFFFu32.to_le_bytes());
    assert_eq!(PracticeParams::parse(&bytes).unwrap().rng_seed, 0xFFFF);
}

#[test]
fn parse_reject_non_finite_player_position() {
    let mut bytes = wire_bytes(1202, 1, 0);
    assert!(PracticeParams::parse(&bytes).is_some());
    bytes[72..76].copy_from_slice(&f32::NAN.to_le_bytes());
    assert!(PracticeParams::parse(&bytes).is_none());
}

#[test]
fn parse_reject_initial_action_outside_mask() {
    let mut bytes = wire_bytes(1202, 1, 0);
    bytes[68..72].copy_from_slice(&0x9u32.to_le_bytes());
    assert_eq!(PracticeParams::parse(&bytes).unwrap().initial_action(), 0x9);
    bytes[68..72].copy_from_slice(&0x100u32.to_le_bytes());
    assert!(PracticeParams::parse(&bytes).is_none());
}

#[test]
fn parse_reject_unknown_flags() {
    let mut bytes = wire_bytes(1202, 1, 0);
    bytes[64..68].copy_from_slice(&KNOWN_FLAGS.to_le_bytes());
    assert_eq!(PracticeParams::parse(&bytes).unwrap().flags, KNOWN_FLAGS);
    bytes[64..68].copy_from_slice(&(KNOWN_FLAGS | (1 << 31)).to_le_bytes());
    assert!(PracticeParams::parse(&bytes).is_none());
}

#[test]
fn parse_reject_step_interval_outside_bounds() {
    let mut bytes = wire_bytes(1202, 1, 0);
    assert_eq!(PracticeParams::parse(&bytes).unwrap().step_interval, 3);
    bytes[60..64].copy_from_slice(&0u32.to_le_bytes());
    assert!(PracticeParams::parse(&bytes).is_none());
    bytes[60..64].copy_from_slice(&(MAX_STEP_INTERVAL + 1).to_le_bytes());
    assert!(PracticeParams::parse(&bytes).is_none());
    bytes[60..64].copy_from_slice(&MAX_STEP_INTERVAL.to_le_bytes());
    assert_eq!(
        PracticeParams::parse(&bytes).unwrap().step_interval,
        MAX_STEP_INTERVAL
    );
}

#[test]
fn parse_clamp_resources() {
    let mut bytes = wire_bytes(1202, 1, 0);
    bytes[28..32].copy_from_slice(&99i32.to_le_bytes()); // lives
    let params = PracticeParams::parse(&bytes).unwrap();
    assert_eq!(params.lives, 8);
}

#[test]
fn parse_clamp_every_resource_and_fragments_by_difficulty() {
    let mut bytes = wire_bytes(1202, 1, 0);
    bytes[8..16].copy_from_slice(&i64::MAX.to_le_bytes()); // score
    bytes[16..20].copy_from_slice(&(-5i32).to_le_bytes()); // graze
    bytes[20..24].copy_from_slice(&2_000_000i32.to_le_bytes()); // value
    bytes[32..36].copy_from_slice(&9i32.to_le_bytes()); // life fragments
    bytes[40..44].copy_from_slice(&9i32.to_le_bytes()); // bomb fragments
    let p = PracticeParams::parse(&bytes).unwrap();
    assert_eq!(p.score, 9_999_999_990);
    assert_eq!(p.graze, 0);
    assert_eq!(p.value, 999_990);
    assert_eq!(p.life_fragments, 3);
    assert_eq!(p.bomb_fragments, 4);
    let w = p.resource_writes();
    assert_eq!(w.score_div10, 999_999_999);
    assert_eq!(w.value, 99_999_000);

    let mut extra = wire_bytes(0, 0, 0);
    extra[48..52].copy_from_slice(&4i32.to_le_bytes());
    extra[32..36].copy_from_slice(&9i32.to_le_bytes());
    assert_eq!(PracticeParams::parse(&extra).unwrap().life_fragments, 5);
}

#[test]
fn parse_reject_negative_character_and_unmapped_phase() {
    let mut bytes = wire_bytes(1202, 1, 0);
    bytes[52..56].copy_from_slice(&(-1i32).to_le_bytes());
    assert!(PracticeParams::parse(&bytes).is_none());
    assert!(PracticeParams::parse(&wire_bytes(1202, 1, 7)).is_none());
    let p = params(1202, 1, 0);
    assert!(p.has_flag(0) == false);
}
