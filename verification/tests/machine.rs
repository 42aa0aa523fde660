use nokozero::practice::data::{EXTRA_DIFFICULTY, EXTRA_STAGE};
use nokozero::practice::ecl::EclUndo;
use nokozero::practice::load::{Generation, LoadStatus};
use nokozero::practice::machine::{Lifecycle, LiveWarp, Outcome, ReloadPlan, TickDecision};
use nokozero::practice::{PARAMS_LEN, PracticeParams};

const LIVE_STAGE: u32 = 1;
const LIVE_CHARACTER: u32 = 0;

fn wire_bytes(section: u32, active: u32, phase: u32) -> [u8; PARAMS_LEN] {
    let mut b = [0u8; PARAMS_LEN];
    let mut put = |at: usize, bytes: [u8; 4]| b[at..at + 4].copy_from_slice(&bytes);
    put(0, section.to_le_bytes());
    put(4, active.to_le_bytes());
    put(24, 400i32.to_le_bytes());
    put(28, 2i32.to_le_bytes());
    put(36, 3i32.to_le_bytes());
    put(44, phase.to_le_bytes());
    put(48, 3i32.to_le_bytes());
    put(52, 0i32.to_le_bytes());
    put(56, 0xBEEFu32.to_le_bytes());
    put(60, 3u32.to_le_bytes());
    put(72, 0.0f32.to_le_bytes());
    put(76, 400.0f32.to_le_bytes());
    b
}

fn params(section: u32, active: u32, phase: u32) -> PracticeParams {
    PracticeParams::parse(&wire_bytes(section, active, phase)).expect("valid params")
}

fn params_at(section: u32, active: u32, phase: u32, difficulty: i32) -> PracticeParams {
    let mut bytes = wire_bytes(section, active, phase);
    bytes[48..52].copy_from_slice(&difficulty.to_le_bytes());
    PracticeParams::parse(&bytes).expect("valid params")
}

fn settled(generation: u32) -> LoadStatus {
    LoadStatus::Settled {
        generation: Generation::for_test(generation),
        armed: false,
    }
}

fn settled_armed(generation: u32) -> LoadStatus {
    LoadStatus::Settled {
        generation: Generation::for_test(generation),
        armed: true,
    }
}

#[test]
fn wire_reset_phases() {
    let mut lc = Lifecycle::init();
    assert_eq!(lc.wire(), (Generation::for_test(0), 0, Outcome::Idle, 0));
    assert!(lc.accept(5, params(1202, 1, 0)));
    assert_eq!(lc.wire(), (Generation::for_test(0), 5, Outcome::Pending, 0));
    assert!(
        lc.try_start_reload(true, settled(0), false, LIVE_STAGE, LIVE_CHARACTER)
            .is_some()
    );
    assert_eq!(lc.wire(), (Generation::for_test(0), 5, Outcome::Pending, 0));
    lc.finish_reload(Generation::for_test(1), Outcome::Applied, 1202);
    assert_eq!(
        lc.wire(),
        (Generation::for_test(1), 5, Outcome::Applied, 1202)
    );
}

#[test]
fn refuse_reset_command_while_pending() {
    let mut lc = Lifecycle::init();
    assert!(lc.accept(1, params(1202, 1, 0)));
    assert!(!lc.accept(2, params(1202, 1, 0)));
    assert!(
        lc.try_start_reload(true, settled(0), false, LIVE_STAGE, LIVE_CHARACTER)
            .is_some()
    );
    assert!(!lc.accept(3, params(1202, 1, 0)));
    lc.finish_reload(Generation::for_test(1), Outcome::Applied, 1202);
    assert!(lc.accept(4, params(1202, 1, 0)));
}

#[test]
fn try_start_reload_environment_gate() {
    let mut lc = Lifecycle::init();
    assert!(lc.accept(1, params(1202, 1, 0)));
    assert!(
        lc.try_start_reload(false, settled(0), false, LIVE_STAGE, LIVE_CHARACTER)
            .is_none()
    );
    assert!(
        lc.try_start_reload(true, LoadStatus::InFlight, false, LIVE_STAGE, LIVE_CHARACTER)
            .is_none()
    );
    assert!(
        lc.try_start_reload(true, settled(0), true, LIVE_STAGE, LIVE_CHARACTER)
            .is_none()
    );
    assert!(
        lc.try_start_reload(true, settled(1), false, LIVE_STAGE, LIVE_CHARACTER)
            .is_none()
    );
    let plan = lc
        .try_start_reload(true, settled(0), false, LIVE_STAGE, LIVE_CHARACTER)
        .expect("reload starts");
    assert_eq!(
        plan,
        ReloadPlan {
            stage_select: Some(1),
            difficulty: 3,
            arms_load: true,
        }
    );
}

#[test]
fn vanilla_reload_spec() {
    let mut lc = Lifecycle::init();
    assert!(lc.accept(1, params(0, 0, 0)));
    let plan = lc
        .try_start_reload(true, settled(0), false, LIVE_STAGE, LIVE_CHARACTER)
        .expect("reload starts");
    assert_eq!(
        plan,
        ReloadPlan {
            stage_select: None,
            difficulty: 3,
            arms_load: false,
        }
    );
    let TickDecision::Consume { params, .. } = lc.tick_decision(settled(1)) else {
        panic!("publish is for the reload");
    };
    assert!(!params.active);
}

#[test]
fn observe_consume_unrequested_publishes() {
    let mut lc = Lifecycle::init();
    lc.observe(settled(1));
    assert_eq!(lc.wire(), (Generation::for_test(1), 0, Outcome::Idle, 0));
    assert!(matches!(lc.tick_decision(settled(1)), TickDecision::Run));
}

#[test]
fn observe_leave_reload_publish() {
    let mut lc = Lifecycle::init();
    assert!(lc.accept(1, params(1202, 1, 0)));
    assert!(
        lc.try_start_reload(true, settled(0), false, LIVE_STAGE, LIVE_CHARACTER)
            .is_some()
    );
    lc.observe(settled_armed(1));
    assert_eq!(lc.wire(), (Generation::for_test(0), 1, Outcome::Pending, 0));
    assert!(matches!(
        lc.tick_decision(settled_armed(1)),
        TickDecision::Consume { .. }
    ));
    lc.finish_reload(Generation::for_test(1), Outcome::Applied, 1202);
    assert_eq!(
        lc.wire(),
        (Generation::for_test(1), 1, Outcome::Applied, 1202)
    );
    assert!(matches!(
        lc.tick_decision(settled_armed(1)),
        TickDecision::Run
    ));
}

#[test]
fn lifecycle_undo_record() {
    let mut lc = Lifecycle::init();
    lc.last_warp = Some(LiveWarp {
        stage: 1,
        undo: EclUndo::new(),
    });

    lc.observe(settled(1));
    assert!(lc.last_warp.is_some());

    assert!(lc.accept(1, params(1202, 1, 0)));
    assert!(
        lc.try_start_reload(true, settled(1), false, LIVE_STAGE, LIVE_CHARACTER)
            .is_some()
    );
    lc.observe(settled(2));
    assert!(lc.last_warp.is_some());

    lc.finish_reload(Generation::for_test(2), Outcome::Applied, 1202);
    assert!(lc.last_warp.is_some());
}

#[test]
fn tick_decision_hold_until_publish() {
    let mut lc = Lifecycle::init();
    assert!(lc.accept(1, params(1202, 1, 0)));
    assert!(
        lc.try_start_reload(true, settled(0), false, LIVE_STAGE, LIVE_CHARACTER)
            .is_some()
    );
    assert!(matches!(
        lc.tick_decision(LoadStatus::InFlight),
        TickDecision::Hold
    ));
    assert!(matches!(lc.tick_decision(settled(0)), TickDecision::Hold));
    let TickDecision::Consume { params, generation } = lc.tick_decision(settled_armed(1))
    else {
        panic!("the reload's publish is consumed");
    };
    assert!(params.active);
    assert_eq!(generation, Generation::for_test(1));
}

#[test]
fn inactive_reset_refuse_incompatible_difficulty() {
    let mut lc = Lifecycle::init();
    assert!(lc.accept(1, params(0, 0, 0)));
    assert!(
        lc.try_start_reload(true, settled(0), false, EXTRA_STAGE, LIVE_CHARACTER)
            .is_none()
    );
    assert_eq!(
        lc.wire(),
        (
            Generation::for_test(0),
            1,
            Outcome::FailedDifficultyMismatch,
            0
        )
    );
    assert!(matches!(lc.tick_decision(settled(0)), TickDecision::Run));
    assert!(lc.accept(2, params_at(0, 0, 0, EXTRA_DIFFICULTY as i32)));
    assert!(
        lc.try_start_reload(true, settled(0), false, EXTRA_STAGE, LIVE_CHARACTER)
            .is_some()
    );

    let mut lc = Lifecycle::init();
    assert!(lc.accept(1, params_at(0, 0, 0, EXTRA_DIFFICULTY as i32)));
    assert!(
        lc.try_start_reload(true, settled(0), false, LIVE_STAGE, LIVE_CHARACTER)
            .is_none()
    );
    assert_eq!(lc.wire().2, Outcome::FailedDifficultyMismatch);
}

#[test]
fn refuse_reload_for_invalid_character() {
    let mut lc = Lifecycle::init();
    assert!(lc.accept(9, params(1202, 1, 0)));
    assert!(
        lc.try_start_reload(true, settled(0), false, LIVE_STAGE, LIVE_CHARACTER + 1)
            .is_none()
    );

    let mut early = Lifecycle::init();
    assert!(early.accept(9, params(1202, 1, 0)));
    assert!(
        early
            .try_start_reload(false, settled(0), false, LIVE_STAGE, LIVE_CHARACTER + 1)
            .is_none()
    );
    assert_eq!(
        early.wire(),
        (Generation::for_test(0), 9, Outcome::Pending, 0)
    );
    assert_eq!(
        lc.wire(),
        (
            Generation::for_test(0),
            9,
            Outcome::FailedCharacterMismatch,
            0
        )
    );
}

#[test]
fn outcome_wire_codes() {
    let all = [
        Outcome::Idle,
        Outcome::Pending,
        Outcome::Applied,
        Outcome::Vanilla,
        Outcome::FailedStageMismatch,
        Outcome::FailedNoEcl,
        Outcome::FailedDifficultyMismatch,
        Outcome::FailedCharacterMismatch,
    ];
    for (code, outcome) in all.iter().enumerate() {
        assert_eq!(outcome.to_wire(), code as u32);
    }
}

#[test]
fn placement_once_per_consume() {
    let mut lc = Lifecycle::init();
    assert!(lc.accept(1, params(1202, 1, 0)));
    assert!(lc.try_start_reload(true, settled(0), false, LIVE_STAGE, LIVE_CHARACTER).is_some());
    assert!(lc.pending_consume(LoadStatus::InFlight).is_none());
    assert!(lc.pending_consume(settled_armed(1)).is_some());
    lc.mark_placed();
    assert!(lc.pending_consume(settled_armed(1)).is_none());
    lc.defer_consume();
    assert!(lc.pending_consume(settled_armed(1)).is_some());
}
