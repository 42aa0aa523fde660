use nokozero::practice::ecl::EclFiles;
use nokozero::practice::load::{Generation, LoadHandoff};
use nokozero::practice::machine::{Outcome, ReloadPlan};
use nokozero::practice::{
    FLAG_REAL_DEATHS, PARAMS_LEN, Practice, PracticeParams, Verdict, WireMeta, accept_reset,
    apply_pending_reset, episode_flag, observe_loads, place_before_consume, mark_placed,
    record_start_position, stage_step_due, stash_record,
};
use nokozero::thread::{MainThread, ThreadOwner};

fn wire_bytes(section: u32, active: u32, flags: u32) -> [u8; PARAMS_LEN] {
    let mut b = [0u8; PARAMS_LEN];
    let mut put = |at: usize, bytes: [u8; 4]| b[at..at + 4].copy_from_slice(&bytes);
    put(0, section.to_le_bytes());
    put(4, active.to_le_bytes());
    put(24, 400i32.to_le_bytes());
    put(48, 3i32.to_le_bytes());
    put(56, 7u32.to_le_bytes());
    put(60, 2u32.to_le_bytes());
    put(64, flags.to_le_bytes());
    b
}

fn params(section: u32, active: u32, flags: u32) -> PracticeParams {
    PracticeParams::parse(&wire_bytes(section, active, flags)).expect("valid params")
}

fn thread() -> MainThread {
    let mut owner = ThreadOwner::new();
    MainThread::claim(&mut owner, 1).expect("claim")
}

#[test]
fn warp_without_ecl_fails_and_lets_the_tick_run() {
    let t = thread();
    let mut p = Practice::new();
    let mut handoff = LoadHandoff::new();
    let mut files = EclFiles { bases: vec![], data: vec![] };
    assert!(accept_reset(&mut p, 1, params(1202, 1, 0)));
    let plan = apply_pending_reset(&mut p, &mut handoff, true, false, 1, 0);
    assert_eq!(plan, Some(ReloadPlan { stage_select: Some(1), difficulty: 3, arms_load: true }));
    handoff.enter();
    handoff.publish();
    assert!(place_before_consume(&p, &handoff).is_some());
    mark_placed(&mut p);
    assert!(place_before_consume(&p, &handoff).is_none());
    let status = handoff.status();
    let (plan, record) = p.guard_tick(t, status, true, 1, &mut files, true).expect("no patch ran");
    assert_eq!(plan.verdict, Verdict::Run);
    assert!(plan.landed.is_none());
    assert!(record.is_none());
    let wire = WireMeta::read(&p, t);
    assert_eq!(wire.reset_outcome, Outcome::FailedNoEcl);
    assert_eq!(wire.load_generation, Generation::for_test(1));
    assert_eq!(wire.applied_section, 0);
}

#[test]
fn warp_to_another_stage_is_refused() {
    let t = thread();
    let mut p = Practice::new();
    let mut handoff = LoadHandoff::new();
    let mut files = EclFiles { bases: vec![0x1000], data: vec![vec![0; 16]] };
    assert!(accept_reset(&mut p, 3, params(1202, 1, 0)));
    assert!(apply_pending_reset(&mut p, &mut handoff, true, false, 1, 0).is_some());
    handoff.enter();
    handoff.publish();
    let status = handoff.status();
    let (plan, _) = p.guard_tick(t, status, true, 2, &mut files, true).unwrap();
    assert_eq!(plan.verdict, Verdict::Run);
    assert_eq!(WireMeta::read(&p, t).reset_outcome, Outcome::FailedStageMismatch);
    assert_eq!(files.data[0], vec![0; 16]);
}

#[test]
fn vanilla_reset_lands_and_counts_steps() {
    let t = thread();
    let mut p = Practice::new();
    let mut handoff = LoadHandoff::new();
    let mut files = EclFiles { bases: vec![], data: vec![] };
    assert!(accept_reset(&mut p, 2, params(0, 0, FLAG_REAL_DEATHS)));
    stash_record(&mut p, Some(vec![1, 2, 3]));
    assert_eq!(
        apply_pending_reset(&mut p, &mut handoff, true, false, 1, 0),
        Some(ReloadPlan { stage_select: None, difficulty: 3, arms_load: false })
    );
    // The tick is held while the load is in flight.
    handoff.enter();
    let (plan, _) = p.guard_tick(t, handoff.status(), true, 1, &mut files, true).unwrap();
    assert_eq!(plan.verdict, Verdict::Divert);
    handoff.publish();
    observe_loads(&mut p, &handoff);
    // Without the GUI the consume waits.
    let (plan, _) = p.guard_tick(t, handoff.status(), false, 1, &mut files, true).unwrap();
    assert_eq!(plan.verdict, Verdict::Divert);
    assert!(plan.landed.is_none());
    let (plan, record) = p.guard_tick(t, handoff.status(), true, 1, &mut files, true).unwrap();
    assert_eq!(plan.verdict, Verdict::Divert);
    assert_eq!(plan.landed.map(|l| l.rng_seed), Some(7));
    assert_eq!(record, Some(vec![1, 2, 3]));
    let g = Generation::for_test(1);
    assert_eq!(WireMeta::read(&p, t).reset_outcome, Outcome::Vanilla);
    assert!(episode_flag(&p, t, g, FLAG_REAL_DEATHS));
    // Two frames per step.
    assert_eq!(stage_step_due(&mut p, t, true, g), Some(true));
    assert_eq!(stage_step_due(&mut p, t, true, g), Some(false));
    assert_eq!(stage_step_due(&mut p, t, true, g), Some(true));
    assert_eq!(stage_step_due(&mut p, t, false, g), None);
    assert_eq!(stage_step_due(&mut p, t, true, Generation::for_test(5)), None);
    // The next tick runs.
    let (plan, _) = p.guard_tick(t, handoff.status(), true, 1, &mut files, true).unwrap();
    assert_eq!(plan.verdict, Verdict::Run);
}

#[test]
fn record_position_words() {
    let mut record = vec![0u8; 0x2dc];
    record[0xc..0x10].copy_from_slice(&(-128i32).to_le_bytes());
    record[0x10..0x14].copy_from_slice(&51200i32.to_le_bytes());
    assert_eq!(record_start_position(&record), (-128, 51200));
}
