use nokozero::practice::load::{Generation, LoadHandoff, LoadStatus, PerLoad};
use nokozero::thread::{MainThread, ThreadOwner};

fn settled(handoff: &LoadHandoff) -> (Generation, bool) {
    match handoff.status() {
        LoadStatus::InFlight => panic!("expected a settled status"),
        LoadStatus::Settled { generation, armed } => (generation, armed),
    }
}

#[test]
fn parity_track_load_window() {
    let mut handoff = LoadHandoff::new();
    assert_eq!(settled(&handoff), (Generation::for_test(0), false));
    handoff.enter();
    assert!(matches!(handoff.status(), LoadStatus::InFlight));
    handoff.publish();
    assert_eq!(settled(&handoff), (Generation::for_test(1), false));
}

#[test]
fn arm_taken_by_next_entry() {
    let mut handoff = LoadHandoff::new();
    handoff.arm();
    handoff.enter();
    handoff.publish();
    assert_eq!(settled(&handoff), (Generation::for_test(1), true));
    // The arm was consumed, so the following load is unarmed.
    handoff.enter();
    handoff.publish();
    assert_eq!(settled(&handoff), (Generation::for_test(2), false));
}

#[test]
fn load_enter_before_arm() {
    let mut handoff = LoadHandoff::new();
    handoff.enter();
    handoff.arm();
    handoff.publish();
    assert_eq!(settled(&handoff), (Generation::for_test(1), false));
    // The arm waits for the next load.
    handoff.enter();
    handoff.publish();
    assert_eq!(settled(&handoff), (Generation::for_test(2), true));
}

#[test]
fn per_load_values_scoped_to_generation() {
    let mut value: PerLoad<u32> = PerLoad::new(42);
    let mut owner = ThreadOwner::new();
    let thread = MainThread::claim(&mut owner, 1).expect("first claim");
    let (g0, g1, g2, g3) = (
        Generation::for_test(0),
        Generation::for_test(1),
        Generation::for_test(2),
        Generation::for_test(3),
    );

    // Before any write has occurred, no generation matches, so the fresh value is read.
    assert_eq!(value.get(thread, g0), 42);

    value.set(thread, g1, 7);
    assert_eq!(value.get(thread, g1), 7);
    assert_eq!(value.get(thread, g2), 42);
    assert_eq!(value.get(thread, g1), 7);

    let x = value.update(thread, g1, |v| Some((v * 2, v * 2)));
    assert_eq!(x, Some(14));
    assert_eq!(value.get(thread, g1), 14);

    let x = value.update(thread, g1, |_v| None::<(u32, ())>);
    assert_eq!(x, None);
    assert_eq!(value.get(thread, g1), 14);

    let x = value.update(thread, g3, |v| Some((v + 5, v + 5)));
    assert_eq!(x, Some(47));
    assert_eq!(value.get(thread, g3), 47);
    assert_eq!(value.get(thread, g1), 42);
}

#[test]
fn load_counter_wraps_into_generation_zero() {
    let mut handoff = LoadHandoff::new();
    // Every load takes two counter steps; after 2^31 loads the generation wraps to 0.
    handoff.enter();
    handoff.publish();
    assert_eq!(nokozero::practice::load::load_generation(&handoff), Generation::for_test(1));
    assert_eq!(Generation::for_test(5).to_wire(), 5);
    assert_eq!(Generation::pre_load(), Generation::for_test(0));
}

#[test]
fn generation_counts_publishes_over_many_loads() {
    let mut handoff = LoadHandoff::new();
    handoff.arm();
    handoff.enter();
    handoff.arm();
    handoff.publish();
    // The first load took the first arm; the second arm waits for the next entry.
    assert_eq!(settled(&handoff), (Generation::for_test(1), true));
    handoff.enter();
    assert!(matches!(handoff.status(), LoadStatus::InFlight));
    assert_eq!(nokozero::practice::load::load_generation(&handoff), Generation::for_test(1));
    handoff.publish();
    assert_eq!(settled(&handoff), (Generation::for_test(2), true));
    for _ in 0..5 {
        handoff.enter();
        handoff.publish();
    }
    assert_eq!(settled(&handoff), (Generation::for_test(7), false));
    assert_eq!(nokozero::practice::load::load_generation(&handoff), Generation::for_test(7));
}
