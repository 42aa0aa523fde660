use nokozero::hook::{GAMEMODE_INGAME, GAMEMODE_MENU, HookState, frame_input};
use nokozero::input::{Action, InputFlags, SHOOT, SKIP};
use nokozero::ipc::Command;
use nokozero::menu::{MENU_CHARACTER, MENU_TITLE, MenuError, MenuView, navigate};
use nokozero::features::Scene;
use nokozero::practice::Verdict;
use nokozero::practice::chapter::{
    ChapterIntent, on_chapter_score, on_chapter_set, on_st7_chapter_bonus,
};
use nokozero::practice::hit::HitState;
use nokozero::practice::load::{Generation, PerLoad};
use nokozero::thread::{MainThread, ThreadOwner};

fn thread() -> MainThread {
    let mut owner = ThreadOwner::new();
    MainThread::claim(&mut owner, 1).expect("claim")
}

#[test]
fn chapter_skips_count_down_then_run() {
    let t = thread();
    let g = Generation::for_test(3);
    let mut scheduled: PerLoad<ChapterIntent> = PerLoad::new(ChapterIntent::none());
    ChapterIntent { skip_remaining: 2, set_chapter: Some(5), st7_bonus: true }.schedule(
        &mut scheduled,
        t,
        g,
    );
    assert_eq!(on_chapter_score(&mut scheduled, t, g), Verdict::Divert);
    assert_eq!(on_chapter_score(&mut scheduled, t, g), Verdict::Divert);
    assert_eq!(on_chapter_score(&mut scheduled, t, g), Verdict::Run);
    assert_eq!(on_chapter_set(&mut scheduled, t, g), Some(5));
    assert_eq!(on_chapter_set(&mut scheduled, t, g), None);
    assert!(on_st7_chapter_bonus(&mut scheduled, t, g));
    assert!(!on_st7_chapter_bonus(&mut scheduled, t, g));
    // Another load sees nothing scheduled.
    assert_eq!(on_chapter_score(&mut scheduled, t, Generation::for_test(4)), Verdict::Run);
}

#[test]
fn first_hit_owes_one_forced_step() {
    let t = thread();
    let g = Generation::for_test(1);
    let mut hits = HitState::new();
    assert_eq!(hits.on_player_die(t, g, false, false), Verdict::Run);
    assert_eq!(hits.count(t, g), 0);
    assert_eq!(hits.on_player_die(t, g, true, false), Verdict::Divert);
    assert_eq!(hits.on_player_die(t, g, true, true), Verdict::Run);
    assert_eq!(hits.count(t, g), 2);
    assert!(hits.take_forced_step(t, g));
    assert!(!hits.take_forced_step(t, g));
    assert_eq!(hits.count(t, Generation::for_test(2)), 0);
}

#[test]
fn menu_navigation_presses_towards_practice() {
    let mut tick = 0u32;
    let title = MenuView::classify(MENU_TITLE, 2, 0);
    assert_eq!(navigate(&mut tick, Some(title), Some(0)), Ok((Scene::Menu, InputFlags::from_bits(0x20))));
    assert_eq!(tick, 1);
    assert_eq!(navigate(&mut tick, Some(title), Some(0)), Ok((Scene::Menu, InputFlags::empty())));
    let mut tick = 0u32;
    let at_practice = MenuView::classify(MENU_TITLE, 2, 2);
    assert_eq!(navigate(&mut tick, Some(at_practice), Some(0)).unwrap().1.bits, SHOOT);
    let mut tick = 0u32;
    let chara = MenuView::classify(MENU_CHARACTER, 2, 1);
    assert_eq!(navigate(&mut tick, Some(chara), None), Err(MenuError::CharacterUnset));
    let mut tick = 0u32;
    assert_eq!(navigate(&mut tick, Some(chara), Some(3)).unwrap().1.bits, 0x80);
    let mut tick = 0u32;
    let unknown = MenuView::classify(42, 2, 0);
    assert!(!unknown.managed());
    assert_eq!(navigate(&mut tick, Some(unknown), None), Ok((Scene::Other, InputFlags::from_bits(0x2))));
    let mut tick = 0u32;
    assert_eq!(navigate(&mut tick, None, None), Ok((Scene::Other, InputFlags::empty())));
    let mut tick = 0u32;
    let busy = MenuView::classify(MENU_TITLE, 1, 0);
    assert_eq!(navigate(&mut tick, Some(busy), None), Ok((Scene::Menu, InputFlags::empty())));
}

#[test]
fn dialogue_taps_shoot_and_holds_skip() {
    let a = Action::from_wire(0x11).unwrap();
    let (input, over) = frame_input(true, GAMEMODE_INGAME, a, true, 3, false, InputFlags::empty());
    assert!(over);
    assert_eq!(input.bits, 0x10 | SHOOT | SKIP);
    let (input, _) = frame_input(true, GAMEMODE_INGAME, a, true, 4, false, InputFlags::empty());
    assert_eq!(input.bits, 0x10 | SKIP);
    let (input, over) = frame_input(true, GAMEMODE_INGAME, a, true, 4, true, InputFlags::empty());
    assert!(!over);
    assert_eq!(input.bits, 0x11);
    let menu = InputFlags::from_bits(0x20);
    assert_eq!(frame_input(true, GAMEMODE_MENU, a, false, 0, false, menu), (menu, false));
    assert_eq!(frame_input(false, GAMEMODE_INGAME, a, false, 0, false, menu), (InputFlags::empty(), false));
}

#[test]
fn exchanges_every_interval_and_after_a_tape() {
    let mut h = HookState::new();
    assert!(h.begin_frame(false));
    assert!(!h.begin_frame(false));
    assert!(h.begin_frame(true));
    assert!(h.begin_frame(false)); // frame 3
    let t = vec![Action::from_wire(1).unwrap(), Action::from_wire(2).unwrap()];
    assert!(h.apply_command(Command::Tape(t)).is_none());
    assert!(!h.begin_frame(false)); // frame 4
    assert_eq!(h.frame_action().bits(), 1);
    assert!(!h.begin_frame(true));
    assert_eq!(h.frame_action().bits(), 2);
    assert!(h.begin_frame(false)); // the tape ended
    assert_eq!(h.frame_action().bits(), 2);
    assert!(h.apply_command(Command::Act(Action::from_wire(8).unwrap())).is_none());
    assert_eq!(h.frame_action().bits(), 8);
    assert!(!h.take_overridden());
}

#[test]
fn taking_no_owed_step_leaves_another_load_alone() {
    let t = thread();
    let g = Generation::for_test(3);
    let mut hits = HitState::new();
    assert_eq!(hits.on_player_die(t, g, true, false), Verdict::Divert);
    // Nothing is owed for another load; asking for it must not clear `g`'s step.
    assert!(!hits.take_forced_step(t, Generation::for_test(4)));
    assert!(hits.take_forced_step(t, g));
}
