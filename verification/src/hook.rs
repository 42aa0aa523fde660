//! The input hook's per-frame decisions: when to exchange with the driver, which action the game
//! sees, and how boss dialogue is skipped.

use crate::input::{Action, InputFlags, SHOOT, SKIP, action_bits_ok};
use crate::ipc::Command;
use crate::menu::TAP_INTERVAL;
use crate::practice::{PracticeParams, READ_INTERVAL};
use vstd::prelude::*;

verus! {

/// Scene IDs of the game's top-level scene.
pub const GAMEMODE_MENU: u32 = 4;
pub const GAMEMODE_INGAME: u32 = 7;
pub const GAMEMODE_RETRY: u32 = 10;

/// What the input hook remembers between frames.
pub struct HookState {
    /// Frames seen while connected.
    pub frame_count: u32,
    /// The last controller action, repeated on the frames between exchanges.
    pub last_action: Action,
    /// Set when an in-game frame delivered an action other than the controller's.
    pub input_overridden: bool,
    /// The actions of the current tape, one per frame.
    pub tape: Vec<Action>,
    /// The next tape frame.
    pub tape_next: usize,
    /// Set when the tape's last frame was played; the next frame exchanges.
    pub tape_done: bool,
}

/// A reset to hand to the practice lifecycle.
pub struct ResetRequest {
    pub seq: u32,
    pub params: PracticeParams,
    pub record: Option<Vec<u8>>,
}

impl HookState {
    pub open spec fn wf(&self) -> bool {
        self.tape_next <= self.tape@.len()
    }

    /// Whether a tape still has frames to play.
    pub open spec fn tape_pending(&self) -> bool {
        self.tape_next < self.tape@.len()
    }

    /// The state before the first frame.
    pub fn new() -> (r: Self)
        ensures
            r.wf(),
            r.frame_count == 0,
            r.last_action.spec_bits() == 0,
            !r.input_overridden,
            !r.tape_pending(),
            !r.tape_done,
    {
        HookState {
            frame_count: 0,
            last_action: Action::neutral(),
            input_overridden: false,
            tape: Vec::new(),
            tape_next: 0,
            tape_done: false,
        }
    }

    /// Counts a connected frame and returns whether this frame exchanges with the driver: every
    /// [`READ_INTERVAL`]th frame, on a forced step, or right after a tape's last frame, but never
    /// while a tape is playing.
    pub fn begin_frame(&mut self, forced: bool) -> (due: bool)
        requires
            old(self).wf(),
        ensures
            final(self).wf(),
            final(self).frame_count == vstd::wrapping::u32_specs::wrapping_add(
                old(self).frame_count,
                1,
            ),
            due == (!old(self).tape_pending() && (old(self).frame_count % READ_INTERVAL == 0
                || forced || old(self).tape_done)),
            final(self).tape_done == (old(self).tape_done && !due),
            final(self).last_action == old(self).last_action,
            final(self).tape@ == old(self).tape@,
            final(self).tape_next == old(self).tape_next,
            final(self).input_overridden == old(self).input_overridden,
    {
        let frame = self.frame_count;
        self.frame_count = frame.wrapping_add(1);
        let pending = self.tape_next < self.tape.len();
        let due = !pending && (frame % READ_INTERVAL == 0 || forced || self.tape_done);
        if due {
            self.tape_done = false;
        }
        due
    }

    /// Takes the flag that an action was overridden since the last exchange.
    pub fn take_overridden(&mut self) -> (r: bool)
        ensures
            r == old(self).input_overridden,
            !final(self).input_overridden,
            final(self).frame_count == old(self).frame_count,
            final(self).last_action == old(self).last_action,
            final(self).tape@ == old(self).tape@,
            final(self).tape_next == old(self).tape_next,
            final(self).tape_done == old(self).tape_done,
    {
        let r = self.input_overridden;
        self.input_overridden = false;
        r
    }

    /// Applies a step-ending command: an ACT becomes the held action, a TAPE starts playing, and
    /// a RESET releases every button and is handed back for the lifecycle to accept.
    pub fn apply_command(&mut self, cmd: Command) -> (r: Option<ResetRequest>)
        requires
            old(self).wf(),
        ensures
            final(self).wf(),
            final(self).frame_count == old(self).frame_count,
            final(self).input_overridden == old(self).input_overridden,
            match cmd {
                Command::Act(a) => r is None && final(self).last_action == a
                    && final(self).tape@ == old(self).tape@ && final(self).tape_next == old(
                    self,
                ).tape_next,
                Command::Reset { seq, params, record } => r matches Some(q) && q.seq == seq
                    && q.params == params && q.record == record
                    && final(self).last_action.spec_bits() == 0,
                Command::Tape(t) => r is None && final(self).tape@ == t@ && final(self).tape_next
                    == 0 && !final(self).tape_done && final(self).last_action == old(
                    self,
                ).last_action,
            },
    {
        match cmd {
            Command::Act(a) => {
                self.last_action = a;
                None
            },
            Command::Reset { seq, params, record } => {
                self.last_action = Action::neutral();
                Some(ResetRequest { seq, params, record })
            },
            Command::Tape(t) => {
                self.tape = t;
                self.tape_next = 0;
                self.tape_done = false;
                None
            },
        }
    }

    /// The controller's action for this in-game frame: the next tape frame while a tape plays
    /// (which becomes the held action), else the held action.
    pub fn frame_action(&mut self) -> (a: Action)
        requires
            old(self).wf(),
        ensures
            final(self).wf(),
            old(self).tape_pending() ==> {
                &&& a == old(self).tape@[old(self).tape_next as int]
                &&& final(self).tape_next == old(self).tape_next + 1
                &&& final(self).last_action == a
                &&& final(self).tape_done == !final(self).tape_pending()
            },
            !old(self).tape_pending() ==> a == old(self).last_action && final(self).tape_next
                == old(self).tape_next && final(self).tape_done == old(self).tape_done
                && final(self).last_action == old(self).last_action,
            final(self).tape@ == old(self).tape@,
            final(self).frame_count == old(self).frame_count,
            final(self).input_overridden == old(self).input_overridden,
    {
        if self.tape_next < self.tape.len() {
            let a = self.tape[self.tape_next];
            self.tape_next = self.tape_next + 1;
            self.last_action = a;
            self.tape_done = self.tape_next == self.tape.len();
            a
        } else {
            self.last_action
        }
    }
}

/// The in-game input: the controller's action, except during boss dialogue (unless the episode
/// leaves dialogue to the controller), where shoot is tapped every [`TAP_INTERVAL`]th frame and
/// skip is held.
pub open spec fn spec_ingame_input(action_bits: u32, dialogue: bool, frame: u32, raw_dialogue: bool) -> u32 {
    if dialogue && !raw_dialogue {
        if frame % TAP_INTERVAL == 0 {
            (action_bits & !SHOOT) | SHOOT | SKIP
        } else {
            (action_bits & !SHOOT) | SKIP
        }
    } else {
        action_bits
    }
}

/// Returns the input the game sees this frame and whether the controller's action was
/// overridden: the in-game input while connected in a stage, the menu's navigation input while
/// connected in the menu, and nothing otherwise.
pub fn frame_input(
    connected: bool,
    gamemode: u32,
    action: Action,
    dialogue: bool,
    frame: u32,
    raw_dialogue: bool,
    menu_input: InputFlags,
) -> (r: (InputFlags, bool))
    ensures
        (connected && gamemode == GAMEMODE_INGAME) ==> r == (
            InputFlags {
                bits: spec_ingame_input(action.spec_bits(), dialogue, frame, raw_dialogue),
            },
            dialogue && !raw_dialogue,
        ),
        (connected && gamemode == GAMEMODE_MENU) ==> r == (menu_input, false),
        !(connected && (gamemode == GAMEMODE_INGAME || gamemode == GAMEMODE_MENU)) ==> r == (
            InputFlags { bits: 0 },
            false,
        ),
{
    if connected && gamemode == GAMEMODE_INGAME {
        let mut input = action.to_flags();
        let overridden = dialogue && !raw_dialogue;
        if overridden {
            input.remove(SHOOT);
            if frame % TAP_INTERVAL == 0 {
                input.insert(SHOOT);
            }
            input.insert(SKIP);
        }
        (input, overridden)
    } else if connected && gamemode == GAMEMODE_MENU {
        (menu_input, false)
    } else {
        (InputFlags::empty(), false)
    }
}

/// A stage is fully live: an in-game scene is active and the stage loader has finished (its
/// running flag clear, its done flag set).
pub open spec fn spec_stage_stable(gamemode: u32, loader_running: u32, loader_done: u32) -> bool {
    gamemode == GAMEMODE_INGAME && loader_running == 0 && loader_done == 1
}

/// Whether a stage is fully live (see [`spec_stage_stable`]).
pub fn stage_stable(gamemode: u32, loader_running: u32, loader_done: u32) -> (r: bool)
    ensures
        r == spec_stage_stable(gamemode, loader_running, loader_done),
{
    gamemode == GAMEMODE_INGAME && loader_running == 0 && loader_done == 1
}

/// Whether the stage is stable and its game thread exists.
pub fn game_live(gamemode: u32, loader_running: u32, loader_done: u32, game_thread: u32) -> (r: bool)
    ensures
        r == (spec_stage_stable(gamemode, loader_running, loader_done) && game_thread != 0),
{
    stage_stable(gamemode, loader_running, loader_done) && game_thread != 0
}

/// Whether a reset may start its reload this frame: the stage is stable and the game is not
/// already switching to another scene.
pub fn reload_window(gamemode: u32, loader_running: u32, loader_done: u32, switching_to: u32) -> (r: bool)
    ensures
        r == (spec_stage_stable(gamemode, loader_running, loader_done) && switching_to
            == GAMEMODE_INGAME),
{
    stage_stable(gamemode, loader_running, loader_done) && switching_to == GAMEMODE_INGAME
}

} // verus!
