//! Title-menu navigation into practice-mode stages.
//!
//! Each tap interval the hook presses the one button that moves the menu towards the practice
//! stage select: down on the title screen until the cursor rests on Practice, right on the
//! character screen until the cursor rests on the configured character, shoot to confirm, and
//! bomb on any screen it does not manage.

use crate::features::Scene;
use crate::input::{BOMB, DOWN, InputFlags, RIGHT, SHOOT};
use vstd::prelude::*;

verus! {

/// Offsets of the menu object's navigation fields.
pub const MENU_ID_OFFSET: usize = 0x18;
/// The menu honours input while its sub-state is [`MENU_INTERACTIVE`].
pub const MENU_SUB_STATE_OFFSET: usize = 0x20;
pub const MENU_CURSOR_OFFSET: usize = 0x24;
pub const MENU_INTERACTIVE: u32 = 2;

/// Menu IDs.
pub const MENU_BOOTING: u32 = 0;
pub const MENU_TITLE: u32 = 1;
pub const MENU_TERMINAL: u32 = 2;
pub const MENU_DIFFICULTY: u32 = 6;
pub const MENU_CHARACTER: u32 = 7;
pub const MENU_PRACTICE_STAGE: u32 = 9;

/// The title menu's Practice entry.
pub const TITLE_PRACTICE_START: u32 = 2;

/// Rising-edge cadence for injected inputs.
pub const TAP_INTERVAL: u32 = 3;

/// A menu screen that navigation knows.
#[derive(Debug, Clone, Copy, PartialEq, Eq, Structural)]
pub enum Screen {
    /// Deciding what to show during boot and on the way back from a finished run.
    Booting,
    Title,
    /// Entered on quit and while the game starts.
    Terminal,
    Difficulty,
    Character,
    PracticeStage,
}

pub open spec fn spec_screen(menu_id: u32) -> Option<Screen> {
    if menu_id == MENU_BOOTING {
        Some(Screen::Booting)
    } else if menu_id == MENU_TITLE {
        Some(Screen::Title)
    } else if menu_id == MENU_TERMINAL {
        Some(Screen::Terminal)
    } else if menu_id == MENU_DIFFICULTY {
        Some(Screen::Difficulty)
    } else if menu_id == MENU_CHARACTER {
        Some(Screen::Character)
    } else if menu_id == MENU_PRACTICE_STAGE {
        Some(Screen::PracticeStage)
    } else {
        None
    }
}

impl Screen {
    /// The screen that a menu ID names, if navigation knows it.
    pub fn classify(menu_id: u32) -> (r: Option<Self>)
        ensures
            r == spec_screen(menu_id),
    {
        if menu_id == MENU_BOOTING {
            Some(Screen::Booting)
        } else if menu_id == MENU_TITLE {
            Some(Screen::Title)
        } else if menu_id == MENU_TERMINAL {
            Some(Screen::Terminal)
        } else if menu_id == MENU_DIFFICULTY {
            Some(Screen::Difficulty)
        } else if menu_id == MENU_CHARACTER {
            Some(Screen::Character)
        } else if menu_id == MENU_PRACTICE_STAGE {
            Some(Screen::PracticeStage)
        } else {
            None
        }
    }
}

/// The character that navigation selects; set once before the hooks are installed.
pub struct CharacterChoice {
    pub character: Option<u32>,
}

impl CharacterChoice {
    /// No character chosen yet.
    pub fn new() -> (r: Self)
        ensures
            r.character is None,
    {
        CharacterChoice { character: None }
    }

    /// Records the character; a second call keeps the first choice.
    pub fn init(&mut self, character: u32)
        ensures
            final(self).character == (match old(self).character {
                Some(c) => Some(c),
                None => Some(character),
            }),
    {
        if self.character.is_none() {
            self.character = Some(character);
        }
    }
}

/// Navigation cannot continue.
#[derive(Debug, Clone, Copy, PartialEq, Eq, Structural)]
pub enum MenuError {
    /// The character-select screen was reached before the character was set.
    CharacterUnset,
}

/// The menu object's navigation fields as read on this frame.
#[derive(Debug, Clone, Copy, PartialEq, Eq, Structural)]
pub struct MenuView {
    pub screen: Option<Screen>,
    pub sub_state: u32,
    pub cursor: u32,
}

/// The button to press on a screen: `Ok(bits)`, or the error of a character screen with no
/// configured character.
pub open spec fn spec_menu_input(view: MenuView, character: Option<u32>) -> Result<u32, MenuError> {
    if view.sub_state != MENU_INTERACTIVE {
        Ok(0)
    } else {
        match view.screen {
            Some(Screen::Booting) | Some(Screen::Terminal) => Ok(0),
            Some(Screen::Title) => Ok(
                if view.cursor == TITLE_PRACTICE_START {
                    SHOOT
                } else {
                    DOWN
                },
            ),
            Some(Screen::Character) => match character {
                Some(c) => Ok(
                    if view.cursor == c {
                        SHOOT
                    } else {
                        RIGHT
                    },
                ),
                None => Err(MenuError::CharacterUnset),
            },
            Some(Screen::Difficulty) | Some(Screen::PracticeStage) => Ok(SHOOT),
            None => Ok(BOMB),
        }
    }
}

impl MenuView {
    /// Reads a menu object's fields.
    pub fn classify(menu_id: u32, sub_state: u32, cursor: u32) -> (r: Self)
        ensures
            r == (MenuView { screen: spec_screen(menu_id), sub_state, cursor }),
    {
        MenuView { screen: Screen::classify(menu_id), sub_state, cursor }
    }

    /// Whether [`navigate`] drives the screen classified by this view.
    pub fn managed(self) -> (r: bool)
        ensures
            r == self.screen is Some,
    {
        self.screen.is_some()
    }

    /// The input for this frame's screen (see [`spec_menu_input`]).
    pub fn input(self, character: Option<u32>) -> (r: Result<InputFlags, MenuError>)
        ensures
            match spec_menu_input(self, character) {
                Ok(bits) => r == Ok::<InputFlags, MenuError>(InputFlags { bits }),
                Err(e) => r == Err::<InputFlags, MenuError>(e),
            },
    {
        if self.sub_state != MENU_INTERACTIVE {
            return Ok(InputFlags::empty());
        }
        match self.screen {
            Some(Screen::Booting) | Some(Screen::Terminal) => Ok(InputFlags::empty()),
            Some(Screen::Title) => {
                if self.cursor == TITLE_PRACTICE_START {
                    Ok(InputFlags::from_bits(SHOOT))
                } else {
                    Ok(InputFlags::from_bits(DOWN))
                }
            },
            Some(Screen::Character) => match character {
                Some(c) => {
                    if self.cursor == c {
                        Ok(InputFlags::from_bits(SHOOT))
                    } else {
                        Ok(InputFlags::from_bits(RIGHT))
                    }
                },
                None => Err(MenuError::CharacterUnset),
            },
            Some(Screen::Difficulty) | Some(Screen::PracticeStage) => Ok(
                InputFlags::from_bits(SHOOT),
            ),
            None => Ok(InputFlags::from_bits(BOMB)),
        }
    }
}

/// Decides this menu frame's scene class and injected input, counting the frame in `tick`. With
/// no menu object the scene is `Other` and nothing is pressed; a button is pressed only on every
/// [`TAP_INTERVAL`]th frame.
pub fn navigate(tick: &mut u32, view: Option<MenuView>, character: Option<u32>) -> (r: Result<
    (Scene, InputFlags),
    MenuError,
>)
    ensures
        *final(tick) == vstd::wrapping::u32_specs::wrapping_add(*old(tick), 1),
        match view {
            None => r == Ok::<(Scene, InputFlags), MenuError>((Scene::Other, InputFlags { bits: 0 })),
            Some(v) => {
                let scene = if v.screen is Some {
                    Scene::Menu
                } else {
                    Scene::Other
                };
                if *old(tick) % TAP_INTERVAL != 0 {
                    r == Ok::<(Scene, InputFlags), MenuError>((scene, InputFlags { bits: 0 }))
                } else {
                    match spec_menu_input(v, character) {
                        Ok(bits) => r == Ok::<(Scene, InputFlags), MenuError>(
                            (scene, InputFlags { bits }),
                        ),
                        Err(e) => r == Err::<(Scene, InputFlags), MenuError>(e),
                    }
                }
            },
        },
{
    let t = *tick;
    *tick = t.wrapping_add(1);
    let view = match view {
        Some(v) => v,
        None => {
            return Ok((Scene::Other, InputFlags::empty()));
        },
    };
    let scene = if view.managed() {
        Scene::Menu
    } else {
        Scene::Other
    };
    if t % TAP_INTERVAL != 0 {
        return Ok((scene, InputFlags::empty()));
    }
    match view.input(character) {
        Ok(input) => Ok((scene, input)),
        Err(e) => Err(e),
    }
}

/// What navigation presses on the frames where it presses at all (every [`TAP_INTERVAL`]th
/// frame, on an interactive screen): the difficulty and practice-stage screens are confirmed
/// with exactly shoot; the title screen moves down until the cursor is on Practice and then
/// confirms; the character screen moves right until the cursor is on the chosen character and
/// then confirms; booting and terminal screens get nothing; an unknown screen is backed out of
/// with bomb. On a screen that does not take input nothing is pressed.
pub proof fn lemma_navigation_presses(view: MenuView, character: Option<u32>)
    ensures
        view.sub_state != MENU_INTERACTIVE ==> spec_menu_input(view, character) == Ok::<
            u32,
            MenuError,
        >(0),
        view.sub_state == MENU_INTERACTIVE ==> {
            let r = spec_menu_input(view, character);
            &&& (view.screen == Some(Screen::Difficulty) || view.screen == Some(
                Screen::PracticeStage,
            )) ==> r == Ok::<u32, MenuError>(SHOOT)
            &&& view.screen == Some(Screen::Title) ==> r == Ok::<u32, MenuError>(
                if view.cursor == TITLE_PRACTICE_START {
                    SHOOT
                } else {
                    DOWN
                },
            )
            &&& view.screen == Some(Screen::Character) ==> r == (match character {
                Some(c) => Ok::<u32, MenuError>(
                    if view.cursor == c {
                        SHOOT
                    } else {
                        RIGHT
                    },
                ),
                None => Err(MenuError::CharacterUnset),
            })
            &&& (view.screen == Some(Screen::Booting) || view.screen == Some(Screen::Terminal))
                ==> r == Ok::<u32, MenuError>(0)
            &&& view.screen is None ==> r == Ok::<u32, MenuError>(BOMB)
        },
{
}

/// Every confirming press is exactly shoot: where navigation presses shoot on an interactive
/// frame, the screen is one it confirms (title on Practice, character on the chosen one,
/// difficulty, practice stage), and on the difficulty and practice-stage screens it presses
/// nothing else.
pub proof fn lemma_confirming_screens_press_shoot(view: MenuView, character: Option<u32>)
    requires
        view.sub_state == MENU_INTERACTIVE,
    ensures
        spec_menu_input(view, character) == Ok::<u32, MenuError>(SHOOT) <==> (view.screen == Some(
            Screen::Difficulty,
        ) || view.screen == Some(Screen::PracticeStage) || (view.screen == Some(Screen::Title)
            && view.cursor == TITLE_PRACTICE_START) || (view.screen == Some(Screen::Character)
            && character == Some(view.cursor))),
{
    assert(SHOOT != DOWN && SHOOT != RIGHT && SHOOT != BOMB && SHOOT != 0);
}

} // verus!
