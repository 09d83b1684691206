//! The screens of the program and the moves between them.

use vstd::prelude::*;

verus! {

/// The screen that the program shows.
#[derive(Clone, Copy, Debug, PartialEq, Eq, Hash, Structural)]
pub enum AppState {
    LoadingAssets,
    MainMenu,
    InGame,
    Quitting,
}

/// What has to happen once a screen is entered.
#[derive(Clone, Copy, Debug, PartialEq, Eq, Structural)]
pub enum EnterAction {
    Nothing,
    SpawnWorld,
    Exit,
}

/// Wires the screens together.
#[derive(Clone, Copy, Debug, PartialEq, Eq, Structural)]
pub struct AppStatePlugin;

impl Default for AppState {
    fn default() -> (s: AppState)
        ensures
            s == AppState::LoadingAssets,
    {
        AppState::LoadingAssets
    }
}

impl AppStatePlugin {
    /// Entering the game spawns the world, entering `Quitting` ends the
    /// program, and the other two screens ask for nothing.
    pub fn on_enter(&self, state: AppState) -> (action: EnterAction)
        ensures
            action == match state {
                AppState::InGame => EnterAction::SpawnWorld,
                AppState::Quitting => EnterAction::Exit,
                _ => EnterAction::Nothing,
            },
    {
        match state {
            AppState::InGame => EnterAction::SpawnWorld,
            AppState::Quitting => EnterAction::Exit,
            _ => EnterAction::Nothing,
        }
    }

    /// Whether the menu is drawn in `state`.
    pub fn shows_menu(&self, state: AppState) -> (shown: bool)
        ensures
            shown == (state == AppState::MainMenu),
    {
        state == AppState::MainMenu
    }
}

/// The screen that the main menu asks for, given which of its buttons were
/// clicked in this frame: "Quit" wins over "Play Game", and no click asks
/// for nothing. The menu has no options screen to go to yet, so "Options"
/// must not have been clicked.
pub fn main_menu_gui(play_clicked: bool, options_clicked: bool, quit_clicked: bool) -> (next:
    Option<AppState>)
    requires
        !options_clicked,
    ensures
        next == if quit_clicked {
            Some(AppState::Quitting)
        } else if play_clicked {
            Some(AppState::InGame)
        } else {
            None
        },
{
    if quit_clicked {
        Some(AppState::Quitting)
    } else if play_clicked {
        Some(AppState::InGame)
    } else {
        None
    }
}

} // verus!
