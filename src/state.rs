//! The states that gate which rules run in a frame.
use vstd::prelude::*;

verus! {

#[derive(Clone, Copy, Debug, PartialEq, Eq, Structural)]
pub enum LevelState {
    Changing,
    Unchanging,
}

#[derive(Clone, Copy, Debug, PartialEq, Eq, Structural)]
pub enum PlayerState {
    Dead,
    Alive,
}

#[derive(Clone, Copy, Debug, PartialEq, Eq, Structural)]
pub enum AppState {
    MainMenu,
    InGame,
    GameOver,
}

#[derive(Clone, Copy, Debug, PartialEq, Eq, Structural)]
pub enum GameState {
    Running,
    Paused,
}

/// The pause key toggles between running and paused.
pub fn toggle_pause(state: GameState, pressed: bool) -> (r: GameState)
    ensures
        r == (if !pressed {
            state
        } else if state == GameState::Running {
            GameState::Paused
        } else {
            GameState::Running
        }),
{
    if !pressed {
        return state;
    }
    match state {
        GameState::Running => GameState::Paused,
        GameState::Paused => GameState::Running,
    }
}

/// Whether a menu is on screen: the main menu or the game-over screen.
pub fn in_menu(state: AppState) -> (r: bool)
    ensures
        r == (state == AppState::MainMenu || state == AppState::GameOver),
{
    state == AppState::MainMenu || state == AppState::GameOver
}

} // verus!
