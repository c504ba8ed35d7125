//! Top-level game states.
use vstd::prelude::*;

verus! {

#[derive(Clone, Copy, Debug, PartialEq, Eq, Structural)]
pub enum PlayState {
    OnFoot,
    InMech,
    Transition,
    Cutscene,
}

#[derive(Clone, Copy, Debug, PartialEq, Eq, Structural)]
pub enum GameState {
    MainMenu,
    Playing(PlayState),
    Paused,
    GameOver,
    LevelComplete,
    LevelTransition,
}

impl Default for GameState {
    /// Play starts on foot.
    fn default() -> (s: GameState)
        ensures
            s == GameState::Playing(PlayState::OnFoot),
    {
        GameState::Playing(PlayState::OnFoot)
    }
}

} // verus!
