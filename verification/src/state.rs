use vstd::prelude::*;

verus! {

/// The screen the game is on. Exactly one value is active at a time.
#[derive(Debug, Clone, Copy, PartialEq, Eq, Structural, Hash)]
pub enum GameState {
    Splash,
    Menu,
    InGame,
    Credits,
    Quitting,
}

/// The phase of a round. It only has a meaning while the game is `InGame`.
#[derive(Debug, Clone, Copy, PartialEq, Eq, Structural, Hash)]
pub enum PauseState {
    Loading,
    Running,
    Paused,
    GameOver,
}

impl GameState {
    /// The edges of the screen graph: `next` may directly follow `self`.
    pub open spec fn leads_to(self, next: GameState) -> bool {
        match self {
            GameState::Splash => next == GameState::Menu,
            GameState::Menu => next == GameState::InGame || next == GameState::Credits || next
                == GameState::Quitting,
            GameState::InGame => next == GameState::Menu || next == GameState::Quitting,
            GameState::Credits => next == GameState::Menu,
            GameState::Quitting => false,
        }
    }

    /// Whether the screen graph has an edge from `self` to `next`.
    pub fn can_enter(&self, next: GameState) -> (allowed: bool)
        ensures
            allowed == self.leads_to(next),
    {
        match self {
            GameState::Splash => next == GameState::Menu,
            GameState::Menu => next == GameState::InGame || next == GameState::Credits || next
                == GameState::Quitting,
            GameState::InGame => next == GameState::Menu || next == GameState::Quitting,
            GameState::Credits => next == GameState::Menu,
            GameState::Quitting => false,
        }
    }
}

impl Default for GameState {
    fn default() -> (state: GameState)
        ensures
            state == GameState::Splash,
    {
        GameState::Splash
    }
}

impl PauseState {
    /// The edges of the round's phase graph. Any phase may fall back to
    /// `Loading` when an asset is found missing.
    pub open spec fn leads_to(self, next: PauseState) -> bool {
        ||| next == PauseState::Loading
        ||| self == PauseState::Loading && next == PauseState::Running
        ||| self == PauseState::Running && next == PauseState::Paused
        ||| self == PauseState::Paused && next == PauseState::Running
        ||| self == PauseState::Running && next == PauseState::GameOver
    }

    /// Gameplay rules (timer, spawning, grabbing, disposal) act only in this
    /// phase; in every other phase the round is frozen.
    pub open spec fn is_running(self) -> bool {
        self == PauseState::Running
    }

    /// Whether gameplay rules act in this phase.
    pub fn gameplay_runs(&self) -> (runs: bool)
        ensures
            runs == self.is_running(),
    {
        *self == PauseState::Running
    }
}

impl Default for PauseState {
    fn default() -> (state: PauseState)
        ensures
            state == PauseState::Loading,
    {
        PauseState::Loading
    }
}

/// Once the game is quitting no screen follows.
pub proof fn lemma_quitting_is_terminal(next: GameState)
    ensures
        !GameState::Quitting.leads_to(next),
{
}

/// Every screen but `Quitting` can get back to the menu, directly or through
/// itself being the menu.
pub proof fn lemma_menu_is_reachable(from: GameState)
    requires
        from != GameState::Quitting,
    ensures
        from == GameState::Menu || from.leads_to(GameState::Menu),
{
}

} // verus!
