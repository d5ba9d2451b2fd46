use vstd::prelude::*;

verus! {

/// Top-level screen of the application.
#[derive(Clone, Copy, Debug, PartialEq, Eq, Hash, Structural)]
pub enum AppState {
    Splash,
    Menu,
    Game,
}

impl Default for AppState {
    /// The application starts on the splash screen.
    fn default() -> (s: Self)
        ensures
            s == AppState::Splash,
    {
        AppState::Splash
    }
}

impl AppState {
    /// Whether the application is showing the game itself.
    pub fn is_game(&self) -> (r: bool)
        ensures
            r <==> *self == AppState::Game,
    {
        match self {
            AppState::Game => true,
            _ => false,
        }
    }
}

/// Which chapter of the story is loaded.
#[derive(Clone, Copy, Debug, PartialEq, Eq, Hash, Structural)]
pub enum ChapterState {
    Unloaded,
    One,
    Two,
}

impl Default for ChapterState {
    /// No chapter is loaded until the game starts.
    fn default() -> (s: Self)
        ensures
            s == ChapterState::Unloaded,
    {
        ChapterState::Unloaded
    }
}

impl ChapterState {
    /// Whether no chapter is loaded.
    pub fn is_none(&self) -> (r: bool)
        ensures
            r <==> *self == ChapterState::Unloaded,
    {
        match self {
            ChapterState::Unloaded => true,
            _ => false,
        }
    }
}

/// What the player is doing inside the game.
#[derive(Clone, Copy, Debug, PartialEq, Eq, Hash, Structural)]
pub enum GameState {
    Loading,
    Playing,
    InDialog,
    InLockPicking,
    Paused,
    Over,
}

impl Default for GameState {
    /// A game starts by loading its assets.
    fn default() -> (s: Self)
        ensures
            s == GameState::Loading,
    {
        GameState::Loading
    }
}

impl GameState {
    /// Whether the assets of the game are still loading.
    pub fn is_loading(&self) -> (r: bool)
        ensures
            r <==> *self == GameState::Loading,
    {
        match self {
            GameState::Loading => true,
            _ => false,
        }
    }

    /// Whether the player controls the character.
    pub fn is_playing(&self) -> (r: bool)
        ensures
            r <==> *self == GameState::Playing,
    {
        match self {
            GameState::Playing => true,
            _ => false,
        }
    }

    /// Whether the game is paused.
    pub fn is_paused(&self) -> (r: bool)
        ensures
            r <==> *self == GameState::Paused,
    {
        match self {
            GameState::Paused => true,
            _ => false,
        }
    }
}

/// Which screen of the main menu is shown.
#[derive(Clone, Copy, Debug, PartialEq, Eq, Hash, Structural)]
pub enum MenuState {
    Main,
    Settings,
    SettingsDisplay,
    SettingsSound,
    Disabled,
}

impl Default for MenuState {
    /// The menu is disabled until the application reaches it.
    fn default() -> (s: Self)
        ensures
            s == MenuState::Disabled,
    {
        MenuState::Disabled
    }
}

/// The chapter the game moves to when the player enters it.
pub fn chapter_on_game_start() -> (c: ChapterState)
    ensures
        c == ChapterState::One,
{
    ChapterState::One
}

/// The game and chapter states set back when the player leaves the game, so that the next
/// game starts afresh.
pub fn states_on_game_exit() -> (r: (GameState, ChapterState))
    ensures
        r == (GameState::Loading, ChapterState::Unloaded),
{
    (GameState::default(), ChapterState::default())
}

} // verus!
