//! The settings values that the menu edits, and the menu's own state.
use vstd::prelude::*;

verus! {

/// How the game window is presented.
#[derive(Clone, Copy, Debug, PartialEq, Eq, Structural)]
pub enum DisplayMode {
    Windowed,
    Fullscreen,
    Borderless,
}

impl Default for DisplayMode {
    fn default() -> (r: Self)
        ensures
            r == DisplayMode::Windowed,
    {
        DisplayMode::Windowed
    }
}

/// Rendering quality preset.
#[derive(Clone, Copy, Debug, PartialEq, Eq, Structural)]
pub enum GraphicsQuality {
    Low,
    Medium,
    High,
    Ultra,
}

impl Default for GraphicsQuality {
    fn default() -> (r: Self)
        ensures
            r == GraphicsQuality::Ultra,
    {
        GraphicsQuality::Ultra
    }
}

/// Game difficulty.
#[derive(Clone, Copy, Debug, PartialEq, Eq, Structural)]
pub enum Difficulty {
    Easy,
    Normal,
    Hard,
}

impl Default for Difficulty {
    fn default() -> (r: Self)
        ensures
            r == Difficulty::Normal,
    {
        Difficulty::Normal
    }
}

/// Gameplay options.
#[derive(Clone, Copy, Debug, PartialEq, Eq, Structural)]
pub struct GameplaySettings {
    pub difficulty: Difficulty,
    pub show_tutorials: bool,
    pub subtitles: bool,
}

impl Default for GameplaySettings {
    fn default() -> (r: Self)
        ensures
            r.difficulty == Difficulty::Normal,
            !r.show_tutorials,
            !r.subtitles,
    {
        GameplaySettings { difficulty: Difficulty::default(), show_tutorials: false, subtitles: false }
    }
}

/// The category of settings that a panel shows.
#[derive(Clone, Copy, Debug, PartialEq, Eq, Structural)]
pub enum SettingsTab {
    Video,
    Audio,
    Gameplay,
    Controls,
    Interface,
}

impl Default for SettingsTab {
    fn default() -> (r: Self)
        ensures
            r == SettingsTab::Video,
    {
        SettingsTab::Video
    }
}

/// Which tab the settings menu shows, and whether it is open.
#[derive(Clone, Copy, Debug, PartialEq, Eq, Structural)]
pub struct SettingsState {
    pub current_tab: SettingsTab,
    pub is_visible: bool,
}

impl Default for SettingsState {
    fn default() -> (r: Self)
        ensures
            r.current_tab == SettingsTab::Video,
            !r.is_visible,
    {
        SettingsState { current_tab: SettingsTab::default(), is_visible: false }
    }
}

/// State of the video panel.
#[derive(Clone, Copy, Debug, PartialEq, Eq, Structural)]
pub struct VideoSettingsState {
    pub test_active: bool,
}

impl Default for VideoSettingsState {
    fn default() -> (r: Self)
        ensures
            !r.test_active,
    {
        VideoSettingsState { test_active: false }
    }
}

/// State of the gameplay panel: the entity id of the focused widget, if any.
#[derive(Clone, Copy, Debug, PartialEq, Eq, Structural)]
pub struct GameplaySettingsState {
    pub focused_element: Option<u64>,
}

impl Default for GameplaySettingsState {
    fn default() -> (r: Self)
        ensures
            r.focused_element.is_none(),
    {
        GameplaySettingsState { focused_element: None }
    }
}

} // verus!
