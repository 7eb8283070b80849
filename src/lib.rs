//! Settings-menu state and decisions for a game's settings screen: the
//! settings model, keyboard focus navigation over the focusable widgets of a
//! panel, and the choice of look for a widget from its focus and pointer
//! state. Drawing the widgets is left to the host engine.

pub mod audio;
pub mod controls;
pub mod look;
pub mod navigation;
pub mod settings;

pub use audio::AudioSettingsState;
pub use controls::ControlsSettingsState;
pub use settings::{
    Difficulty, DisplayMode, GameplaySettings, GameplaySettingsState, GraphicsQuality,
    SettingsState, SettingsTab, VideoSettingsState,
};
