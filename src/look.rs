//! What a widget looks like: its fill, its border and the border's width,
//! chosen from its keyboard focus and what the pointer is doing to it.
use vstd::prelude::*;

verus! {

/// Keyboard focus state of a focusable widget.
#[derive(Clone, Copy, Debug, PartialEq, Eq, Structural)]
pub enum FocusState {
    NotFocused,
    Focused,
    Hovered,
    Pressed,
}

/// What the pointer is doing to a widget.
#[derive(Clone, Copy, Debug, PartialEq, Eq, Structural)]
pub enum Interaction {
    Pressed,
    Hovered,
    Idle,
}

/// Focus state of the simpler panels, which know no hovering.
#[derive(Clone, Copy, Debug, PartialEq, Eq, Structural)]
pub enum PanelFocus {
    NotFocused,
    Focused,
    Active,
}

/// A colour of the menu's palette.
#[derive(Clone, Copy, Debug, PartialEq, Eq, Structural)]
pub enum Tone {
    /// Fully transparent.
    Clear,
    /// A button at rest.
    Normal,
    /// A button under the pointer.
    Hovered,
    /// A button being pressed.
    Pressed,
    /// The fill of the focused widget.
    Focused,
    /// The border of the focused widget.
    FocusedBorder,
    /// The border of the focused widget at half opacity.
    FocusedBorderFaint,
    /// The highlight of a focused widget on the simpler panels.
    Highlight,
}

/// How a widget is drawn. The border width is counted in half pixels.
#[derive(Clone, Copy, Debug, PartialEq, Eq, Structural)]
pub struct Look {
    pub background: Tone,
    pub border: Tone,
    pub border_half_px: u8,
}

/// The fill of a widget on the simpler panels, from its focus state.
pub open spec fn panel_focus_tone(state: PanelFocus) -> Tone {
    match state {
        PanelFocus::Focused => Tone::Highlight,
        PanelFocus::Active => Tone::Pressed,
        PanelFocus::NotFocused => Tone::Normal,
    }
}

/// The fill of a button on the simpler panels, from what the pointer does.
pub open spec fn interaction_tone(interaction: Interaction) -> Tone {
    match interaction {
        Interaction::Pressed => Tone::Pressed,
        Interaction::Hovered => Tone::Hovered,
        Interaction::Idle => Tone::Normal,
    }
}

/// Fill of a widget on the simpler panels whose focus state changed.
pub fn panel_focus_fill(state: PanelFocus) -> (r: Tone)
    ensures
        r == panel_focus_tone(state),
{
    match state {
        PanelFocus::Focused => Tone::Highlight,
        PanelFocus::Active => Tone::Pressed,
        PanelFocus::NotFocused => Tone::Normal,
    }
}

/// Fill of a button on the simpler panels whose pointer interaction changed.
pub fn interaction_fill(interaction: Interaction) -> (r: Tone)
    ensures
        r == interaction_tone(interaction),
{
    match interaction {
        Interaction::Pressed => Tone::Pressed,
        Interaction::Hovered => Tone::Hovered,
        Interaction::Idle => Tone::Normal,
    }
}

} // verus!
