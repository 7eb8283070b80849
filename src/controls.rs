//! The controls panel: its navigation state and the looks of its widgets.
//!
//! Widgets are named by their entity id, a `u64`.
use vstd::prelude::*;
use crate::look::{FocusState, Interaction, Look, Tone};
use crate::navigation::{FocusChange, NavInput, plan_change, planned_change};

verus! {

/// Keyboard navigation state of the controls panel: its focusable widgets
/// in focus order, and the position that holds focus, if any.
#[derive(Debug)]
pub struct ControlsSettingsState {
    pub focusable_elements: Vec<u64>,
    pub current_focus_index: Option<usize>,
}

/// The focus position that navigation starts from: the recorded one, or
/// the first widget.
pub open spec fn start_index(current: Option<usize>) -> usize {
    match current {
        Some(i) => i,
        None => 0,
    }
}

impl Default for ControlsSettingsState {
    fn default() -> (r: Self)
        ensures
            r.focusable_elements@.len() == 0,
            r.current_focus_index.is_none(),
    {
        ControlsSettingsState { focusable_elements: Vec::new(), current_focus_index: None }
    }
}

impl ControlsSettingsState {
    /// Forgets the widgets and the focus, before the panel is built anew.
    pub fn reset(&mut self)
        ensures
            final(self).focusable_elements@.len() == 0,
            final(self).current_focus_index.is_none(),
    {
        self.focusable_elements.clear();
        self.current_focus_index = None;
    }

    /// Gives focus to the first widget where there is one and none has focus.
    pub fn focus_first_if_unset(&mut self)
        ensures
            final(self).focusable_elements == old(self).focusable_elements,
            final(self).current_focus_index == (if old(self).current_focus_index.is_none()
                && old(self).focusable_elements@.len() > 0 {
                Some(0usize)
            } else {
                old(self).current_focus_index
            }),
    {
        if self.focusable_elements.len() > 0 && self.current_focus_index.is_none() {
            self.current_focus_index = Some(0);
        }
    }

    /// Decides how focus moves this frame under the navigation keys.
    pub fn plan_keyboard_navigation(&self, input: &NavInput) -> (r: Option<FocusChange>)
        ensures
            r == planned_change(
                start_index(self.current_focus_index) as int,
                self.focusable_elements@,
                *input,
            ),
    {
        let stored = match self.current_focus_index {
            Some(i) => i,
            None => 0,
        };
        plan_change(stored, &self.focusable_elements, input)
    }

    /// Records that focus reached position `index` of the focus order.
    pub fn focus_landed(&mut self, index: usize)
        ensures
            final(self).focusable_elements == old(self).focusable_elements,
            final(self).current_focus_index == Some(index),
    {
        self.current_focus_index = Some(index);
    }
}

/// The look of a widget of the controls panel from its focus state and what
/// the pointer does to it. A focused widget shows its focus; another one
/// takes its fill from the pointer, with no border colour.
pub open spec fn controls_look(focus: FocusState, interaction: Option<Interaction>) -> Look {
    if focus == FocusState::Focused {
        Look { background: Tone::Focused, border: Tone::FocusedBorder, border_half_px: 4 }
    } else {
        let background = match interaction {
            Some(Interaction::Pressed) => Tone::Pressed,
            Some(Interaction::Hovered) => Tone::Hovered,
            _ => Tone::Normal,
        };
        Look { background, border: Tone::Clear, border_half_px: 2 }
    }
}

/// The look of a widget of the controls panel under pointer feedback.
pub open spec fn controls_pointer_look(interaction: Interaction) -> Look {
    match interaction {
        Interaction::Pressed => Look { background: Tone::Pressed, border: Tone::FocusedBorder, border_half_px: 4 },
        Interaction::Hovered => Look {
            background: Tone::Hovered,
            border: Tone::FocusedBorderFaint,
            border_half_px: 3,
        },
        Interaction::Idle => Look { background: Tone::Normal, border: Tone::Clear, border_half_px: 2 },
    }
}

/// The look of a widget of the controls panel, from its focus state and
/// what the pointer does to it.
pub fn focus_visual(focus: FocusState, interaction: Option<Interaction>) -> (r: Look)
    ensures
        r == controls_look(focus, interaction),
{
    if focus == FocusState::Focused {
        Look { background: Tone::Focused, border: Tone::FocusedBorder, border_half_px: 4 }
    } else {
        let background = match interaction {
            Some(Interaction::Pressed) => Tone::Pressed,
            Some(Interaction::Hovered) => Tone::Hovered,
            _ => Tone::Normal,
        };
        Look { background, border: Tone::Clear, border_half_px: 2 }
    }
}

/// The new look of a widget whose pointer interaction changed, or `None`
/// for a focused widget, which keeps its look.
pub fn interaction_feedback(interaction: Interaction, focus: FocusState) -> (r: Option<Look>)
    ensures
        r == (if focus == FocusState::Focused {
            None
        } else {
            Some(controls_pointer_look(interaction))
        }),
{
    if focus == FocusState::Focused {
        return None;
    }
    match interaction {
        Interaction::Pressed => Some(
            Look { background: Tone::Pressed, border: Tone::FocusedBorder, border_half_px: 4 },
        ),
        Interaction::Hovered => Some(
            Look { background: Tone::Hovered, border: Tone::FocusedBorderFaint, border_half_px: 3 },
        ),
        Interaction::Idle => Some(
            Look { background: Tone::Normal, border: Tone::Clear, border_half_px: 2 },
        ),
    }
}

} // verus!
