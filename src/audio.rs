//! The audio panel: its navigation state and the looks of its widgets.
//!
//! Widgets are named by their entity id, a `u64`.
use vstd::prelude::*;
use crate::look::{FocusState, Interaction, Look, Tone};
use crate::navigation::{FocusChange, NavInput, plan_change, planned_change};

verus! {

/// Keyboard navigation state of the audio panel. Focus goes through the
/// volume sliders, then the checkboxes, then the buttons.
#[derive(Debug)]
pub struct AudioSettingsState {
    pub focused_element: Option<u64>,
    pub volume_sliders: Vec<u64>,
    pub checkboxes: Vec<u64>,
    pub buttons: Vec<u64>,
    pub test_sound_playing: bool,
    pub current_focus_index: usize,
    pub input_device: String,
    pub output_device: String,
}

impl Default for AudioSettingsState {
    fn default() -> (r: Self)
        ensures
            r.focused_element.is_none(),
            r.volume_sliders@.len() == 0,
            r.checkboxes@.len() == 0,
            r.buttons@.len() == 0,
            !r.test_sound_playing,
            r.current_focus_index == 0,
            r.input_device@.len() == 0,
            r.output_device@.len() == 0,
    {
        AudioSettingsState {
            focused_element: None,
            volume_sliders: Vec::new(),
            checkboxes: Vec::new(),
            buttons: Vec::new(),
            test_sound_playing: false,
            current_focus_index: 0,
            input_device: String::new(),
            output_device: String::new(),
        }
    }
}

/// Appends the entities of `src` to `dst`.
fn append_ids(dst: &mut Vec<u64>, src: &Vec<u64>)
    ensures
        final(dst)@ == old(dst)@ + src@,
{
    let mut i: usize = 0;
    while i < src.len()
        invariant
            i <= src@.len(),
            dst@ == old(dst)@ + src@.subrange(0, i as int),
        decreases src@.len() - i,
    {
        dst.push(src[i]);
        i = i + 1;
        assert(src@.subrange(0, i as int) == src@.subrange(0, i - 1) + seq![src@[i - 1]]);
    }
    assert(src@.subrange(0, src@.len() as int) == src@);
}

impl AudioSettingsState {
    /// The focusable widgets in focus order.
    pub open spec fn order(&self) -> Seq<u64> {
        self.volume_sliders@ + self.checkboxes@ + self.buttons@
    }

    /// The focusable widgets in focus order: sliders, checkboxes, buttons.
    pub fn focus_order(&self) -> (r: Vec<u64>)
        ensures
            r@ == self.order(),
    {
        let mut r: Vec<u64> = Vec::new();
        append_ids(&mut r, &self.volume_sliders);
        append_ids(&mut r, &self.checkboxes);
        append_ids(&mut r, &self.buttons);
        r
    }

    /// Decides how focus moves this frame under the navigation keys.
    pub fn plan_keyboard_navigation(&self, input: &NavInput) -> (r: Option<FocusChange>)
        ensures
            r == planned_change(self.current_focus_index as int, self.order(), *input),
    {
        let order = self.focus_order();
        plan_change(self.current_focus_index, &order, input)
    }

    /// Records that focus reached `entity`, at `index` of the focus order.
    pub fn focus_landed(&mut self, index: usize, entity: u64)
        ensures
            final(self).focused_element == Some(entity),
            final(self).current_focus_index == index,
            final(self).volume_sliders == old(self).volume_sliders,
            final(self).checkboxes == old(self).checkboxes,
            final(self).buttons == old(self).buttons,
            final(self).test_sound_playing == old(self).test_sound_playing,
            final(self).input_device == old(self).input_device,
            final(self).output_device == old(self).output_device,
    {
        self.focused_element = Some(entity);
        self.current_focus_index = index;
    }
}

/// How a widget of the audio panel is drawn in each focus state.
pub open spec fn audio_look(state: FocusState) -> Look {
    match state {
        FocusState::Focused => Look { background: Tone::Focused, border: Tone::FocusedBorder, border_half_px: 4 },
        FocusState::Hovered => Look { background: Tone::Hovered, border: Tone::Hovered, border_half_px: 2 },
        FocusState::Pressed => Look { background: Tone::Pressed, border: Tone::Pressed, border_half_px: 2 },
        FocusState::NotFocused => Look { background: Tone::Normal, border: Tone::Clear, border_half_px: 0 },
    }
}

/// How a widget of the audio panel is drawn in the given focus state.
pub fn focus_look(state: FocusState) -> (r: Look)
    ensures
        r == audio_look(state),
{
    match state {
        FocusState::Focused => Look { background: Tone::Focused, border: Tone::FocusedBorder, border_half_px: 4 },
        FocusState::Hovered => Look { background: Tone::Hovered, border: Tone::Hovered, border_half_px: 2 },
        FocusState::Pressed => Look { background: Tone::Pressed, border: Tone::Pressed, border_half_px: 2 },
        FocusState::NotFocused => Look { background: Tone::Normal, border: Tone::Clear, border_half_px: 0 },
    }
}

/// The new look of a widget whose pointer interaction changed, or `None`
/// where it keeps its look. A press always shows; hovering and rest leave a
/// focused widget as it is.
pub fn interaction_feedback(interaction: Interaction, focus: FocusState) -> (r: Option<Look>)
    ensures
        interaction == Interaction::Pressed ==> r == Some(audio_look(FocusState::Pressed)),
        interaction == Interaction::Hovered ==> r == (if focus == FocusState::Focused {
            None
        } else {
            Some(audio_look(FocusState::Hovered))
        }),
        interaction == Interaction::Idle ==> r == (if focus == FocusState::Focused {
            None
        } else {
            Some(audio_look(FocusState::NotFocused))
        }),
{
    match interaction {
        Interaction::Pressed => Some(focus_look(FocusState::Pressed)),
        Interaction::Hovered => {
            if focus != FocusState::Focused {
                Some(focus_look(FocusState::Hovered))
            } else {
                None
            }
        },
        Interaction::Idle => {
            if focus != FocusState::Focused {
                Some(focus_look(FocusState::NotFocused))
            } else {
                None
            }
        },
    }
}

/// The look of a widget from its focus state, or `None` while the pointer
/// hovers or presses it, which pointer feedback draws instead.
pub fn focus_visual(focus: FocusState, interaction: Option<Interaction>) -> (r: Option<Look>)
    ensures
        r == (match interaction {
            Some(i) => if i == Interaction::Idle {
                Some(audio_look(focus))
            } else {
                None
            },
            None => Some(audio_look(focus)),
        }),
{
    match interaction {
        Some(i) => {
            if i != Interaction::Idle {
                return None;
            }
        },
        None => {},
    }
    Some(focus_look(focus))
}

} // verus!
