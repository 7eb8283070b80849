//! Keyboard focus navigation over the focusable widgets of a panel.
//!
//! The widgets are kept in a fixed order and focus moves one place at a time,
//! wrapping around at either end: the down arrow and Tab move forward, the up
//! arrow and Shift+Tab move back.
use vstd::prelude::*;

verus! {

/// The navigation keys as read from the keyboard in one frame.
#[derive(Clone, Copy, Debug, PartialEq, Eq, Structural)]
pub struct NavInput {
    /// The down arrow went down this frame.
    pub down_pressed: bool,
    /// The up arrow went down this frame.
    pub up_pressed: bool,
    /// Tab went down this frame.
    pub tab_pressed: bool,
    /// Either shift key is held.
    pub shift_held: bool,
}

/// The way focus moves through the order of widgets.
#[derive(Clone, Copy, Debug, PartialEq, Eq, Structural)]
pub enum NavDirection {
    Forward,
    Backward,
}

/// A move of focus from one position of the order to another.
#[derive(Clone, Copy, Debug, PartialEq, Eq, Structural)]
pub struct FocusMove {
    pub from: usize,
    pub to: usize,
}

/// A move of focus between two widgets: the positions in the focus order and
/// the entities that lose and gain focus.
#[derive(Clone, Copy, Debug, PartialEq, Eq, Structural)]
pub struct FocusChange {
    pub from: usize,
    pub to: usize,
    pub previous: u64,
    pub next: u64,
}

/// The change of focus that a frame's keys cause over the focus order
/// `order`, given the stored focus position.
pub open spec fn planned_change(stored: int, order: Seq<u64>, input: NavInput) -> Option<FocusChange> {
    match planned_move(stored, order.len() as int, input) {
        None => None,
        Some((from, to)) => Some(
            FocusChange { from: from as usize, to: to as usize, previous: order[from], next: order[to] },
        ),
    }
}

/// The direction that a frame's keys ask for. The down arrow wins over the
/// up arrow, which wins over Tab; Tab goes backward while shift is held.
pub open spec fn direction_of(input: NavInput) -> Option<NavDirection> {
    if input.down_pressed {
        Some(NavDirection::Forward)
    } else if input.up_pressed {
        Some(NavDirection::Backward)
    } else if input.tab_pressed {
        if input.shift_held {
            Some(NavDirection::Backward)
        } else {
            Some(NavDirection::Forward)
        }
    } else {
        None
    }
}

/// The position next to `current` in an order of `len` widgets, wrapping
/// around at both ends.
pub open spec fn stepped(current: int, len: int, dir: NavDirection) -> int
    recommends
        0 <= current < len,
{
    match dir {
        NavDirection::Forward => if current + 1 == len { 0 } else { current + 1 },
        NavDirection::Backward => if current == 0 { len - 1 } else { current - 1 },
    }
}

/// The position that holds focus when `stored` may lie past the end of an
/// order of `len > 0` widgets: the last one in that case.
pub open spec fn clamped(stored: int, len: int) -> int {
    if stored < len - 1 { stored } else { len - 1 }
}

/// The move of focus that a frame's keys cause, given the stored focus
/// position and the number of widgets: none where there is no widget, no
/// navigation key, or where focus would land where it already is.
pub open spec fn planned_move(stored: int, len: int, input: NavInput) -> Option<(int, int)> {
    if len <= 0 {
        None
    } else {
        match direction_of(input) {
            None => None,
            Some(dir) => {
                let from = clamped(stored, len);
                let to = stepped(from, len, dir);
                if to == from { None } else { Some((from, to)) }
            },
        }
    }
}

/// Reads the direction that a frame's keys ask for.
pub fn direction(input: &NavInput) -> (r: Option<NavDirection>)
    ensures
        r == direction_of(*input),
{
    if input.down_pressed {
        Some(NavDirection::Forward)
    } else if input.up_pressed {
        Some(NavDirection::Backward)
    } else if input.tab_pressed {
        if input.shift_held {
            Some(NavDirection::Backward)
        } else {
            Some(NavDirection::Forward)
        }
    } else {
        None
    }
}

/// The position next to `current` in the given direction, wrapping around.
pub fn step(current: usize, len: usize, dir: NavDirection) -> (r: usize)
    requires
        current < len,
    ensures
        r == stepped(current as int, len as int, dir),
        r < len,
{
    match dir {
        NavDirection::Forward => if current + 1 == len { 0 } else { current + 1 },
        NavDirection::Backward => if current == 0 { len - 1 } else { current - 1 },
    }
}

/// Decides how focus moves this frame. `stored` is the position that the
/// panel last recorded, `len` the number of focusable widgets.
pub fn plan_move(stored: usize, len: usize, input: &NavInput) -> (r: Option<FocusMove>)
    ensures
        match planned_move(stored as int, len as int, *input) {
            None => r.is_none(),
            Some((from, to)) => r == Some(FocusMove { from: from as usize, to: to as usize }),
        },
        r.is_some() <==> (len > 1 && direction_of(*input).is_some()),
        r matches Some(m) ==> m.from < len && m.to < len && m.from != m.to,
{
    if len == 0 {
        return None;
    }
    match direction(input) {
        None => None,
        Some(dir) => {
            let from = if stored < len - 1 { stored } else { len - 1 };
            let to = step(from, len, dir);
            if to == from {
                None
            } else {
                Some(FocusMove { from, to })
            }
        },
    }
}

/// Decides how focus moves this frame over the entities of `order`, in focus
/// order, given the stored focus position.
pub fn plan_change(stored: usize, order: &Vec<u64>, input: &NavInput) -> (r: Option<FocusChange>)
    ensures
        r == planned_change(stored as int, order@, *input),
{
    match plan_move(stored, order.len(), input) {
        None => None,
        Some(m) => Some(
            FocusChange { from: m.from, to: m.to, previous: order[m.from], next: order[m.to] },
        ),
    }
}

/// Moving forward and then backward, or backward and then forward, comes back
/// to the position one started from.
pub proof fn lemma_step_round_trip(current: int, len: int)
    requires
        0 <= current < len,
    ensures
        stepped(stepped(current, len, NavDirection::Forward), len, NavDirection::Backward)
            == current,
        stepped(stepped(current, len, NavDirection::Backward), len, NavDirection::Forward)
            == current,
{
}

} // verus!
