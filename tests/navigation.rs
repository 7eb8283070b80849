use sf_settings_menu::audio::AudioSettingsState;
use sf_settings_menu::controls::ControlsSettingsState;
use sf_settings_menu::navigation::{
    direction, plan_change, plan_move, step, FocusChange, FocusMove, NavDirection, NavInput,
};

fn keys(down: bool, up: bool, tab: bool, shift: bool) -> NavInput {
    NavInput { down_pressed: down, up_pressed: up, tab_pressed: tab, shift_held: shift }
}

#[test]
fn direction_follows_key_priority() {
    assert_eq!(direction(&keys(false, false, false, false)), None);
    assert_eq!(direction(&keys(true, false, false, false)), Some(NavDirection::Forward));
    assert_eq!(direction(&keys(false, true, false, false)), Some(NavDirection::Backward));
    assert_eq!(direction(&keys(false, false, true, false)), Some(NavDirection::Forward));
    assert_eq!(direction(&keys(false, false, true, true)), Some(NavDirection::Backward));
    assert_eq!(direction(&keys(true, true, true, true)), Some(NavDirection::Forward));
    assert_eq!(direction(&keys(false, true, true, false)), Some(NavDirection::Backward));
    assert_eq!(direction(&keys(false, false, false, true)), None);
}

#[test]
fn step_wraps_at_both_ends() {
    assert_eq!(step(0, 4, NavDirection::Forward), 1);
    assert_eq!(step(3, 4, NavDirection::Forward), 0);
    assert_eq!(step(0, 4, NavDirection::Backward), 3);
    assert_eq!(step(2, 4, NavDirection::Backward), 1);
    assert_eq!(step(0, 1, NavDirection::Forward), 0);
    assert_eq!(step(usize::MAX - 1, usize::MAX, NavDirection::Forward), 0);
}

#[test]
fn step_forward_then_back_returns() {
    for len in 1..6usize {
        for i in 0..len {
            let there = step(i, len, NavDirection::Forward);
            assert_eq!(step(there, len, NavDirection::Backward), i);
            let back = step(i, len, NavDirection::Backward);
            assert_eq!(step(back, len, NavDirection::Forward), i);
        }
    }
}

#[test]
fn plan_move_cases() {
    let down = keys(true, false, false, false);
    let shift_tab = keys(false, false, true, true);
    assert_eq!(plan_move(0, 0, &down), None);
    assert_eq!(plan_move(0, 1, &down), None);
    assert_eq!(plan_move(0, 3, &keys(false, false, false, false)), None);
    assert_eq!(plan_move(0, 3, &down), Some(FocusMove { from: 0, to: 1 }));
    assert_eq!(plan_move(9, 3, &down), Some(FocusMove { from: 2, to: 0 }));
    assert_eq!(plan_move(0, 3, &shift_tab), Some(FocusMove { from: 0, to: 2 }));
    assert_eq!(plan_move(usize::MAX, 2, &shift_tab), Some(FocusMove { from: 1, to: 0 }));
}

#[test]
fn plan_change_names_entities() {
    let order = vec![100u64, 200, 300];
    let up = keys(false, true, false, false);
    assert_eq!(
        plan_change(1, &order, &up),
        Some(FocusChange { from: 1, to: 0, previous: 200, next: 100 })
    );
    assert_eq!(plan_change(1, &Vec::new(), &up), None);
}

#[test]
fn audio_focus_order_is_sliders_checkboxes_buttons() {
    let mut st = AudioSettingsState::default();
    st.volume_sliders.push(1);
    st.volume_sliders.push(2);
    st.checkboxes.push(7);
    st.buttons.push(9);
    assert_eq!(st.focus_order(), vec![1, 2, 7, 9]);
    assert_eq!(AudioSettingsState::default().focus_order(), Vec::<u64>::new());
}

#[test]
fn audio_navigation_and_landing() {
    let mut st = AudioSettingsState::default();
    st.volume_sliders.push(1);
    st.checkboxes.push(7);
    st.buttons.push(9);
    let tab = keys(false, false, true, false);
    let change = st.plan_keyboard_navigation(&tab).unwrap();
    assert_eq!(change, FocusChange { from: 0, to: 1, previous: 1, next: 7 });
    st.focus_landed(change.to, change.next);
    assert_eq!(st.focused_element, Some(7));
    assert_eq!(st.current_focus_index, 1);
    st.current_focus_index = 40;
    let change = st.plan_keyboard_navigation(&tab).unwrap();
    assert_eq!(change, FocusChange { from: 2, to: 0, previous: 9, next: 1 });
    assert_eq!(AudioSettingsState::default().plan_keyboard_navigation(&tab), None);
}

#[test]
fn audio_state_default_is_empty() {
    let st = AudioSettingsState::default();
    assert_eq!(st.focused_element, None);
    assert!(st.volume_sliders.is_empty() && st.checkboxes.is_empty() && st.buttons.is_empty());
    assert!(!st.test_sound_playing);
    assert_eq!(st.current_focus_index, 0);
    assert_eq!(st.input_device, "");
    assert_eq!(st.output_device, "");
}

#[test]
fn controls_navigation_starts_at_first_widget() {
    let mut st = ControlsSettingsState::default();
    assert_eq!(st.current_focus_index, None);
    st.focusable_elements.extend([5u64, 6, 8]);
    let up = keys(false, true, false, false);
    assert_eq!(
        st.plan_keyboard_navigation(&up),
        Some(FocusChange { from: 0, to: 2, previous: 5, next: 8 })
    );
    st.focus_landed(2);
    assert_eq!(st.current_focus_index, Some(2));
    let down = keys(true, false, false, false);
    assert_eq!(
        st.plan_keyboard_navigation(&down),
        Some(FocusChange { from: 2, to: 0, previous: 8, next: 5 })
    );
}

#[test]
fn controls_reset_and_initial_focus() {
    let mut st = ControlsSettingsState::default();
    st.focus_first_if_unset();
    assert_eq!(st.current_focus_index, None);
    st.focusable_elements.push(3);
    st.focusable_elements.push(4);
    st.focus_first_if_unset();
    assert_eq!(st.current_focus_index, Some(0));
    st.focus_landed(1);
    st.focus_first_if_unset();
    assert_eq!(st.current_focus_index, Some(1));
    st.reset();
    assert!(st.focusable_elements.is_empty());
    assert_eq!(st.current_focus_index, None);
}
