use ray_pick::{
    boost_exponent, fly_direction, ik_nudge, key_axis, pan_direction, shifted_axis, view_mode_switch,
    view_params, ViewMode, ViewParams, INITIAL_VIEW,
};

#[test]
fn axis_from_two_keys() {
    assert_eq!(key_axis(false, false), 0);
    assert_eq!(key_axis(true, false), 1);
    assert_eq!(key_axis(false, true), -1);
    assert_eq!(key_axis(true, true), 0);
}

#[test]
fn axis_from_key_and_shift() {
    assert_eq!(shifted_axis(false, false), 0);
    assert_eq!(shifted_axis(false, true), 0);
    assert_eq!(shifted_axis(true, false), 1);
    assert_eq!(shifted_axis(true, true), -1);
}

#[test]
fn fly_keys() {
    // forward alone moves along -z
    assert_eq!(fly_direction(true, false, false, false, false, false), (0, 0, -1));
    assert_eq!(fly_direction(false, true, false, false, false, false), (0, 0, 1));
    assert_eq!(fly_direction(false, false, true, false, false, false), (-1, 0, 0));
    assert_eq!(fly_direction(false, false, false, true, true, false), (1, 1, 0));
    assert_eq!(fly_direction(true, true, true, true, true, true), (0, 0, 0));
    assert_eq!(fly_direction(false, false, false, false, false, true), (0, -1, 0));
}

#[test]
fn boost_keys() {
    assert_eq!(boost_exponent(false, false), 0);
    assert_eq!(boost_exponent(true, false), 1);
    assert_eq!(boost_exponent(false, true), -1);
    assert_eq!(boost_exponent(true, true), -1);
}

#[test]
fn pan_keys() {
    assert_eq!(pan_direction(true, false, false, false), (0, 0, -1));
    assert_eq!(pan_direction(false, true, true, false), (-1, 0, 1));
    assert_eq!(pan_direction(false, false, false, true), (1, 0, 0));
}

#[test]
fn ik_keys() {
    assert_eq!(ik_nudge(false, true, false, true), (1, 0, 1));
    assert_eq!(ik_nudge(true, true, true, false), (-1, -1, 0));
    assert_eq!(ik_nudge(true, false, false, false), (0, 0, 0));
}

#[test]
fn view_modes() {
    assert_eq!(view_mode_switch(false, false), None);
    assert_eq!(view_mode_switch(true, false), Some(ViewMode::Isometric));
    assert_eq!(view_mode_switch(false, true), Some(ViewMode::FirstPerson));
    assert_eq!(view_mode_switch(true, true), Some(ViewMode::FirstPerson));
    assert_eq!(INITIAL_VIEW, ViewMode::FirstPerson);
    assert_eq!(
        view_params(ViewMode::Isometric),
        ViewParams { yaw_degrees: 0, pitch_degrees: -60, height_metres: 20 }
    );
    assert_eq!(
        view_params(ViewMode::FirstPerson),
        ViewParams { yaw_degrees: 0, pitch_degrees: 0, height_metres: 2 }
    );
}
