use vstd::prelude::*;

verus! {

/// One axis driven by a pair of keys: `+1` for `plus` alone, `-1` for `minus`
/// alone, `0` for neither or both.
pub open spec fn axis_spec(plus: bool, minus: bool) -> int {
    (if plus { 1int } else { 0int }) - (if minus { 1int } else { 0int })
}

/// One axis driven by a key and the shift modifier: the key alone moves
/// forward along the axis, the key with shift moves back.
pub open spec fn shifted_axis_spec(key: bool, shift: bool) -> int {
    if !key {
        0
    } else if shift {
        -1
    } else {
        1
    }
}

/// The value of an axis for a pair of keys.
pub fn key_axis(plus: bool, minus: bool) -> (r: i8)
    ensures
        r == axis_spec(plus, minus),
{
    let mut v: i8 = 0;
    if plus {
        v = v + 1;
    }
    if minus {
        v = v - 1;
    }
    v
}

/// The value of an axis for a key and the shift modifier.
pub fn shifted_axis(key: bool, shift: bool) -> (r: i8)
    ensures
        r == shifted_axis_spec(key, shift),
{
    if !key {
        0
    } else if shift {
        -1
    } else {
        1
    }
}

/// Camera-local movement of the free-flying camera, as `(x, y, z)`: forward
/// is `-z`, right is `+x`, up is `+y`.
pub fn fly_direction(forward: bool, back: bool, left: bool, right: bool, up: bool, down: bool) -> (r: (i8, i8, i8))
    ensures
        r.0 == axis_spec(right, left),
        r.1 == axis_spec(up, down),
        r.2 == axis_spec(back, forward),
{
    (key_axis(right, left), key_axis(up, down), key_axis(back, forward))
}

/// Exponent of ten that scales the camera's speed: `1` with the boost key,
/// `-1` with the slow key, which wins when both are held.
pub fn boost_exponent(boost: bool, slow: bool) -> (r: i8)
    ensures
        r == (if slow { -1int } else if boost { 1int } else { 0int }),
{
    if slow {
        -1
    } else if boost {
        1
    } else {
        0
    }
}

/// Ground-plane panning of the camera with the arrow keys, as `(x, y, z)`.
pub fn pan_direction(up: bool, down: bool, left: bool, right: bool) -> (r: (i8, i8, i8))
    ensures
        r.0 == axis_spec(right, left),
        r.1 == 0,
        r.2 == axis_spec(down, up),
{
    (key_axis(right, left), 0, key_axis(down, up))
}

/// Nudge of the IK target along the world axes, as `(x, y, z)`: each axis
/// key moves forward, or back with shift held.
pub fn ik_nudge(shift: bool, x: bool, y: bool, z: bool) -> (r: (i8, i8, i8))
    ensures
        r.0 == shifted_axis_spec(x, shift),
        r.1 == shifted_axis_spec(y, shift),
        r.2 == shifted_axis_spec(z, shift),
{
    (shifted_axis(x, shift), shifted_axis(y, shift), shifted_axis(z, shift))
}

/// The two camera set-ups.
#[derive(PartialEq, Eq, Structural, Clone, Copy, Debug)]
pub enum ViewMode {
    /// High above the scene, looking down at an angle.
    Isometric,
    /// At head height, looking ahead.
    FirstPerson,
}

/// Yaw and pitch in degrees and viewing height in metres of a camera set-up.
#[derive(PartialEq, Eq, Structural, Clone, Copy, Debug)]
pub struct ViewParams {
    pub yaw_degrees: i32,
    pub pitch_degrees: i32,
    pub height_metres: i32,
}

/// The view the camera starts in.
pub const INITIAL_VIEW: ViewMode = ViewMode::FirstPerson;

/// The mode that the mode keys switch to this tick: the first-person key
/// wins over the isometric one when both are held.
pub fn view_mode_switch(isometric_key: bool, first_person_key: bool) -> (r: Option<ViewMode>)
    ensures
        r == (if first_person_key {
            Some(ViewMode::FirstPerson)
        } else if isometric_key {
            Some(ViewMode::Isometric)
        } else {
            None::<ViewMode>
        }),
{
    if first_person_key {
        Some(ViewMode::FirstPerson)
    } else if isometric_key {
        Some(ViewMode::Isometric)
    } else {
        None
    }
}

/// The camera set-up of a mode.
pub fn view_params(mode: ViewMode) -> (r: ViewParams)
    ensures
        mode == ViewMode::Isometric ==> r == (ViewParams {
            yaw_degrees: 0,
            pitch_degrees: -60i32,
            height_metres: 20,
        }),
        mode == ViewMode::FirstPerson ==> r == (ViewParams {
            yaw_degrees: 0,
            pitch_degrees: 0,
            height_metres: 2,
        }),
{
    match mode {
        ViewMode::Isometric => ViewParams { yaw_degrees: 0, pitch_degrees: -60, height_metres: 20 },
        ViewMode::FirstPerson => ViewParams { yaw_degrees: 0, pitch_degrees: 0, height_metres: 2 },
    }
}

} // verus!
