//! Cursor picking and the input rules around it for a small 3D scene,
//! proved with Verus.
//!
//! World positions are integers (the caller picks the unit; micrometres
//! suit a room-sized scene) and camera axes are fixed-point. `ray` builds the
//! ray from the camera through the cursor, `plane` projects a ray onto the
//! drag plane, `pick` selects the nearest of the candidates that a ray hits,
//! with hit distances given as `f32` bit patterns that `toi` orders, and
//! `drag` is the select-and-drag state machine. `controls` maps keys to
//! movements, `hud` lays out the button grid and `arm` describes the jointed
//! arm.
mod arith;
pub mod arm;
pub mod controls;
pub mod drag;
pub mod hud;
pub mod motion;
pub mod pick;
pub mod plane;
pub mod ray;
pub mod toi;

pub use arm::{arm_joints, is_moving, rest_angles, JointKind, JointSpec, ARM_LINKS};
pub use controls::{
    boost_exponent, fly_direction, ik_nudge, key_axis, pan_direction, shifted_axis, view_mode_switch,
    view_params, ViewMode, ViewParams, INITIAL_VIEW,
};
pub use drag::{DragState, Request, SelectedIkCube};
pub use hud::{button_cell, button_cells, button_position, BUTTON_PITCH_UM, BUTTON_RAISE_UM, GRID_ORIGIN_UM, GRID_SIDE};
pub use motion::approach;
pub use pick::nearest_hit;
pub use plane::{intersect_half_space, MAX_RESULT};
pub use ray::{
    cursor_ray, projection_kind, CameraPose, CursorRay, Lens, Point3, Projection, MAX_COORD, MAX_DIRECTION, MAX_LENS,
    ONE_BITS, UNIT,
};
pub use toi::{is_nan, rank_of, toi_less, INFINITY_BITS, SIGN_BIT};
