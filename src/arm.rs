use vstd::prelude::*;

verus! {

/// How a joint of the arm moves.
#[derive(PartialEq, Eq, Structural, Clone, Copy, Debug)]
pub enum JointKind {
    /// Rigid mount.
    Fixed,
    /// Turns about its local x axis.
    RotateX,
    /// Turns about its local y axis.
    RotateY,
    /// Turns about its local z axis.
    RotateZ,
}

/// One link of the serial chain: its kind and its offset from the parent
/// joint in millimetres.
#[derive(PartialEq, Eq, Structural, Clone, Copy, Debug)]
pub struct JointSpec {
    pub kind: JointKind,
    pub x_mm: i32,
    pub y_mm: i32,
    pub z_mm: i32,
}

/// Number of links in the chain: a fixed mount and seven moving joints.
pub const ARM_LINKS: usize = 8;

/// The chain from the mount to the wrist, each link the child of the one
/// before: mount, shoulder pitch, roll and yaw, elbow pitch, wrist yaw,
/// pitch and roll.
pub open spec fn arm_spec() -> Seq<JointSpec> {
    seq![
        JointSpec { kind: JointKind::Fixed, x_mm: 0i32, y_mm: 0i32, z_mm: 600i32 },
        JointSpec { kind: JointKind::RotateY, x_mm: 0i32, y_mm: 100i32, z_mm: 0i32 },
        JointSpec { kind: JointKind::RotateX, x_mm: 0i32, y_mm: 100i32, z_mm: 0i32 },
        JointSpec { kind: JointKind::RotateZ, x_mm: 0i32, y_mm: 0i32, z_mm: -300i32 },
        JointSpec { kind: JointKind::RotateY, x_mm: 0i32, y_mm: 0i32, z_mm: -150i32 },
        JointSpec { kind: JointKind::RotateZ, x_mm: 0i32, y_mm: 0i32, z_mm: -150i32 },
        JointSpec { kind: JointKind::RotateY, x_mm: 0i32, y_mm: 0i32, z_mm: -150i32 },
        JointSpec { kind: JointKind::RotateX, x_mm: 0i32, y_mm: 0i32, z_mm: -100i32 },
    ]
}

/// Rest angles of the seven moving joints, in milliradians.
pub open spec fn rest_angles_spec() -> Seq<i32> {
    seq![200i32, 200i32, 0i32, -1500i32, 0i32, -300i32, 0i32]
}

/// The links of the arm, mount first.
pub fn arm_joints() -> (r: Vec<JointSpec>)
    ensures
        r@ == arm_spec(),
        r@.len() == ARM_LINKS,
{
    let r = vec![
        JointSpec { kind: JointKind::Fixed, x_mm: 0, y_mm: 0, z_mm: 600 },
        JointSpec { kind: JointKind::RotateY, x_mm: 0, y_mm: 100, z_mm: 0 },
        JointSpec { kind: JointKind::RotateX, x_mm: 0, y_mm: 100, z_mm: 0 },
        JointSpec { kind: JointKind::RotateZ, x_mm: 0, y_mm: 0, z_mm: -300 },
        JointSpec { kind: JointKind::RotateY, x_mm: 0, y_mm: 0, z_mm: -150 },
        JointSpec { kind: JointKind::RotateZ, x_mm: 0, y_mm: 0, z_mm: -150 },
        JointSpec { kind: JointKind::RotateY, x_mm: 0, y_mm: 0, z_mm: -150 },
        JointSpec { kind: JointKind::RotateX, x_mm: 0, y_mm: 0, z_mm: -100 },
    ];
    assert(r@ =~= arm_spec());
    r
}

/// The angles the arm starts in and is reset to, one per moving joint.
pub fn rest_angles() -> (r: Vec<i32>)
    ensures
        r@ == rest_angles_spec(),
        r@.len() == ARM_LINKS - 1,
{
    let r = vec![200, 200, 0, -1500, 0, -300, 0];
    assert(r@ =~= rest_angles_spec());
    r
}

/// Whether a link of the arm moves, so that it takes one of the angles.
pub fn is_moving(j: JointSpec) -> (r: bool)
    ensures
        r == (j.kind != JointKind::Fixed),
{
    match j.kind {
        JointKind::Fixed => false,
        _ => true,
    }
}

} // verus!
