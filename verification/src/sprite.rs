//! Things that are drawn where a body of the world is.

use vstd::prelude::*;
use crate::draw::{DrawCommand, Rectangle};
use crate::geometry::{clamp_i64, saturating_sub, Pose};
use crate::world::{BodyHandle, World, WorldView};

verus! {

/// The rectangle drawn for a body at `pose` whose collider reaches
/// `half_width` and `half_height` from its origin: the corner lies that far
/// up and left of the origin, so that a rectangle of twice the size has the
/// origin at its centre. A corner that would leave the `i64` range stops at
/// its end.
pub open spec fn frame_around(
    shape: Rectangle,
    pose: Pose,
    half_width: i64,
    half_height: i64,
    width: i64,
    height: i64,
) -> DrawCommand {
    DrawCommand::Rectangle {
        color: shape.color,
        x: clamp_i64(pose.translation.x - half_width) as i64,
        y: clamp_i64(pose.translation.y - half_height) as i64,
        width,
        height,
    }
}

/// What is drawn for the body that `body` names in `world`: its frame if
/// the handle resolves, nothing if it does not.
pub open spec fn frame_of(
    shape: Rectangle,
    body: BodyHandle,
    world: WorldView,
    half_width: i64,
    half_height: i64,
    width: i64,
    height: i64,
) -> Option<DrawCommand> {
    match world.pose_of(body) {
        Some(pose) => Some(frame_around(shape, pose, half_width, half_height, width, height)),
        None => None,
    }
}

/// Looks up `body` in `world` and draws `shape` around where it is. A
/// handle that does not resolve draws nothing.
pub fn render_body(
    shape: &Rectangle,
    body: BodyHandle,
    world: &World,
    half_width: i64,
    half_height: i64,
    width: i64,
    height: i64,
) -> (cmd: Option<DrawCommand>)
    ensures
        cmd == frame_of(*shape, body, world@, half_width, half_height, width, height),
{
    match world.get_body_pose(body) {
        None => None,
        Some(pose) => {
            let x: i64 = saturating_sub(pose.translation.x, half_width);
            let y: i64 = saturating_sub(pose.translation.y, half_height);
            Some(shape.draw(x, y, width, height))
        },
    }
}

/// Away from the ends of the `i64` range, a frame that is twice as wide and
/// twice as high as the half extents has the body's origin at its centre.
pub proof fn lemma_frame_is_centred(shape: Rectangle, pose: Pose, half_width: i64, half_height: i64)
    requires
        0 <= half_width <= i64::MAX / 2,
        0 <= half_height <= i64::MAX / 2,
        pose.translation.x - half_width >= i64::MIN,
        pose.translation.y - half_height >= i64::MIN,
    ensures
        frame_around(
            shape,
            pose,
            half_width,
            half_height,
            (2 * half_width) as i64,
            (2 * half_height) as i64,
        ) matches DrawCommand::Rectangle { color, x, y, width, height } && {
            &&& color == shape.color
            &&& x + half_width == pose.translation.x
            &&& y + half_height == pose.translation.y
            &&& width == 2 * half_width
            &&& height == 2 * half_height
        },
{
}

/// Something with a fixed look that follows a body of the world.
pub trait Sprite {
    /// What this sprite draws in `world`, if anything.
    spec fn frame(&self, world: WorldView) -> Option<DrawCommand>;

    /// The draw command for this sprite as the world stands, or `None` if
    /// its body does not resolve there.
    fn render(&self, world: &World) -> (cmd: Option<DrawCommand>)
        ensures
            cmd == self.frame(world@),
    ;
}

} // verus!
