//! An enemy: a red box that only falls.

use vstd::prelude::*;
use crate::draw::{Color, DrawCommand, Rectangle};
use crate::geometry::{Pose, Vector2};
use crate::sprite::{frame_of, render_body, Sprite};
use crate::world::{Body, BodyHandle, Cuboid, World, WorldView};

verus! {

/// Half the width of an enemy's collider.
pub const ENEMY_BODY_WIDTH: i64 = 15_000;

/// Half the height of an enemy's collider.
pub const ENEMY_BODY_HEIGHT: i64 = 15_000;

/// The width at which an enemy is drawn.
pub const ENEMY_RENDER_WIDTH: i64 = ENEMY_BODY_WIDTH * 2;

/// The height at which an enemy is drawn.
pub const ENEMY_RENDER_HEIGHT: i64 = ENEMY_BODY_HEIGHT * 2;

/// The density of an enemy's collider.
pub const ENEMY_DENSITY: i64 = 1_000;

/// The body that an enemy spawned at `position` registers: a dynamic box
/// without friction and without bounce.
pub open spec fn enemy_body(position: (i64, i64)) -> Body {
    Body {
        shape: Cuboid { half_extents: Vector2 { x: ENEMY_BODY_WIDTH, y: ENEMY_BODY_HEIGHT } },
        density: ENEMY_DENSITY,
        friction: 0,
        restitution: 0,
        is_static: false,
        pose: Pose { translation: Vector2 { x: position.0, y: position.1 }, rotation: 0 },
    }
}

/// What an enemy draws in `w`.
pub open spec fn enemy_frame(enemy: Enemy, w: WorldView) -> Option<DrawCommand> {
    frame_of(
        enemy.shape,
        enemy.body,
        w,
        ENEMY_BODY_WIDTH,
        ENEMY_BODY_HEIGHT,
        ENEMY_RENDER_WIDTH,
        ENEMY_RENDER_HEIGHT,
    )
}

/// An enemy: how it looks, and which body of the world it is.
#[derive(Clone, Copy, Debug, PartialEq, Eq, Structural)]
pub struct Enemy {
    pub shape: Rectangle,
    pub body: BodyHandle,
}

impl Enemy {
    /// Registers the enemy's body at `position` and returns the enemy.
    pub fn new(world: &mut World, position: (i64, i64)) -> (enemy: Enemy)
        requires
            old(world)@.wf(),
        ensures
            final(world)@.wf(),
            final(world)@ == old(world)@.with_body(enemy_body(position)),
            enemy.shape == (Rectangle { color: Color::red() }),
            old(world)@.issued(enemy.body),
            enemy.body.index() == old(world)@.bodies.len(),
            final(world)@.accepts_force(enemy.body),
    {
        let enemy_shape = Cuboid {
            half_extents: Vector2::new(ENEMY_BODY_WIDTH, ENEMY_BODY_HEIGHT),
        };
        let enemy_handle = world.create_body(
            enemy_shape,
            Vector2::new(position.0, position.1),
            ENEMY_DENSITY,
            0,
            0,
            false,
        );
        Enemy { body: enemy_handle, shape: Rectangle::new(Color::red()) }
    }

    /// What the enemy draws as the world stands: a red square around its
    /// body, or nothing if the body does not resolve.
    pub fn render(&self, world: &World) -> (cmd: Option<DrawCommand>)
        ensures
            cmd == enemy_frame(*self, world@),
    {
        render_body(
            &self.shape,
            self.body,
            world,
            ENEMY_BODY_WIDTH,
            ENEMY_BODY_HEIGHT,
            ENEMY_RENDER_WIDTH,
            ENEMY_RENDER_HEIGHT,
        )
    }
}

impl Sprite for Enemy {
    open spec fn frame(&self, world: WorldView) -> Option<DrawCommand> {
        enemy_frame(*self, world)
    }

    fn render(&self, world: &World) -> (cmd: Option<DrawCommand>) {
        Enemy::render(self, world)
    }
}

} // verus!
