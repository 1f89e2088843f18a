//! The player: a black box that the keyboard pushes around.

use vstd::prelude::*;
use crate::draw::{Color, DrawCommand, Rectangle};
use crate::geometry::{Pose, Vector2};
use crate::input::{InputState, Key};
use crate::sprite::{frame_of, render_body, Sprite};
use crate::world::{
    lemma_velocity_change_concat, velocity_change, AppliedForce, Body, BodyHandle, Cuboid, ForceType,
    World, WorldView,
};

verus! {

/// Half the width of the player's collider.
pub const PLAYER_BODY_WIDTH: i64 = 15_000;

/// Half the height of the player's collider.
pub const PLAYER_BODY_HEIGHT: i64 = 15_000;

/// The width at which the player is drawn.
pub const PLAYER_RENDER_WIDTH: i64 = PLAYER_BODY_WIDTH * 2;

/// The height at which the player is drawn.
pub const PLAYER_RENDER_HEIGHT: i64 = PLAYER_BODY_HEIGHT * 2;

/// The density of the player's collider.
pub const PLAYER_DENSITY: i64 = 1_000;

/// The sideways velocity change of one tick with A or D held.
pub const PLAYER_MOVE_SPEED: i64 = 5_000;

/// The upward velocity change of one tick with the space bar held.
pub const PLAYER_JUMP_SPEED: i64 = 5_000;

/// The body that a player spawned at `position` registers: a dynamic box
/// without friction and without bounce.
pub open spec fn player_body(position: (i64, i64)) -> Body {
    Body {
        shape: Cuboid { half_extents: Vector2 { x: PLAYER_BODY_WIDTH, y: PLAYER_BODY_HEIGHT } },
        density: PLAYER_DENSITY,
        friction: 0,
        restitution: 0,
        is_static: false,
        pose: Pose { translation: Vector2 { x: position.0, y: position.1 }, rotation: 0 },
    }
}

/// The velocity change of a jump. Up is the negative `y` direction.
pub open spec fn jump_force() -> Vector2 {
    Vector2 { x: 0, y: (-PLAYER_JUMP_SPEED) as i64 }
}

/// The velocity change of a move to the left.
pub open spec fn left_force() -> Vector2 {
    Vector2 { x: (-PLAYER_MOVE_SPEED) as i64, y: 0 }
}

/// The velocity change of a move to the right.
pub open spec fn right_force() -> Vector2 {
    Vector2 { x: PLAYER_MOVE_SPEED, y: 0 }
}

/// `force` as a velocity change of `body`, once if `key` is held.
pub open spec fn force_if_held(
    keys: Set<Key>,
    key: Key,
    body: BodyHandle,
    force: Vector2,
) -> Seq<AppliedForce> {
    if keys.contains(key) {
        seq![AppliedForce { body, force, kind: ForceType::VelocityChange }]
    } else {
        Seq::empty()
    }
}

/// The forces that one update applies to `body` while `keys` are held: the
/// jump for the space bar, then left for A, then right for D, each once.
pub open spec fn tick_forces(body: BodyHandle, keys: Set<Key>) -> Seq<AppliedForce> {
    force_if_held(keys, Key::space(), body, jump_force()) + force_if_held(
        keys,
        Key::a(),
        body,
        left_force(),
    ) + force_if_held(keys, Key::d(), body, right_force())
}

/// The velocity change that one update asks for while `keys` are held.
pub open spec fn tick_velocity_change(keys: Set<Key>) -> (int, int) {
    (
        (if keys.contains(Key::a()) {
            -PLAYER_MOVE_SPEED as int
        } else {
            0
        }) + (if keys.contains(Key::d()) {
            PLAYER_MOVE_SPEED as int
        } else {
            0
        }),
        if keys.contains(Key::space()) {
            -PLAYER_JUMP_SPEED as int
        } else {
            0
        },
    )
}

/// The world after one update of a player whose body is `body`. A body
/// that does not resolve, or cannot move, leaves the world untouched.
pub open spec fn after_update(w: WorldView, body: BodyHandle, keys: Set<Key>) -> WorldView {
    if w.accepts_force(body) {
        WorldView { forces: w.forces + tick_forces(body, keys), ..w }
    } else {
        w
    }
}

/// The world after `n` updates in a row with the same keys held and no step
/// in between.
pub open spec fn after_updates(w: WorldView, body: BodyHandle, keys: Set<Key>, n: nat) -> WorldView
    decreases n,
{
    if n == 0 {
        w
    } else {
        after_update(after_updates(w, body, keys, (n - 1) as nat), body, keys)
    }
}

/// What the player draws in `w`.
pub open spec fn player_frame(player: Player, w: WorldView) -> Option<DrawCommand> {
    frame_of(
        player.shape,
        player.body,
        w,
        PLAYER_BODY_WIDTH,
        PLAYER_BODY_HEIGHT,
        PLAYER_RENDER_WIDTH,
        PLAYER_RENDER_HEIGHT,
    )
}

/// The forces of one update change the velocity of the player's body by
/// exactly the configured amounts: the jump speed upwards for the space
/// bar, the move speed to the left for A and to the right for D.
pub proof fn lemma_tick_velocity_change(body: BodyHandle, keys: Set<Key>)
    ensures
        velocity_change(tick_forces(body, keys), body) == tick_velocity_change(keys),
{
    let jump = force_if_held(keys, Key::space(), body, jump_force());
    let left = force_if_held(keys, Key::a(), body, left_force());
    let right = force_if_held(keys, Key::d(), body, right_force());
    lemma_velocity_change_single(jump, body);
    lemma_velocity_change_single(left, body);
    lemma_velocity_change_single(right, body);
    lemma_velocity_change_concat(jump, left, body);
    lemma_velocity_change_concat(jump + left, right, body);
}

proof fn lemma_velocity_change_single(forces: Seq<AppliedForce>, body: BodyHandle)
    requires
        forces.len() <= 1,
    ensures
        forces.len() == 0 ==> velocity_change(forces, body) == (0int, 0int),
        forces.len() == 1 && forces[0].body == body && forces[0].kind == ForceType::VelocityChange
            ==> velocity_change(forces, body) == (forces[0].force.x as int, forces[0].force.y as int),
{
    if forces.len() == 1 {
        assert(forces.drop_last().len() == 0);
        assert(velocity_change(forces.drop_last(), body) == (0int, 0int));
        assert(forces.last() == forces[0]);
    }
}

/// Holding the same keys over `n` updates applies the forces of one update
/// `n` times. With no step in between, the velocity change that the world
/// holds for the player's body grows by `n` times that of one update:
/// nothing clamps it.
pub proof fn lemma_held_keys_accumulate(w: WorldView, body: BodyHandle, keys: Set<Key>, n: nat)
    requires
        w.accepts_force(body),
    ensures
        after_updates(w, body, keys, n).accepts_force(body),
        after_updates(w, body, keys, n).bodies == w.bodies,
        after_updates(w, body, keys, n).forces.len() == w.forces.len() + n * tick_forces(
            body,
            keys,
        ).len(),
        velocity_change(after_updates(w, body, keys, n).forces, body).0 == velocity_change(
            w.forces,
            body,
        ).0 + n * tick_velocity_change(keys).0,
        velocity_change(after_updates(w, body, keys, n).forces, body).1 == velocity_change(
            w.forces,
            body,
        ).1 + n * tick_velocity_change(keys).1,
    decreases n,
{
    if n > 0 {
        let before = after_updates(w, body, keys, (n - 1) as nat);
        lemma_held_keys_accumulate(w, body, keys, (n - 1) as nat);
        lemma_velocity_change_concat(before.forces, tick_forces(body, keys), body);
        lemma_tick_velocity_change(body, keys);
        let len = tick_forces(body, keys).len() as int;
        let dx = tick_velocity_change(keys).0;
        let dy = tick_velocity_change(keys).1;
        assert(n * len == (n - 1) * len + len) by (nonlinear_arith);
        assert(n * dx == (n - 1) * dx + dx) by (nonlinear_arith);
        assert(n * dy == (n - 1) * dy + dy) by (nonlinear_arith);
    }
}

/// A player whose body does not resolve in the world, or cannot move,
/// changes nothing, however long the keys are held.
pub proof fn lemma_absent_player_changes_nothing(
    w: WorldView,
    body: BodyHandle,
    keys: Set<Key>,
    n: nat,
)
    requires
        !w.accepts_force(body),
    ensures
        after_updates(w, body, keys, n) == w,
    decreases n,
{
    if n > 0 {
        lemma_absent_player_changes_nothing(w, body, keys, (n - 1) as nat);
    }
}

/// The player: how it looks, and which body of the world it steers.
#[derive(Clone, Copy, Debug, PartialEq, Eq, Structural)]
pub struct Player {
    pub shape: Rectangle,
    pub body: BodyHandle,
}

impl Player {
    /// What the player draws as the world stands: a black square around
    /// its body, or nothing if the body does not resolve.
    pub fn render(&self, world: &World) -> (cmd: Option<DrawCommand>)
        ensures
            cmd == player_frame(*self, world@),
    {
        render_body(
            &self.shape,
            self.body,
            world,
            PLAYER_BODY_WIDTH,
            PLAYER_BODY_HEIGHT,
            PLAYER_RENDER_WIDTH,
            PLAYER_RENDER_HEIGHT,
        )
    }

    /// Registers the player's body at `position` and returns the player.
    pub fn new(world: &mut World, position: (i64, i64)) -> (player: Player)
        requires
            old(world)@.wf(),
        ensures
            final(world)@.wf(),
            final(world)@ == old(world)@.with_body(player_body(position)),
            player.shape == (Rectangle { color: Color::black() }),
            old(world)@.issued(player.body),
            player.body.index() == old(world)@.bodies.len(),
            final(world)@.accepts_force(player.body),
    {
        let player_shape = Cuboid {
            half_extents: Vector2::new(PLAYER_BODY_WIDTH, PLAYER_BODY_HEIGHT),
        };
        let player_handle = world.create_body(
            player_shape,
            Vector2::new(position.0, position.1),
            PLAYER_DENSITY,
            0,
            0,
            false,
        );
        Player { body: player_handle, shape: Rectangle::new(Color::black()) }
    }

    /// Turns the held keys into forces on the player's body: a jump for the
    /// space bar, a push to the left for A, a push to the right for D, each
    /// applied once.
    pub fn update(&mut self, world: &mut World, keys_pressed: &InputState)
        requires
            old(world)@.wf(),
        ensures
            *final(self) == *old(self),
            final(world)@.wf(),
            final(world)@ == after_update(old(world)@, old(self).body, keys_pressed@),
    {
        if keys_pressed.is_held(Key::space()) {
            self.jump(world);
        }
        if keys_pressed.is_held(Key::a()) {
            self.move_left(world);
        }
        if keys_pressed.is_held(Key::d()) {
            self.move_right(world);
        }
        assert(world@.forces =~= after_update(old(world)@, self.body, keys_pressed@).forces);
    }

    /// Changes the velocity of the player's body by the move speed, to the
    /// left.
    pub fn move_left(&self, world: &mut World)
        requires
            old(world)@.wf(),
        ensures
            final(world)@.wf(),
            final(world)@ == old(world)@.with_force(
                self.body,
                left_force(),
                ForceType::VelocityChange,
            ),
    {
        let force = Vector2::new(-PLAYER_MOVE_SPEED, 0);
        world.apply_force(self.body, force, ForceType::VelocityChange);
    }

    /// Changes the velocity of the player's body by the move speed, to the
    /// right.
    pub fn move_right(&self, world: &mut World)
        requires
            old(world)@.wf(),
        ensures
            final(world)@.wf(),
            final(world)@ == old(world)@.with_force(
                self.body,
                right_force(),
                ForceType::VelocityChange,
            ),
    {
        let force = Vector2::new(PLAYER_MOVE_SPEED, 0);
        world.apply_force(self.body, force, ForceType::VelocityChange);
    }

    /// Changes the velocity of the player's body by the jump speed,
    /// upwards.
    pub fn jump(&self, world: &mut World)
        requires
            old(world)@.wf(),
        ensures
            final(world)@.wf(),
            final(world)@ == old(world)@.with_force(
                self.body,
                jump_force(),
                ForceType::VelocityChange,
            ),
    {
        let jump_force = Vector2::new(0, -PLAYER_JUMP_SPEED);
        world.apply_force(self.body, jump_force, ForceType::VelocityChange);
    }
}

impl Sprite for Player {
    open spec fn frame(&self, world: WorldView) -> Option<DrawCommand> {
        player_frame(*self, world)
    }

    fn render(&self, world: &World) -> (cmd: Option<DrawCommand>) {
        Player::render(self, world)
    }
}

} // verus!
