//! The game session: one world, one player, some enemies and the held keys,
//! driven by three kinds of call. A button event changes the held keys. An
//! update turns them into forces and closes the tick; the result of the step
//! comes back through `finish_step`. A render lists what to draw.

pub mod enemy;
pub mod player;

use vstd::prelude::*;
use crate::draw::{Color, DrawCommand, Rectangle};
use crate::geometry::{Pose, Vector2};
use crate::input::{after_event, Button, ButtonArgs, InputState, Key};
use crate::sprite::Sprite;
use crate::world::{
    lemma_velocity_change_concat, velocity_change, AppliedForce, Body, ContactEvent, Cuboid,
    StepOutcome, StepOutcomeView, World, WorldView,
};
use self::enemy::{enemy_body, enemy_frame, Enemy};
use self::player::{
    after_update, lemma_tick_velocity_change, player_body, player_frame, tick_forces,
    tick_velocity_change, Player,
};

verus! {

/// The identity of the session's world.
pub const WORLD_ID: u64 = 0;

/// The downward acceleration of everything that can fall.
pub const GRAVITY: i64 = 90_810;

/// Where the player starts.
pub const PLAYER_SPAWN_X: i64 = 50_000;

pub const PLAYER_SPAWN_Y: i64 = 200_000;

/// Where the enemy starts.
pub const ENEMY_SPAWN_X: i64 = 50_000;

pub const ENEMY_SPAWN_Y: i64 = 250_000;

/// Half the size of the floor: how far its collider reaches from its centre.
pub const FLOOR_HALF_WIDTH: i64 = 400_000;

pub const FLOOR_HALF_HEIGHT: i64 = 5_000;

/// The size of the floor, as a collider and as it is drawn.
pub const FLOOR_WIDTH: i64 = FLOOR_HALF_WIDTH * 2;

pub const FLOOR_HEIGHT: i64 = FLOOR_HALF_HEIGHT * 2;

/// The centre of the floor's collider.
pub const FLOOR_X: i64 = 200_000;

pub const FLOOR_Y: i64 = 400_000;

/// The top left corner of the floor as it is drawn.
pub const FLOOR_RENDER_X: i64 = 0;

pub const FLOOR_RENDER_Y: i64 = 395_000;

/// The floor's collider: a static, frictionless box that nothing can move.
pub open spec fn ground_body() -> Body {
    Body {
        shape: Cuboid { half_extents: Vector2 { x: FLOOR_HALF_WIDTH, y: FLOOR_HALF_HEIGHT } },
        density: 0,
        friction: 0,
        restitution: 0,
        is_static: true,
        pose: Pose { translation: Vector2 { x: FLOOR_X, y: FLOOR_Y }, rotation: 0 },
    }
}

/// The floor as it is drawn: a black rectangle that no body stands behind.
pub open spec fn ground_frame() -> DrawCommand {
    DrawCommand::Rectangle {
        color: Color::black(),
        x: FLOOR_RENDER_X,
        y: FLOOR_RENDER_Y,
        width: FLOOR_WIDTH,
        height: FLOOR_HEIGHT,
    }
}

/// The world of a new session: the player's body, the enemy's body and the
/// floor, in this order, under gravity.
pub open spec fn initial_world() -> WorldView {
    WorldView::empty(WORLD_ID, Vector2 { x: 0, y: GRAVITY }).with_body(
        player_body((PLAYER_SPAWN_X, PLAYER_SPAWN_Y)),
    ).with_body(enemy_body((ENEMY_SPAWN_X, ENEMY_SPAWN_Y))).with_body(ground_body())
}

/// How many of `events` say that two colliders started to touch.
pub open spec fn collisions_begun(events: Seq<ContactEvent>) -> nat
    decreases events.len(),
{
    if events.len() == 0 {
        0
    } else {
        collisions_begun(events.drop_last()) + if events.last() is Started {
            1nat
        } else {
            0nat
        }
    }
}

/// A draw command that may be missing, as a sequence of none or one.
pub open spec fn drawn(cmd: Option<DrawCommand>) -> Seq<DrawCommand> {
    match cmd {
        Some(c) => seq![c],
        None => Seq::empty(),
    }
}

/// The frames of `enemies` in `w`, in their stored order. An enemy whose
/// body does not resolve is skipped.
pub open spec fn enemy_frames(enemies: Seq<Enemy>, w: WorldView) -> Seq<DrawCommand>
    decreases enemies.len(),
{
    if enemies.len() == 0 {
        Seq::empty()
    } else {
        enemy_frames(enemies.drop_last(), w) + drawn(enemy_frame(enemies.last(), w))
    }
}

/// The session as a mathematical value.
pub struct GameView {
    pub world: WorldView,
    pub player: Player,
    pub keys: Set<Key>,
    pub enemies: Seq<Enemy>,
}

impl GameView {
    /// The session is well formed when its world is.
    pub open spec fn wf(self) -> bool {
        self.world.wf()
    }

    /// The forces that the next update hands out: what is pending already,
    /// then what the held keys ask of the player's body.
    pub open spec fn requested(self) -> Seq<AppliedForce> {
        after_update(self.world, self.player.body, self.keys).forces
    }

    /// The session after an update: the tick is closed, nothing else moved.
    pub open spec fn updated(self) -> GameView {
        GameView { world: self.world.stepped(), ..self }
    }

    /// The session after the result of a step came back.
    pub open spec fn finished(self, outcome: StepOutcomeView) -> GameView {
        GameView { world: self.world.integrated(outcome), ..self }
    }

    /// The session after one whole tick: an update, then the step's result.
    pub open spec fn ticked(self, outcome: StepOutcomeView) -> GameView {
        self.updated().finished(outcome)
    }

    /// The session after one tick for each of `outcomes`, in order.
    pub open spec fn after_ticks(self, outcomes: Seq<StepOutcomeView>) -> GameView
        decreases outcomes.len(),
    {
        if outcomes.len() == 0 {
            self
        } else {
            self.after_ticks(outcomes.drop_last()).ticked(outcomes.last())
        }
    }

    /// All the forces that the updates of those ticks hand out, in order.
    pub open spec fn requested_over(self, outcomes: Seq<StepOutcomeView>) -> Seq<AppliedForce>
        decreases outcomes.len(),
    {
        if outcomes.len() == 0 {
            Seq::empty()
        } else {
            self.requested_over(outcomes.drop_last()) + self.after_ticks(
                outcomes.drop_last(),
            ).requested()
        }
    }

    /// Everything that one render draws, in order: the cleared background,
    /// the cleared stencil, the player, the enemies, the floor.
    pub open spec fn scene(self) -> Seq<DrawCommand> {
        seq![DrawCommand::Clear(Color::light_grey()), DrawCommand::ClearStencil(0)] + drawn(
            player_frame(self.player, self.world),
        ) + enemy_frames(self.enemies, self.world) + seq![ground_frame()]
    }
}

/// Every scene starts by clearing the target and ends with the floor at
/// its fixed place and size, whatever stands in between.
pub proof fn lemma_scene_is_framed(g: GameView)
    ensures
        g.scene().len() >= 3,
        g.scene()[0] == DrawCommand::Clear(Color::light_grey()),
        g.scene()[1] == DrawCommand::ClearStencil(0),
        g.scene().last() == ground_frame(),
{
}

/// With no entity present in the world, a scene still clears the target
/// and draws the floor, and draws nothing else.
pub proof fn lemma_scene_without_entities(g: GameView)
    requires
        !g.world.resolves(g.player.body),
        forall|i: int| 0 <= i < g.enemies.len() ==> !g.world.resolves(#[trigger] g.enemies[i].body),
    ensures
        g.scene() == seq![
            DrawCommand::Clear(Color::light_grey()),
            DrawCommand::ClearStencil(0),
            ground_frame(),
        ],
{
    lemma_absent_enemies_draw_nothing(g.enemies, g.world);
    assert(g.scene() =~= seq![
        DrawCommand::Clear(Color::light_grey()),
        DrawCommand::ClearStencil(0),
        ground_frame(),
    ]);
}

proof fn lemma_absent_enemies_draw_nothing(enemies: Seq<Enemy>, w: WorldView)
    requires
        forall|i: int| 0 <= i < enemies.len() ==> !w.resolves(#[trigger] enemies[i].body),
    ensures
        enemy_frames(enemies, w) == Seq::<DrawCommand>::empty(),
    decreases enemies.len(),
{
    if enemies.len() > 0 {
        lemma_absent_enemies_draw_nothing(enemies.drop_last(), w);
        assert(!w.resolves(enemies.last().body));
    }
}

/// Ticks do not touch the player, the enemies or the held keys, and a
/// session that starts a tick with nothing pending starts every tick so.
pub proof fn lemma_ticks_keep_the_cast(g: GameView, outcomes: Seq<StepOutcomeView>)
    requires
        g.wf(),
    ensures
        g.after_ticks(outcomes).wf(),
        g.after_ticks(outcomes).player == g.player,
        g.after_ticks(outcomes).keys == g.keys,
        g.after_ticks(outcomes).enemies == g.enemies,
        g.after_ticks(outcomes).world.id == g.world.id,
        g.after_ticks(outcomes).world.bodies.len() == g.world.bodies.len(),
        g.world.accepts_force(g.player.body) ==> g.after_ticks(outcomes).world.accepts_force(
            g.player.body,
        ),
        g.world.forces.len() == 0 ==> g.after_ticks(outcomes).world.forces.len() == 0,
    decreases outcomes.len(),
{
    if outcomes.len() > 0 {
        lemma_ticks_keep_the_cast(g, outcomes.drop_last());
    }
}

/// A key held over `n` ticks has its force applied `n` times: the updates
/// of those ticks together ask for `n` times the velocity change of one
/// update, whatever the steps in between report.
pub proof fn lemma_ticks_accumulate(g: GameView, outcomes: Seq<StepOutcomeView>)
    requires
        g.wf(),
        g.world.forces.len() == 0,
        g.world.accepts_force(g.player.body),
    ensures
        velocity_change(g.requested_over(outcomes), g.player.body).0 == outcomes.len()
            * tick_velocity_change(g.keys).0,
        velocity_change(g.requested_over(outcomes), g.player.body).1 == outcomes.len()
            * tick_velocity_change(g.keys).1,
    decreases outcomes.len(),
{
    if outcomes.len() > 0 {
        let n = outcomes.len() as int;
        let before = outcomes.drop_last();
        let then = g.after_ticks(before);
        lemma_ticks_accumulate(g, before);
        lemma_ticks_keep_the_cast(g, before);
        assert(then.requested() =~= tick_forces(g.player.body, g.keys));
        lemma_tick_velocity_change(g.player.body, g.keys);
        lemma_velocity_change_concat(g.requested_over(before), then.requested(), g.player.body);
        let dx = tick_velocity_change(g.keys).0;
        let dy = tick_velocity_change(g.keys).1;
        assert(n * dx == (n - 1) * dx + dx) by (nonlinear_arith);
        assert(n * dy == (n - 1) * dy + dy) by (nonlinear_arith);
    }
}

/// Appends what `sprite` draws in `world`, if it draws anything.
fn draw_sprite<S: Sprite>(commands: &mut Vec<DrawCommand>, sprite: &S, world: &World)
    ensures
        final(commands)@ == old(commands)@ + drawn(sprite.frame(world@)),
{
    match sprite.render(world) {
        Some(cmd) => {
            commands.push(cmd);
        },
        None => {},
    }
}

/// What one update asks of whoever integrates the world, and what it saw.
#[derive(Debug)]
pub struct Tick {
    /// The forces to apply, oldest first, before advancing time by one
    /// fixed step.
    pub forces: Vec<AppliedForce>,
    /// How many pairs of colliders started to touch during the step before.
    pub collisions: usize,
}

/// The game session.
pub struct Game {
    world: World,
    player: Player,
    keys_pressed: InputState,
    enemies: Vec<Enemy>,
}

impl View for Game {
    type V = GameView;

    closed spec fn view(&self) -> GameView {
        GameView {
            world: self.world@,
            player: self.player,
            keys: self.keys_pressed@,
            enemies: self.enemies@,
        }
    }
}

impl Game {
    /// A new session: a world under gravity with the player, one enemy and
    /// the floor in it, and no key held.
    pub fn new() -> (game: Game)
        ensures
            game@.wf(),
            game@.world == initial_world(),
            game@.world.accepts_force(game@.player.body),
            game@.keys == Set::<Key>::empty(),
            game@.player.shape == (Rectangle { color: Color::black() }),
            game@.player.body.world() == WORLD_ID,
            game@.player.body.index() == 0,
            game@.enemies.len() == 1,
            game@.enemies[0].shape == (Rectangle { color: Color::red() }),
            game@.enemies[0].body.world() == WORLD_ID,
            game@.enemies[0].body.index() == 1,
    {
        let mut world = World::new(WORLD_ID, Vector2::new(0, GRAVITY));

        let player = Player::new(&mut world, (PLAYER_SPAWN_X, PLAYER_SPAWN_Y));

        let mut enemies: Vec<Enemy> = Vec::new();
        enemies.push(Enemy::new(&mut world, (ENEMY_SPAWN_X, ENEMY_SPAWN_Y)));

        Game::init_ground(&mut world);

        Game { world, player, keys_pressed: InputState::new(), enemies }
    }

    /// A session around a world that is already set up. The entities need
    /// not have a body in it: one without is never drawn and never pushed.
    pub fn with_entities(world: World, player: Player, enemies: Vec<Enemy>) -> (game: Game)
        requires
            world@.wf(),
        ensures
            game@.wf(),
            game@ == (GameView {
                world: world@,
                player,
                keys: Set::<Key>::empty(),
                enemies: enemies@,
            }),
    {
        Game { world, player, keys_pressed: InputState::new(), enemies }
    }

    pub fn world(&self) -> (world: &World)
        ensures
            world@ == self@.world,
    {
        &self.world
    }

    pub fn player(&self) -> (player: &Player)
        ensures
            *player == self@.player,
    {
        &self.player
    }

    pub fn enemies(&self) -> (enemies: &Vec<Enemy>)
        ensures
            enemies@ == self@.enemies,
    {
        &self.enemies
    }

    pub fn keys_pressed(&self) -> (keys: &InputState)
        ensures
            keys@ == self@.keys,
    {
        &self.keys_pressed
    }

    /// One tick: the player turns the held keys into forces, the contact
    /// events of the step before are looked at one by one, and the world
    /// closes the tick. With the same keys held, every tick asks for the
    /// same forces again.
    pub fn update(&mut self) -> (tick: Tick)
        requires
            old(self)@.wf(),
        ensures
            final(self)@.wf(),
            tick.forces@ == old(self)@.requested(),
            tick.collisions == collisions_begun(old(self)@.world.contacts),
            final(self)@ == old(self)@.updated(),
    {
        self.player.update(&mut self.world, &self.keys_pressed);

        let events = self.world.drain_contact_events();
        let mut collisions: usize = 0;
        let mut i: usize = 0;
        while i < events.len()
            invariant
                i <= events@.len(),
                collisions <= i,
                collisions == collisions_begun(events@.take(i as int)),
            decreases events@.len() - i,
        {
            assert(events@.take(i + 1).drop_last() =~= events@.take(i as int));
            if self.handle_contact_event(&events[i]) {
                collisions += 1;
            }
            i += 1;
        }
        assert(events@.take(i as int) =~= events@);

        let forces = self.world.step();
        Tick { forces, collisions }
    }

    /// Takes in what the step asked for by the last update produced: the
    /// new poses and the contact events for the next update to look at.
    pub fn finish_step(&mut self, outcome: StepOutcome)
        requires
            old(self)@.wf(),
        ensures
            final(self)@.wf(),
            final(self)@ == old(self)@.finished(outcome@),
    {
        self.world.finish_step(outcome);
    }

    /// Records a key going down or coming up. Buttons of other devices are
    /// ignored.
    pub fn handle_keyboard_event(&mut self, key: ButtonArgs)
        ensures
            final(self)@ == (GameView { keys: after_event(old(self)@.keys, key), ..old(self)@ }),
    {
        match key.button {
            Button::Keyboard(k) => {
                self.keys_pressed.on_button_event(k, key.state);
            },
            _ => {},
        }
    }

    /// Everything to draw for one frame, in drawing order.
    pub fn render(&self) -> (commands: Vec<DrawCommand>)
        ensures
            commands@ == self@.scene(),
    {
        let mut commands: Vec<DrawCommand> = Vec::new();
        commands.push(DrawCommand::Clear(Color::light_grey()));
        commands.push(DrawCommand::ClearStencil(0));

        draw_sprite(&mut commands, &self.player, &self.world);
        let ghost head = commands@;

        let mut i: usize = 0;
        while i < self.enemies.len()
            invariant
                i <= self.enemies@.len(),
                commands@ == head + enemy_frames(self.enemies@.take(i as int), self.world@),
            decreases self.enemies@.len() - i,
        {
            assert(self.enemies@.take(i + 1).drop_last() =~= self.enemies@.take(i as int));
            draw_sprite(&mut commands, &self.enemies[i], &self.world);
            i += 1;
        }
        assert(self.enemies@.take(i as int) =~= self.enemies@);

        commands.push(self.render_ground());
        commands
    }

    /// Looks at one contact event and says whether it is the start of a
    /// collision. Which entities the two colliders belong to is not known
    /// here, so nothing reacts to it yet.
    pub fn handle_contact_event(&self, contact_event: &ContactEvent) -> (began: bool)
        ensures
            began == (*contact_event is Started),
    {
        match contact_event {
            ContactEvent::Started(_, _) => true,
            ContactEvent::Stopped(_, _) => false,
        }
    }

    /// Registers the floor's collider.
    fn init_ground(world: &mut World)
        requires
            old(world)@.wf(),
        ensures
            final(world)@.wf(),
            final(world)@ == old(world)@.with_body(ground_body()),
    {
        let wall_shape = Cuboid { half_extents: Vector2::new(FLOOR_HALF_WIDTH, FLOOR_HALF_HEIGHT) };
        world.create_body(wall_shape, Vector2::new(FLOOR_X, FLOOR_Y), 0, 0, 0, true);
    }

    /// The floor as it is drawn.
    pub fn render_ground(&self) -> (cmd: DrawCommand)
        ensures
            cmd == ground_frame(),
    {
        let rectangle = Rectangle::new(Color::black());
        rectangle.draw(FLOOR_RENDER_X, FLOOR_RENDER_Y, FLOOR_WIDTH, FLOOR_HEIGHT)
    }
}

} // verus!
