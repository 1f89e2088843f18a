use physics_game::draw::{Color, DrawCommand, Rectangle};
use physics_game::game::player::{
    Player, PLAYER_BODY_HEIGHT, PLAYER_BODY_WIDTH, PLAYER_DENSITY, PLAYER_JUMP_SPEED,
    PLAYER_MOVE_SPEED, PLAYER_RENDER_HEIGHT, PLAYER_RENDER_WIDTH,
};
use physics_game::geometry::{Pose, Vector2};
use physics_game::input::{ButtonState, InputState, Key};
use physics_game::sprite::Sprite;
use physics_game::world::{AppliedForce, Body, Cuboid, ForceType, StepOutcome, World};

fn held(keys: &[Key]) -> InputState {
    let mut input = InputState::new();
    for key in keys {
        input.on_button_event(*key, ButtonState::Press);
    }
    input
}

fn velocity_change(body: physics_game::world::BodyHandle, force: Vector2) -> AppliedForce {
    AppliedForce { body, force, kind: ForceType::VelocityChange }
}

#[test]
fn the_player_constants_have_their_values() {
    assert_eq!(PLAYER_BODY_WIDTH, 15_000);
    assert_eq!(PLAYER_BODY_HEIGHT, 15_000);
    assert_eq!(PLAYER_RENDER_WIDTH, 30_000);
    assert_eq!(PLAYER_RENDER_HEIGHT, 30_000);
    assert_eq!(PLAYER_DENSITY, 1_000);
    assert_eq!(PLAYER_MOVE_SPEED, 5_000);
    assert_eq!(PLAYER_JUMP_SPEED, 5_000);
}

#[test]
fn a_new_player_registers_a_dynamic_frictionless_box() {
    let mut world = World::new(1, Vector2::new(0, 90_810));
    let player = Player::new(&mut world, (50_000, 200_000));
    assert_eq!(player.shape, Rectangle { color: Color { r: 0, g: 0, b: 0, a: 1000 } });
    assert_eq!(player.body.index(), 0);
    assert_eq!(player.body.world(), 1);
    assert_eq!(world.bodies().len(), 1);
    assert_eq!(
        world.body(player.body),
        Some(Body {
            shape: Cuboid { half_extents: Vector2 { x: 15_000, y: 15_000 } },
            density: 1_000,
            friction: 0,
            restitution: 0,
            is_static: false,
            pose: Pose { translation: Vector2 { x: 50_000, y: 200_000 }, rotation: 0 },
        })
    );
}

#[test]
fn a_new_player_applies_no_force() {
    let mut world = World::new(1, Vector2::zero());
    Player::new(&mut world, (0, 0));
    assert!(world.pending_forces().is_empty());
}

#[test]
fn update_with_no_key_held_applies_nothing() {
    let mut world = World::new(1, Vector2::zero());
    let mut player = Player::new(&mut world, (0, 0));
    player.update(&mut world, &InputState::new());
    assert!(world.pending_forces().is_empty());
}

#[test]
fn update_ignores_keys_that_steer_nothing() {
    let mut world = World::new(1, Vector2::zero());
    let mut player = Player::new(&mut world, (0, 0));
    player.update(&mut world, &held(&[Key::new(0x77), Key::new(0x73), Key::new(0x41)]));
    assert!(world.pending_forces().is_empty());
}

#[test]
fn update_with_a_held_pushes_left_exactly_once() {
    let mut world = World::new(1, Vector2::zero());
    let mut player = Player::new(&mut world, (0, 0));
    player.update(&mut world, &held(&[Key::a()]));
    assert_eq!(
        world.pending_forces().as_slice(),
        &[velocity_change(player.body, Vector2 { x: -5_000, y: 0 })]
    );
}

#[test]
fn update_with_d_held_pushes_right_exactly_once() {
    let mut world = World::new(1, Vector2::zero());
    let mut player = Player::new(&mut world, (0, 0));
    player.update(&mut world, &held(&[Key::d()]));
    assert_eq!(
        world.pending_forces().as_slice(),
        &[velocity_change(player.body, Vector2 { x: 5_000, y: 0 })]
    );
}

#[test]
fn update_with_space_held_jumps_exactly_once() {
    let mut world = World::new(1, Vector2::zero());
    let mut player = Player::new(&mut world, (0, 0));
    player.update(&mut world, &held(&[Key::space()]));
    assert_eq!(
        world.pending_forces().as_slice(),
        &[velocity_change(player.body, Vector2 { x: 0, y: -5_000 })]
    );
}

#[test]
fn update_applies_jump_then_left_then_right() {
    let mut world = World::new(1, Vector2::zero());
    let mut player = Player::new(&mut world, (0, 0));
    player.update(&mut world, &held(&[Key::d(), Key::a(), Key::space()]));
    assert_eq!(
        world.pending_forces().as_slice(),
        &[
            velocity_change(player.body, Vector2 { x: 0, y: -5_000 }),
            velocity_change(player.body, Vector2 { x: -5_000, y: 0 }),
            velocity_change(player.body, Vector2 { x: 5_000, y: 0 }),
        ]
    );
}

#[test]
fn update_twice_with_a_held_pushes_left_twice() {
    let mut world = World::new(1, Vector2::zero());
    let mut player = Player::new(&mut world, (0, 0));
    let input = held(&[Key::a()]);
    player.update(&mut world, &input);
    let once: i64 = world.pending_forces().iter().map(|f| f.force.x).sum();
    player.update(&mut world, &input);
    let twice: i64 = world.pending_forces().iter().map(|f| f.force.x).sum();
    assert_eq!(world.pending_forces().len(), 2);
    assert_eq!(once, -5_000);
    assert_eq!(twice, 2 * once);
}

#[test]
fn holding_a_key_over_many_updates_accumulates_without_a_clamp() {
    let mut world = World::new(1, Vector2::zero());
    let mut player = Player::new(&mut world, (0, 0));
    let input = held(&[Key::d(), Key::space()]);
    let n: i64 = 250;
    for _ in 0..n {
        player.update(&mut world, &input);
    }
    let pending = world.pending_forces();
    assert_eq!(pending.len(), 500);
    assert!(pending.iter().all(|f| f.body == player.body && f.kind == ForceType::VelocityChange));
    assert_eq!(pending.iter().map(|f| f.force.x).sum::<i64>(), n * 5_000);
    assert_eq!(pending.iter().map(|f| f.force.y).sum::<i64>(), n * -5_000);
}

#[test]
fn update_leaves_the_player_and_the_bodies_as_they_are() {
    let mut world = World::new(1, Vector2::zero());
    let mut player = Player::new(&mut world, (3, 4));
    let before = player;
    let bodies = world.bodies().clone();
    player.update(&mut world, &held(&[Key::a(), Key::space()]));
    assert_eq!(player, before);
    assert_eq!(world.bodies(), &bodies);
}

#[test]
fn update_of_a_player_of_another_world_changes_nothing() {
    let mut home = World::new(1, Vector2::zero());
    let mut away = World::new(2, Vector2::zero());
    let mut player = Player::new(&mut home, (0, 0));
    Player::new(&mut away, (0, 0));
    player.update(&mut away, &held(&[Key::a(), Key::d(), Key::space()]));
    assert!(away.pending_forces().is_empty());
}

#[test]
fn jump_on_a_body_at_rest_asks_for_the_jump_speed_upwards() {
    let mut world = World::new(1, Vector2::new(0, 90_810));
    let player = Player::new(&mut world, (50_000, 200_000));
    player.jump(&mut world);
    let request = world.step();
    assert_eq!(request, vec![velocity_change(player.body, Vector2 { x: 0, y: -PLAYER_JUMP_SPEED })]);
    assert_eq!(request[0].force.y, -5_000);
    assert_eq!(request[0].force.x, 0);
}

#[test]
fn move_left_and_move_right_ask_for_the_move_speed() {
    let mut world = World::new(1, Vector2::zero());
    let player = Player::new(&mut world, (0, 0));
    player.move_left(&mut world);
    player.move_right(&mut world);
    assert_eq!(
        world.step(),
        vec![
            velocity_change(player.body, Vector2 { x: -PLAYER_MOVE_SPEED, y: 0 }),
            velocity_change(player.body, Vector2 { x: PLAYER_MOVE_SPEED, y: 0 }),
        ]
    );
}

#[test]
fn the_player_is_drawn_as_a_black_square_centred_on_its_body() {
    let mut world = World::new(1, Vector2::zero());
    let player = Player::new(&mut world, (50_000, 200_000));
    assert_eq!(
        player.render(&world),
        Some(DrawCommand::Rectangle {
            color: Color { r: 0, g: 0, b: 0, a: 1000 },
            x: 35_000,
            y: 185_000,
            width: 30_000,
            height: 30_000,
        })
    );
}

#[test]
fn the_player_is_drawn_where_the_last_step_left_it() {
    let mut world = World::new(1, Vector2::zero());
    let player = Player::new(&mut world, (50_000, 200_000));
    world.step();
    world.finish_step(StepOutcome { poses: vec![Pose::translation(45_000, 200_025)], contacts: vec![] });
    match player.render(&world) {
        Some(DrawCommand::Rectangle { x, y, width, height, .. }) => {
            assert_eq!((x, y), (30_000, 185_025));
            assert_eq!((x + width / 2, y + height / 2), (45_000, 200_025));
        }
        other => panic!("expected a rectangle, got {:?}", other),
    }
}

#[test]
fn the_player_is_drawn_in_the_colour_of_its_shape() {
    let mut world = World::new(1, Vector2::zero());
    let mut player = Player::new(&mut world, (0, 0));
    player.shape = Rectangle::new(Color { r: 1, g: 2, b: 3, a: 4 });
    match player.render(&world) {
        Some(DrawCommand::Rectangle { color, .. }) => assert_eq!(color, Color { r: 1, g: 2, b: 3, a: 4 }),
        other => panic!("expected a rectangle, got {:?}", other),
    }
}

#[test]
fn a_player_without_a_body_draws_nothing() {
    let mut home = World::new(1, Vector2::zero());
    let away = World::new(2, Vector2::zero());
    let player = Player::new(&mut home, (50_000, 200_000));
    assert_eq!(player.render(&away), None);
}

#[test]
fn a_frame_at_the_end_of_the_range_does_not_wrap() {
    let mut world = World::new(1, Vector2::zero());
    let player = Player::new(&mut world, (i64::MIN + 10, i64::MAX));
    assert_eq!(
        player.render(&world),
        Some(DrawCommand::Rectangle {
            color: Color::black(),
            x: i64::MIN,
            y: i64::MAX - 15_000,
            width: 30_000,
            height: 30_000,
        })
    );
}

#[test]
fn the_player_renders_the_same_through_the_sprite_trait() {
    let mut world = World::new(1, Vector2::zero());
    let player = Player::new(&mut world, (1_000, 2_000));
    assert_eq!(Sprite::render(&player, &world), Player::render(&player, &world));
    assert!(Sprite::render(&player, &world).is_some());
}
