use physics_game::draw::{Color, DrawCommand, Rectangle};
use physics_game::game::enemy::{
    Enemy, ENEMY_BODY_HEIGHT, ENEMY_BODY_WIDTH, ENEMY_DENSITY, ENEMY_RENDER_HEIGHT,
    ENEMY_RENDER_WIDTH,
};
use physics_game::geometry::{Pose, Vector2};
use physics_game::sprite::Sprite;
use physics_game::world::{Body, Cuboid, World};

#[test]
fn the_enemy_constants_have_their_values() {
    assert_eq!(ENEMY_BODY_WIDTH, 15_000);
    assert_eq!(ENEMY_BODY_HEIGHT, 15_000);
    assert_eq!(ENEMY_RENDER_WIDTH, 30_000);
    assert_eq!(ENEMY_RENDER_HEIGHT, 30_000);
    assert_eq!(ENEMY_DENSITY, 1_000);
}

#[test]
fn a_new_enemy_registers_a_dynamic_frictionless_box() {
    let mut world = World::new(5, Vector2::new(0, 90_810));
    let enemy = Enemy::new(&mut world, (50_000, 250_000));
    assert_eq!(enemy.shape, Rectangle { color: Color { r: 1000, g: 0, b: 0, a: 1000 } });
    assert_eq!(enemy.body.index(), 0);
    assert_eq!(enemy.body.world(), 5);
    assert_eq!(
        world.body(enemy.body),
        Some(Body {
            shape: Cuboid { half_extents: Vector2 { x: 15_000, y: 15_000 } },
            density: 1_000,
            friction: 0,
            restitution: 0,
            is_static: false,
            pose: Pose { translation: Vector2 { x: 50_000, y: 250_000 }, rotation: 0 },
        })
    );
    assert!(world.pending_forces().is_empty());
}

#[test]
fn an_enemy_is_drawn_as_a_red_square_centred_on_its_body() {
    let mut world = World::new(5, Vector2::zero());
    let enemy = Enemy::new(&mut world, (50_000, 250_000));
    assert_eq!(
        enemy.render(&world),
        Some(DrawCommand::Rectangle {
            color: Color { r: 1000, g: 0, b: 0, a: 1000 },
            x: 35_000,
            y: 235_000,
            width: 30_000,
            height: 30_000,
        })
    );
}

#[test]
fn an_enemy_without_a_body_draws_nothing() {
    let mut home = World::new(5, Vector2::zero());
    let away = World::new(6, Vector2::zero());
    let enemy = Enemy::new(&mut home, (50_000, 250_000));
    assert_eq!(enemy.render(&away), None);
}

#[test]
fn an_enemy_renders_the_same_through_the_sprite_trait() {
    let mut world = World::new(5, Vector2::zero());
    let enemy = Enemy::new(&mut world, (-4_000, 9_000));
    assert_eq!(Sprite::render(&enemy, &world), Enemy::render(&enemy, &world));
    assert!(Sprite::render(&enemy, &world).is_some());
}
