use gamejam::light::{Lights, WorldPosition};
use gamejam::player::{
    camera_follows_player, light_follows_player, player_movement, MoveAxes, MoveInput,
    PLAYER_LIGHT, PLAYER_SPEED,
};
use gamejam::scalar::Scalar;

fn scalar(x: f32) -> Scalar {
    Scalar::from_bits(x.to_bits())
}

fn at(x: f32, y: f32, z: f32) -> WorldPosition {
    WorldPosition { x: scalar(x), y: scalar(y), z: scalar(z) }
}

#[test]
fn movement_axes_for_every_combination_of_keys() {
    for bits in 0u8..16 {
        let input = MoveInput {
            up: bits & 1 != 0,
            down: bits & 2 != 0,
            left: bits & 4 != 0,
            right: bits & 8 != 0,
        };
        let axes = player_movement(input);
        assert_eq!(axes.x, -(input.left as i8) + input.right as i8);
        assert_eq!(axes.y, -(input.down as i8) + input.up as i8);
    }
}

#[test]
fn movement_examples() {
    let none = MoveInput { up: false, down: false, left: false, right: false };
    assert_eq!(player_movement(none), MoveAxes { x: 0, y: 0 });
    assert_eq!(player_movement(MoveInput { up: true, ..none }), MoveAxes { x: 0, y: 1 });
    assert_eq!(player_movement(MoveInput { down: true, left: true, ..none }), MoveAxes { x: -1, y: -1 });
    assert_eq!(player_movement(MoveInput { left: true, right: true, ..none }), MoveAxes { x: 0, y: 0 });
    assert_eq!(PLAYER_SPEED, 128);
}

#[test]
fn camera_takes_the_players_place_and_keeps_its_depth() {
    let moved = camera_follows_player(at(1.0, 2.0, 999.9), at(-40.0, 17.5, 10.0));
    assert_eq!(moved, at(-40.0, 17.5, 999.9));
}

#[test]
fn players_light_is_slot_zero_at_half_strength() {
    let mut lights = Lights::placeholder();
    let before = lights;
    light_follows_player(&mut lights, at(12.0, -3.0, 10.0));
    assert_eq!(PLAYER_LIGHT, 0);
    assert_eq!(lights.get(0).position, at(12.0, -3.0, 10.0));
    assert_eq!(lights.get(0).strength, scalar(0.5));
    for i in 1..16 {
        assert_eq!(lights.get(i), before.get(i));
    }
}
