use topdown::color::{
    mob_color, player_color, sensor_alert_color, sensor_color, sensor_idle_color, Hsla,
};
use topdown::input::{input_direction, plan_thrust, any_held, Direction, Key, Thrust};
use topdown::motion::{decay_factor, impulse_scale, DECAY_SCALE, NANOS_PER_SECOND};
use topdown::world::{Kind, Shape, Sprite, World, CAMERA_ZOOM};

#[test]
fn sensor_idle_when_nothing_overlaps() {
    assert_eq!(sensor_color(0), Hsla::new(0, 0, 100, 5));
    assert_eq!(sensor_color(0), sensor_idle_color());
}

#[test]
fn sensor_alert_for_one_or_many_overlaps() {
    let alert = Hsla::new(60, 50, 50, 50);
    assert_eq!(sensor_color(1), alert);
    assert_eq!(sensor_color(2), alert);
    assert_eq!(sensor_color(1000), alert);
    assert_eq!(sensor_color(usize::MAX), sensor_alert_color());
    assert_ne!(sensor_color(1), sensor_color(0));
}

#[test]
fn palette_values() {
    assert_eq!(player_color(), Hsla::new(200, 95, 50, 100));
    assert_eq!(mob_color(), Hsla::opaque(9, 75, 55));
}

#[test]
fn no_keys_coast() {
    assert_eq!(plan_thrust(&vec![]), Thrust::Coast);
}

#[test]
fn opposing_keys_coast() {
    assert_eq!(plan_thrust(&vec![Key::Up, Key::Down]), Thrust::Coast);
    assert_eq!(plan_thrust(&vec![Key::W, Key::S]), Thrust::Coast);
    assert_eq!(plan_thrust(&vec![Key::A, Key::Right, Key::Up, Key::S]), Thrust::Coast);
}

#[test]
fn each_axis_key() {
    assert_eq!(input_direction(&vec![Key::W]), Direction { x: 0, y: 1 });
    assert_eq!(input_direction(&vec![Key::Up]), Direction { x: 0, y: 1 });
    assert_eq!(input_direction(&vec![Key::S]), Direction { x: 0, y: -1 });
    assert_eq!(input_direction(&vec![Key::Down]), Direction { x: 0, y: -1 });
    assert_eq!(input_direction(&vec![Key::D]), Direction { x: 1, y: 0 });
    assert_eq!(input_direction(&vec![Key::Right]), Direction { x: 1, y: 0 });
    assert_eq!(input_direction(&vec![Key::A]), Direction { x: -1, y: 0 });
    assert_eq!(input_direction(&vec![Key::Left]), Direction { x: -1, y: 0 });
}

#[test]
fn both_bindings_of_one_axis_count_once() {
    assert_eq!(input_direction(&vec![Key::W, Key::Up]), Direction { x: 0, y: 1 });
}

#[test]
fn diagonal_push() {
    let t = plan_thrust(&vec![Key::W, Key::D]);
    assert_eq!(t, Thrust::Push(Direction { x: 1, y: 1 }));
    if let Thrust::Push(d) = t {
        assert!(d.is_diagonal());
        assert!(!d.is_zero());
    }
    assert!(!Direction { x: 0, y: -1 }.is_diagonal());
}

#[test]
fn any_held_finds_either_binding() {
    assert!(any_held(&vec![Key::A, Key::Left], Key::Left, Key::A));
    assert!(any_held(&vec![Key::D, Key::Up], Key::Up, Key::W));
    assert!(!any_held(&vec![Key::D, Key::Up], Key::Down, Key::S));
}

#[test]
fn zero_frame_decay_is_one() {
    assert_eq!(decay_factor(0), DECAY_SCALE as i128);
    let v = 1.25f32 * (decay_factor(0) as f32 / DECAY_SCALE as f32);
    assert_eq!(v, 1.25f32);
}

#[test]
fn twentieth_second_halves_velocity() {
    let f = decay_factor(50_000_000);
    assert_eq!(f, 50_000_000);
    let mut position = 2.0f32;
    let mut velocity = 1.0f32;
    position += velocity;
    velocity *= f as f32 / DECAY_SCALE as f32;
    assert_eq!(position, 3.0);
    assert_eq!(velocity, 0.5);
}

#[test]
fn long_frame_reverses_velocity() {
    assert_eq!(decay_factor(DECAY_SCALE), 0);
    assert_eq!(decay_factor(200_000_000), -100_000_000);
    assert!(decay_factor(100_000_001) < 0);
    assert_eq!(decay_factor(u64::MAX), 100_000_000i128 - u64::MAX as i128);
}

#[test]
fn impulse_is_time_times_acceleration() {
    assert_eq!(impulse_scale(0, 40), 0);
    assert_eq!(impulse_scale(NANOS_PER_SECOND, 40), 40_000_000_000);
    assert_eq!(impulse_scale(16_000_000, 40), 640_000_000);
    assert_eq!(impulse_scale(u64::MAX, u32::MAX), u64::MAX as u128 * u32::MAX as u128);
}

#[test]
fn startup_world_census() {
    let w = World::startup();
    assert_eq!(w.entities.len(), 4);
    assert_eq!(w.count(Kind::Camera), 1);
    assert_eq!(w.count(Kind::Player), 1);
    assert_eq!(w.count(Kind::Sensor), 1);
    assert_eq!(w.count(Kind::Mob), 1);
    assert_eq!(w.zoom, CAMERA_ZOOM);
    assert_eq!(CAMERA_ZOOM, 50);
}

#[test]
fn startup_world_attributes() {
    let w = World::startup();
    let p = w.find(Kind::Player).unwrap();
    let player = w.entities[p];
    assert_eq!(player.acceleration, 40);
    assert_eq!(player.sprite, Some(Sprite { side: 1, color: Hsla::opaque(200, 95, 50) }));
    assert!(player.is_controllable());
    assert!(player.has_velocity());
    assert_eq!(w.world_position(p), (0, 0));

    let s = w.find(Kind::Sensor).unwrap();
    let sensor = w.entities[s];
    assert_eq!(sensor.parent, Some(p));
    assert_eq!(sensor.shape, Shape::OverlapSquare(3));
    assert_eq!(sensor.sprite.unwrap().side, 3);
    assert_eq!(sensor.sprite.unwrap().color, Hsla::new(0, 0, 100, 5));
    assert!(sensor.is_hitbox());
    assert!(!sensor.has_velocity());
    assert_eq!(w.world_position(s), w.world_position(p));

    let m = w.find(Kind::Mob).unwrap();
    let mob = w.entities[m];
    assert_eq!(w.world_position(m), (3, 0));
    assert_eq!(mob.shape, Shape::SolidSquare(1));
    assert_eq!(mob.sprite, Some(Sprite { side: 1, color: Hsla::opaque(9, 75, 55) }));
    assert!(!mob.is_controllable());
    assert!(!mob.has_velocity());

    let c = w.find(Kind::Camera).unwrap();
    assert_eq!(w.entities[c].sprite, None);
}

#[test]
fn queries_by_kind() {
    let w = World::startup();
    assert_eq!(w.indices_of(Kind::Player), vec![1]);
    assert_eq!(w.indices_of(Kind::Sensor), vec![2]);
    let mut empty = World { entities: vec![], zoom: 1 };
    assert_eq!(empty.find(Kind::Mob), None);
    assert_eq!(empty.count(Kind::Mob), 0);
    empty.entities.push(w.entities[3]);
    empty.entities.push(w.entities[3]);
    assert_eq!(empty.count(Kind::Mob), 2);
    assert_eq!(empty.indices_of(Kind::Mob), vec![0, 1]);
}

#[test]
fn child_position_adds_offset() {
    let mut w = World::startup();
    w.entities[1].x = -4;
    w.entities[1].y = 7;
    w.entities[2].x = 1;
    assert_eq!(w.world_position(1), (-4, 7));
    assert_eq!(w.world_position(2), (-3, 7));
}
