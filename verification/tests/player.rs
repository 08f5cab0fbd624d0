use arcade_core::fixed::Fixed;
use arcade_core::traits::{Draw, Position};
use arcade_core::unit::{Direction, Player, PlayerBuilder, Point2d};

fn fx(raw: i32) -> Fixed {
    Fixed { raw }
}

fn at(x: i32, y: i32) -> Point2d<Fixed> {
    Point2d::new(fx(x), fx(y))
}

fn player(speed: i32, health: u8, x: i32, y: i32) -> Player {
    Player::builder().speed(fx(speed)).health(health).direction(fx(x), fx(y)).build()
}

#[test]
fn a_fresh_builder_builds_a_player_at_rest() {
    let p = PlayerBuilder::new().build();
    assert_eq!(p.position(), at(0, 0));
    assert_eq!(p.speed(), fx(0));
    assert_eq!(p.health(), 0);
    assert_eq!(p.direction(), Direction::NORTH);
    assert!(!p.is_alive());
    let q = Player::default();
    assert_eq!(q.position(), at(0, 0));
    assert_eq!(q.speed(), fx(0));
    assert_eq!(q.health(), 0);
    assert_eq!(q.direction(), Direction::NORTH);
}

#[test]
fn the_builder_keeps_what_it_was_given() {
    let p = player(5_000, 100, 7_061, 7_061);
    assert_eq!(p.position(), at(0, 0));
    assert_eq!(p.speed(), fx(5_000));
    assert_eq!(p.health(), 100);
    assert_eq!(p.direction(), Direction::SOUTHEAST);
    assert!(p.is_alive());
}

#[test]
fn the_builder_reads_an_unknown_vector_as_north() {
    let p = player(5_000, 100, 3, 4);
    assert_eq!(p.direction(), Direction::NORTH);
}

#[test]
fn the_last_setting_of_a_builder_counts() {
    let p = PlayerBuilder::new()
        .speed(fx(1))
        .speed(fx(2_000))
        .health(1)
        .health(9)
        .direction(fx(10_000), fx(0))
        .direction(fx(-10_000), fx(0))
        .build();
    assert_eq!(p.speed(), fx(2_000));
    assert_eq!(p.health(), 9);
    assert_eq!(p.direction(), Direction::WEST);
}

#[test]
fn one_step_east_at_half_speed() {
    let mut p = player(5_000, 100, 10_000, 0);
    p.move_forward();
    assert_eq!(p.position(), at(5_000, 0));
    let x = p.position().x.raw as f64 / 10_000.0;
    let y = p.position().y.raw as f64 / 10_000.0;
    assert!((x - 0.5).abs() < 1e-9);
    assert!(y.abs() < 1e-9);
    assert_eq!(p.speed(), fx(5_000));
    assert_eq!(p.health(), 100);
    assert_eq!(p.direction(), Direction::EAST);
}

#[test]
fn one_step_along_a_diagonal() {
    let mut p = player(5_000, 1, -7_061, 7_061);
    p.set_position(at(20_000, 20_000));
    p.move_forward();
    // 0.7061 * 0.5 = 0.35305, which rounds away from zero to 0.3531.
    assert_eq!(p.position(), at(20_000 - 3_531, 20_000 + 3_531));
}

#[test]
fn a_player_at_rest_does_not_move() {
    let mut p = player(0, 1, 10_000, 0);
    p.set_position(at(12_345, -6_789));
    p.move_forward();
    assert_eq!(p.position(), at(12_345, -6_789));
}

#[test]
fn the_cell_ahead_is_found_without_moving() {
    let mut p = player(2_000, 100, 0, -10_000);
    p.set_position(at(50_000, 50_000));
    assert_eq!(p.forward_position(), Point2d::new(5u16, 5u16));
    assert_eq!(p.position(), at(50_000, 50_000));
    assert_eq!(p.speed(), fx(2_000));
    assert_eq!(p.direction(), Direction::NORTH);
}

#[test]
fn the_cell_ahead_changes_past_the_half() {
    let mut p = player(6_000, 100, 0, -10_000);
    p.set_position(at(50_000, 50_000));
    // 5.0 - 0.6 = 4.4, which rounds to 4.
    assert_eq!(p.forward_position(), Point2d::new(5u16, 4u16));
    let mut q = player(5_000, 100, 0, -10_000);
    q.set_position(at(50_000, 50_000));
    // 4.5 rounds away from zero, to 5.
    assert_eq!(q.forward_position(), Point2d::new(5u16, 5u16));
}

#[test]
fn the_cell_ahead_of_the_grid_edge_is_on_the_grid() {
    let mut p = player(9_000, 100, -10_000, 0);
    p.set_position(at(0, 0));
    assert_eq!(p.forward_position(), Point2d::new(0u16, 0u16));
}

#[test]
fn damage_beyond_the_health_stops_at_zero() {
    let mut p = player(5_000, 100, 10_000, 0);
    p.take_damage(150);
    assert_eq!(p.health(), 0);
    assert!(!p.is_alive());
    assert_eq!(p.speed(), fx(5_000));
    assert_eq!(p.direction(), Direction::EAST);
}

#[test]
fn damage_is_taken_off_the_health() {
    let mut p = player(5_000, 100, 10_000, 0);
    p.take_damage(30);
    assert_eq!(p.health(), 70);
    assert!(p.is_alive());
    p.take_damage(69);
    assert_eq!(p.health(), 1);
    assert!(p.is_alive());
    p.take_damage(1);
    assert_eq!(p.health(), 0);
    assert!(!p.is_alive());
    p.take_damage(0);
    assert_eq!(p.health(), 0);
}

#[test]
fn speeding_up_stops_short_of_one() {
    let mut p = player(5_000, 1, 10_000, 0);
    let mut seen = vec![];
    for _ in 0..20 {
        p.accelerate();
        assert!(p.speed().raw < 10_000);
        seen.push(p.speed().raw);
    }
    assert_eq!(&seen[..5], &[6_000, 7_000, 8_000, 9_000, 9_000]);
    assert_eq!(p.speed(), fx(9_000));
}

#[test]
fn speeding_up_from_between_the_steps() {
    let mut p = player(8_999, 1, 10_000, 0);
    p.accelerate();
    assert_eq!(p.speed(), fx(9_999));
    p.accelerate();
    assert_eq!(p.speed(), fx(9_999));
}

#[test]
fn slowing_down_stops_short_of_zero() {
    let mut p = player(5_000, 1, 10_000, 0);
    let mut seen = vec![];
    for _ in 0..20 {
        p.decelerate();
        assert!(p.speed().raw > 0);
        seen.push(p.speed().raw);
    }
    assert_eq!(&seen[..5], &[4_000, 3_000, 2_000, 1_000, 1_000]);
    assert_eq!(p.speed(), fx(1_000));
}

#[test]
fn slowing_down_below_one_step_does_nothing() {
    let mut p = player(500, 1, 10_000, 0);
    p.decelerate();
    assert_eq!(p.speed(), fx(500));
}

#[test]
fn a_speed_outside_the_band_is_left_alone() {
    let mut fast = player(25_000, 1, 10_000, 0);
    fast.accelerate();
    assert_eq!(fast.speed(), fx(25_000));
    fast.decelerate();
    assert_eq!(fast.speed(), fx(24_000));
    let mut back = player(-3_000, 1, 10_000, 0);
    back.decelerate();
    assert_eq!(back.speed(), fx(-3_000));
    back.accelerate();
    assert_eq!(back.speed(), fx(-2_000));
    let mut top = player(i32::MAX, 1, 10_000, 0);
    top.accelerate();
    assert_eq!(top.speed(), fx(i32::MAX));
    let mut bottom = player(i32::MIN, 1, 10_000, 0);
    bottom.decelerate();
    assert_eq!(bottom.speed(), fx(i32::MIN));
}

#[test]
fn a_turn_and_its_opposite_cancel() {
    let vectors = [
        (0, -10_000),
        (7_061, -7_061),
        (10_000, 0),
        (7_061, 7_061),
        (0, 10_000),
        (-7_061, 7_061),
        (-10_000, 0),
        (-7_061, -7_061),
    ];
    for (x, y) in vectors {
        let mut p = player(5_000, 1, x, y);
        let start = p.direction();
        p.turn_left();
        assert_ne!(p.direction(), start);
        p.turn_right();
        assert_eq!(p.direction(), start);
        p.turn_right();
        assert_ne!(p.direction(), start);
        p.turn_left();
        assert_eq!(p.direction(), start);
    }
}

#[test]
fn turning_right_goes_round_clockwise() {
    let mut p = player(5_000, 1, 0, -10_000);
    let mut seen = vec![];
    for _ in 0..8 {
        p.turn_right();
        seen.push(p.direction());
    }
    assert_eq!(
        seen,
        vec![
            Direction::NORTHEAST,
            Direction::EAST,
            Direction::SOUTHEAST,
            Direction::SOUTH,
            Direction::SOUTHWEST,
            Direction::WEST,
            Direction::NORTHWEST,
            Direction::NORTH,
        ]
    );
}

#[test]
fn turning_left_goes_round_counter_clockwise() {
    let mut p = player(5_000, 1, 0, -10_000);
    let mut seen = vec![];
    for _ in 0..8 {
        p.turn_left();
        seen.push(p.direction());
    }
    assert_eq!(
        seen,
        vec![
            Direction::NORTHWEST,
            Direction::WEST,
            Direction::SOUTHWEST,
            Direction::SOUTH,
            Direction::SOUTHEAST,
            Direction::EAST,
            Direction::NORTHEAST,
            Direction::NORTH,
        ]
    );
}

#[test]
fn turning_changes_the_heading_only() {
    let mut p = player(5_000, 42, 10_000, 0);
    p.set_position(at(1, 2));
    p.turn_left();
    assert_eq!(p.position(), at(1, 2));
    assert_eq!(p.speed(), fx(5_000));
    assert_eq!(p.health(), 42);
}

#[test]
fn the_player_is_drawn_as_the_arrow_of_its_heading() {
    let mut p = player(5_000, 1, 0, -10_000);
    let mut seen = vec![];
    for _ in 0..8 {
        seen.push(p.render());
        p.turn_right();
    }
    assert_eq!(seen, vec!["↑", "↗", "→", "↘", "↓", "↙", "←", "↖"]);
}

#[test]
fn putting_the_player_elsewhere_changes_the_position_only() {
    let mut p = player(5_000, 42, 10_000, 0);
    p.set_position(at(-70_000, 30_001));
    assert_eq!(p.position(), at(-70_000, 30_001));
    assert_eq!(p.speed(), fx(5_000));
    assert_eq!(p.health(), 42);
    assert_eq!(p.direction(), Direction::EAST);
}

#[test]
fn a_step_that_leaves_the_number_range_stops_at_its_end() {
    let mut p = player(9_000, 1, 10_000, 0);
    p.set_position(at(i32::MAX - 10, 0));
    p.move_forward();
    assert_eq!(p.position(), at(i32::MAX, 0));
}
