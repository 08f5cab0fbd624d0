use arcade_core::fixed::Fixed;
use arcade_core::hud::Hud;
use arcade_core::traits::{Coordinate, Draw, Position};
use arcade_core::unit::{Collectible, Enemy, Player, Point2d, Wall};

fn fx(raw: i32) -> Fixed {
    Fixed { raw }
}

fn at(x: i32, y: i32) -> Point2d<Fixed> {
    Point2d::new(fx(x), fx(y))
}

fn player_at(x: i32, y: i32) -> Player {
    let mut p = Player::builder().speed(fx(5_000)).health(100).direction(fx(10_000), fx(0)).build();
    p.set_position(at(x, y));
    p
}

#[test]
fn an_enemy_steps_toward_the_player() {
    let mut enemy = Enemy::with_speed(fx(10_000));
    assert_eq!(enemy.position(), at(0, 0));
    let player = player_at(30_000, 0);
    enemy.move_towards_player(&player);
    assert_eq!(enemy.position(), at(10_000, 0));
    let x = enemy.position().x.raw as f64 / 10_000.0;
    let y = enemy.position().y.raw as f64 / 10_000.0;
    assert!((x - 1.0).abs() < 1e-9 && y.abs() < 1e-9);
    assert_eq!(player.position(), at(30_000, 0));
}

#[test]
fn an_enemy_steps_along_the_straight_line() {
    let mut enemy = Enemy::with_speed(fx(5_000));
    enemy.set_position(at(10_000, 10_000));
    let player = player_at(40_000, 50_000);
    enemy.move_towards_player(&player);
    assert_eq!(enemy.position(), at(13_000, 14_000));
    enemy.move_towards_player(&player);
    assert_eq!(enemy.position(), at(16_000, 18_000));
}

#[test]
fn an_enemy_on_the_player_stays_there() {
    let mut enemy = Enemy::with_speed(fx(10_000));
    enemy.set_position(at(30_000, -20_000));
    let player = player_at(30_000, -20_000);
    enemy.move_towards_player(&player);
    assert_eq!(enemy.position(), at(30_000, -20_000));
}

#[test]
fn an_enemy_without_speed_stays_where_it_is() {
    let mut enemy = Enemy::default();
    assert_eq!(enemy.position(), at(0, 0));
    let player = player_at(30_000, 0);
    enemy.move_towards_player(&player);
    assert_eq!(enemy.position(), at(0, 0));
}

#[test]
fn an_enemy_may_step_past_the_player() {
    let mut enemy = Enemy::with_speed(fx(10_000));
    let player = player_at(0, 2_000);
    enemy.move_towards_player(&player);
    assert_eq!(enemy.position(), at(0, 10_000));
    enemy.move_towards_player(&player);
    assert_eq!(enemy.position(), at(0, 0));
}

#[test]
fn a_wall_stands_where_it_was_built() {
    let wall = Wall::new(7, 9);
    assert_eq!(wall.position(), Point2d::new(7, 9));
    assert_eq!(Wall::default().position(), Point2d::new(0, 0));
    assert_eq!(Wall::new(u16::MAX, 0).position(), Point2d::new(u16::MAX, 0));
}

#[test]
fn static_units_can_be_put_elsewhere() {
    let mut wall = Wall::new(7, 9);
    wall.set_position(Point2d::new(1, 2));
    assert_eq!(wall.position(), Point2d::new(1, 2));
    let mut heart = Collectible::default();
    assert_eq!(heart.position(), Point2d::new(0, 0));
    heart.set_position(Point2d::new(30, 40));
    assert_eq!(heart.position(), Point2d::new(30, 40));
}

#[test]
fn each_unit_has_its_glyph() {
    assert_eq!(Wall::new(0, 0).render(), "🧱");
    assert_eq!(Collectible::default().render(), "❤️");
    assert_eq!(Enemy::with_speed(fx(1)).render(), "👾");
}

#[test]
fn the_display_reports_score_health_and_speed() {
    let player = player_at(0, 0);
    let hud = Hud::new(7, &player, 24);
    assert_eq!(hud.position(), Point2d::new(0, 24));
    assert_eq!(hud.render(), "Score: 7 Health: 100 Speed: 0.5");
    assert_eq!(hud.render(), format!("Score: {} Health: {} Speed: {}", 7, 100, 0.5));
}

#[test]
fn the_display_follows_the_player_it_looks_at() {
    let mut player = player_at(0, 0);
    player.take_damage(58);
    player.accelerate();
    player.accelerate();
    let hud = Hud::new(4_294_967_295, &player, 0);
    assert_eq!(hud.render(), "Score: 4294967295 Health: 42 Speed: 0.7");
    let fresh = Player::default();
    assert_eq!(Hud::new(0, &fresh, 0).render(), "Score: 0 Health: 0 Speed: 0");
}

#[test]
fn the_display_can_be_pinned_elsewhere() {
    let player = player_at(0, 0);
    let mut hud = Hud::new(7, &player, 24);
    hud.set_position(Point2d::new(3, 1));
    assert_eq!(hud.position(), Point2d::new(3, 1));
    assert_eq!(hud.render(), "Score: 7 Health: 100 Speed: 0.5");
}

#[test]
fn random_cells_lie_in_their_ranges() {
    let mut rng = rand::thread_rng();
    let mut wall = Wall::new(0, 0);
    let mut heart = Collectible::default();
    let player = player_at(0, 0);
    let mut hud = Hud::new(1, &player, 0);
    for _ in 0..500 {
        wall.set_rand_position(&mut rng, 3..80, 10..24);
        assert!((3..80).contains(&wall.position().x));
        assert!((10..24).contains(&wall.position().y));
        heart.set_rand_position(&mut rng, 0..1, 65_534..65_535);
        assert_eq!(heart.position(), Point2d::new(0, 65_534));
        hud.set_rand_position(&mut rng, 100..102, 0..65_535);
        assert!((100..102).contains(&hud.position().x));
        assert!(hud.position().y < 65_535);
    }
    assert_eq!(hud.render(), "Score: 1 Health: 100 Speed: 0.5");
}

#[test]
fn random_points_lie_in_their_ranges() {
    let mut rng = rand::thread_rng();
    let mut enemy = Enemy::with_speed(fx(10_000));
    let mut player = player_at(0, 0);
    for _ in 0..500 {
        enemy.set_rand_position(&mut rng, fx(-50_000)..fx(50_000), fx(0)..fx(1));
        assert!(-50_000 <= enemy.position().x.raw && enemy.position().x.raw < 50_000);
        assert_eq!(enemy.position().y, fx(0));
        player.set_rand_position(&mut rng, fx(i32::MIN)..fx(i32::MAX), fx(10_000)..fx(10_002));
        assert!(player.position().x.raw < i32::MAX);
        assert!(player.position().y == fx(10_000) || player.position().y == fx(10_001));
    }
    assert_eq!(player.speed(), fx(5_000));
    assert_eq!(player.health(), 100);
    let target = player_at(30_000, 0);
    enemy.set_position(at(0, 0));
    enemy.move_towards_player(&target);
    assert_eq!(enemy.position(), at(10_000, 0));
}

#[test]
fn random_draws_are_not_all_the_same() {
    let mut rng = rand::thread_rng();
    let mut wall = Wall::new(0, 0);
    let mut least = false;
    let mut other = false;
    let mut xs = vec![];
    for _ in 0..400 {
        wall.set_rand_position(&mut rng, 0..1_000, 0..1_000);
        least = least || wall.position().x == 0;
        other = other || wall.position().x != 0;
        xs.push(wall.position().x);
    }
    assert!(other);
    xs.sort();
    xs.dedup();
    assert!(xs.len() > 100);
    let _ = least;
}

#[test]
fn a_coordinate_is_drawn_from_its_range() {
    let mut rng = rand::thread_rng();
    for _ in 0..200 {
        let cell = u16::sample(&mut rng, 5, 8);
        assert!((5..8).contains(&cell));
        let scalar = Fixed::sample(&mut rng, fx(-3), fx(3));
        assert!(-3 <= scalar.raw && scalar.raw < 3);
    }
}
