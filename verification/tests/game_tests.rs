use vibe_asteroid::constants::{
    GAME_SPEED_LIMIT, INITIAL_GAME_SPEED_MULTIPLIER, MULT_LIMIT, VEL_LIMIT,
};
use vibe_asteroid::entities::{Asteroid, AsteroidSize, Bullet, Particle};
use vibe_asteroid::game::{banner_text, GameState, InputEvent};
use vibe_asteroid::types::Vector2D;
use vibe_asteroid::upgrades::{Upgrade, UpgradeBox, UpgradeType};

fn quiet_state() -> GameState {
    // a frame index that triggers no asteroid or box spawn for a while
    let mut gs = GameState::new(80, 24, 7, None);
    gs.frame_count = 7;
    gs.last_shot_frame = 7;
    gs.last_hit_frame = 7;
    gs
}

fn still_asteroid(x: i64, y: i64, size: AsteroidSize) -> Asteroid {
    let (shape, display_char) = match size {
        AsteroidSize::Large => (
            vec![
                (0, 0),
                (-2000, -1000),
                (-1000, -2000),
                (1000, -2000),
                (2000, -1000),
                (2000, 1000),
                (1000, 2000),
                (-1000, 2000),
                (-2000, 1000),
            ],
            '@',
        ),
        AsteroidSize::Medium => (
            vec![
                (0, 0),
                (-1000, -1000),
                (0, -1000),
                (1000, -1000),
                (-1000, 0),
                (1000, 0),
                (-1000, 1000),
                (0, 1000),
                (1000, 1000),
            ],
            'O',
        ),
        AsteroidSize::Small => (vec![(0, 0), (1000, 0), (0, 1000), (1000, 1000)], 'o'),
    };
    Asteroid {
        position: Vector2D::new(x, y),
        velocity: Vector2D::new(0, 0),
        size,
        shape,
        display_char,
    }
}

fn still_bullet(x: i64, y: i64) -> Bullet {
    Bullet::new(Vector2D::new(x, y), Vector2D::new(0, 0), 1000)
}

#[test]
fn new_game_state_has_the_initial_difficulty() {
    let gs = GameState::new(80, 24, 1, None);
    assert_eq!(gs.asteroid_spawn_rate, 100);
    assert_eq!(gs.max_asteroids, 4);
    assert_eq!(gs.difficulty_increase_timer, 0);
    assert_eq!(gs.game_speed_multiplier, INITIAL_GAME_SPEED_MULTIPLIER);
    assert_eq!(gs.player_health, 1);
    assert_eq!(gs.score, 0);
    assert!(gs.running);
    assert_eq!(gs.ship.position, Vector2D::new(40_000, 12_000));
}

#[test]
fn cooldown_allows_only_one_bullet_within_the_window() {
    let mut gs = quiet_state();
    gs.frame_count = 100;
    gs.last_shot_frame = 50;
    gs.handle_input(Some(InputEvent::Fire));
    assert_eq!(gs.bullets.len(), 1);
    assert_eq!(gs.last_shot_frame, 100);
    // a second fire input fewer than the cooldown's frames later
    gs.frame_count = 105;
    gs.handle_input(Some(InputEvent::Fire));
    assert_eq!(gs.bullets.len(), 1);
    // firing works again once a full cooldown has passed
    gs.frame_count = 110;
    gs.handle_input(Some(InputEvent::Fire));
    assert_eq!(gs.bullets.len(), 2);
}

#[test]
fn fired_bullet_inherits_ship_position_and_speed_multiplier() {
    let mut gs = quiet_state();
    gs.frame_count = 100;
    gs.ship.bullet_speed_multiplier = 2000;
    gs.handle_input(Some(InputEvent::Fire));
    let b = &gs.bullets[0];
    assert_eq!(b.position, gs.ship.position);
    // facing up: full speed 2.0 * 2.0 cells per frame straight up
    assert_eq!(b.velocity.x, 0);
    assert_eq!(b.velocity.y, -4000);
    assert_eq!(b.lifetime, 30);
}

#[test]
fn thrust_input_also_leaves_an_exhaust_particle() {
    let mut gs = quiet_state();
    gs.handle_input(Some(InputEvent::Thrust));
    assert_eq!(gs.ship.velocity.y, -50);
    assert_eq!(gs.particles.len(), 1);
    assert_eq!(gs.particles[0].display_char, '.');
    // exhaust blows opposite the facing direction
    assert_eq!(gs.particles[0].velocity.y, 500);
}

#[test]
fn quit_input_ends_the_run_and_resize_updates_the_field() {
    let mut gs = quiet_state();
    gs.handle_input(Some(InputEvent::Resize(100, 40)));
    assert_eq!(gs.terminal_width, 100);
    assert_eq!(gs.terminal_height, 40);
    gs.handle_input(Some(InputEvent::Quit));
    assert!(!gs.running);
}

#[test]
fn shield_absorbs_the_hit_before_health() {
    let mut gs = quiet_state();
    gs.frame_count = 200;
    gs.ship.shield_count = 1;
    gs.ship.max_health = 3;
    gs.player_health = 3;
    gs.asteroids.push(still_asteroid(40_000, 12_000, AsteroidSize::Small));
    gs.resolve_ship_asteroid_collisions();
    assert_eq!(gs.ship.shield_count, 0);
    assert_eq!(gs.player_health, 3);
    assert_eq!(gs.last_hit_frame, 200);
    assert_eq!(gs.asteroids.len(), 1);
}

#[test]
fn without_a_shield_the_hit_costs_one_health() {
    let mut gs = quiet_state();
    gs.frame_count = 200;
    gs.ship.max_health = 3;
    gs.player_health = 3;
    gs.asteroids.push(still_asteroid(40_000, 12_000, AsteroidSize::Small));
    gs.resolve_ship_asteroid_collisions();
    assert_eq!(gs.player_health, 2);
    assert!(gs.running);
}

#[test]
fn invincibility_window_blocks_the_second_hit() {
    let mut gs = quiet_state();
    gs.frame_count = 200;
    gs.ship.max_health = 5;
    gs.player_health = 5;
    gs.asteroids.push(still_asteroid(40_000, 12_000, AsteroidSize::Small));
    gs.resolve_ship_asteroid_collisions();
    assert_eq!(gs.player_health, 4);
    // a second overlapping frame within the window costs nothing more
    gs.frame_count = 260;
    gs.resolve_ship_asteroid_collisions();
    assert_eq!(gs.player_health, 4);
    // well past the window, damage applies again
    gs.frame_count = 400;
    gs.resolve_ship_asteroid_collisions();
    assert_eq!(gs.player_health, 3);
}

#[test]
fn two_overlapping_asteroids_in_one_frame_cost_one_decrement() {
    let mut gs = quiet_state();
    gs.frame_count = 200;
    gs.ship.max_health = 5;
    gs.player_health = 5;
    gs.asteroids.push(still_asteroid(40_000, 12_000, AsteroidSize::Small));
    gs.asteroids.push(still_asteroid(40_000, 12_000, AsteroidSize::Medium));
    gs.resolve_ship_asteroid_collisions();
    assert_eq!(gs.player_health, 4);
}

#[test]
fn score_accumulates_from_a_large_asteroid_kill() {
    let mut gs = quiet_state();
    gs.asteroids.push(still_asteroid(20_000, 12_000, AsteroidSize::Large));
    gs.bullets.push(still_bullet(20_000, 12_000));
    gs.update_game_state();
    assert_eq!(gs.score, 20);
    assert_eq!(gs.bullets.len(), 0);
    assert_eq!(gs.asteroids.len(), 2);
    for a in &gs.asteroids {
        assert!(matches!(a.size, AsteroidSize::Medium));
        assert_eq!(a.position, Vector2D::new(20_000, 12_000));
        assert!(a.velocity.x.abs() <= VEL_LIMIT);
        assert!(a.velocity.y.abs() <= VEL_LIMIT);
    }
    // the kill also bursts five explosion particles
    assert_eq!(gs.particles.len(), 5);
    assert!(gs.particles.iter().all(|p| p.display_char == '#'));
}

#[test]
fn medium_and_small_kills_score_their_own_values() {
    let mut gs = quiet_state();
    gs.asteroids.push(still_asteroid(20_000, 12_000, AsteroidSize::Medium));
    gs.bullets.push(still_bullet(20_000, 12_000));
    gs.update_game_state();
    assert_eq!(gs.score, 50);
    assert_eq!(gs.asteroids.len(), 2);
    assert!(gs.asteroids.iter().all(|a| matches!(a.size, AsteroidSize::Small)));

    let mut gs2 = quiet_state();
    gs2.asteroids.push(still_asteroid(20_000, 12_000, AsteroidSize::Small));
    gs2.bullets.push(still_bullet(20_000, 12_000));
    gs2.update_game_state();
    assert_eq!(gs2.score, 100);
    // a Small asteroid vanishes with no fragments
    assert_eq!(gs2.asteroids.len(), 0);
}

#[test]
fn one_bullet_destroys_at_most_one_asteroid() {
    let mut gs = quiet_state();
    gs.asteroids.push(still_asteroid(20_000, 12_000, AsteroidSize::Small));
    gs.asteroids.push(still_asteroid(20_000, 12_000, AsteroidSize::Small));
    gs.bullets.push(still_bullet(20_000, 12_000));
    gs.update_game_state();
    assert_eq!(gs.score, 100);
    assert_eq!(gs.asteroids.len(), 1);
}

#[test]
fn upgrade_box_breaks_open_on_the_third_hit() {
    let mut gs = quiet_state();
    gs.upgrade_boxes.push(UpgradeBox::new(20_000, 12_000));
    assert_eq!(gs.upgrade_boxes[0].hits_remaining, 3);

    gs.bullets.push(still_bullet(20_000, 12_000));
    gs.step(None);
    assert_eq!(gs.upgrade_boxes.len(), 1);
    assert_eq!(gs.upgrade_boxes[0].hits_remaining, 2);
    assert_eq!(gs.upgrades.len(), 0);

    gs.bullets.push(still_bullet(20_000, 12_000));
    gs.step(None);
    assert_eq!(gs.upgrade_boxes.len(), 1);
    assert_eq!(gs.upgrade_boxes[0].hits_remaining, 1);
    assert_eq!(gs.upgrades.len(), 0);

    gs.bullets.push(still_bullet(20_000, 12_000));
    gs.step(None);
    assert_eq!(gs.upgrade_boxes.len(), 0);
    assert!((1..=3).contains(&gs.upgrades.len()));
    for u in &gs.upgrades {
        assert_eq!(u.position, Vector2D::new(20_000, 12_000));
    }
}

#[test]
fn difficulty_escalates_after_exactly_the_interval() {
    let mut gs = GameState::new(80, 24, 3, None);
    for _ in 0..3599 {
        gs.difficulty_tick();
    }
    assert_eq!(gs.max_asteroids, 4);
    assert_eq!(gs.asteroid_spawn_rate, 100);
    assert_eq!(gs.game_speed_multiplier, 100);
    assert_eq!(gs.difficulty_increase_timer, 3599);
    gs.difficulty_tick();
    assert_eq!(gs.max_asteroids, 5);
    assert_eq!(gs.asteroid_spawn_rate, 90);
    assert_eq!(gs.game_speed_multiplier, 150);
    assert_eq!(gs.difficulty_increase_timer, 0);
}

#[test]
fn spawn_rate_decay_is_floored_at_the_minimum() {
    let mut gs = GameState::new(80, 24, 3, None);
    gs.asteroid_spawn_rate = 11;
    gs.difficulty_increase_timer = 3599;
    gs.difficulty_tick();
    assert_eq!(gs.asteroid_spawn_rate, 10);
    gs.difficulty_increase_timer = 3599;
    gs.difficulty_tick();
    assert_eq!(gs.asteroid_spawn_rate, 10);
}

#[test]
fn game_speed_multiplier_saturates_at_its_cap() {
    let mut gs = GameState::new(80, 24, 3, None);
    gs.game_speed_multiplier = GAME_SPEED_LIMIT - 20;
    gs.difficulty_increase_timer = 3599;
    gs.difficulty_tick();
    assert_eq!(gs.game_speed_multiplier, GAME_SPEED_LIMIT);
}

#[test]
fn asteroids_spawn_on_a_field_edge_with_bounded_speed() {
    let mut gs = GameState::new(80, 24, 11, None);
    gs.maybe_spawn_asteroid();
    assert_eq!(gs.asteroids.len(), 1);
    let a = &gs.asteroids[0];
    assert!(matches!(a.size, AsteroidSize::Large));
    let on_edge = a.position.y == 0
        || a.position.x == 79_000
        || a.position.y == 23_000
        || a.position.x == 0;
    assert!(on_edge);
    // Large speed range 0.3..0.8 scaled by the 0.1 multiplier
    assert!(a.velocity.x.abs() <= 80);
    assert!(a.velocity.y.abs() <= 80);
    // the cap stops further spawns
    gs.max_asteroids = 1;
    gs.maybe_spawn_asteroid();
    assert_eq!(gs.asteroids.len(), 1);
}

#[test]
fn game_over_the_frame_health_reaches_zero() {
    let mut gs = quiet_state();
    gs.frame_count = 201;
    gs.last_shot_frame = 0;
    gs.last_hit_frame = 0;
    gs.asteroids.push(still_asteroid(40_000, 12_000, AsteroidSize::Small));
    assert_eq!(gs.player_health, 1);
    gs.step(None);
    assert_eq!(gs.player_health, 0);
    assert!(!gs.running);
    assert_eq!(gs.frame_count, 202);
    // once the run is over, further steps change nothing at all
    let asteroids_before = gs.asteroids.len();
    let particles_before = gs.particles.len();
    gs.step(None);
    gs.step(Some(InputEvent::Thrust));
    assert_eq!(gs.frame_count, 202);
    assert_eq!(gs.asteroids.len(), asteroids_before);
    assert_eq!(gs.particles.len(), particles_before);
}

#[test]
fn frame_budget_stops_a_deterministic_run() {
    let mut gs = GameState::new(80, 24, 5, Some(3));
    let mut steps = 0;
    while gs.running && steps < 100 {
        gs.step(None);
        steps += 1;
    }
    assert!(!gs.running);
    assert_eq!(gs.frame_count, 3);
}

#[test]
fn health_never_exceeds_the_maximum() {
    let mut gs = quiet_state();
    gs.ship.max_health = 2;
    gs.player_health = 2;
    gs.apply_upgrade(UpgradeType::Health);
    assert_eq!(gs.player_health, 2);
    gs.apply_upgrade(UpgradeType::HealthMax);
    assert_eq!(gs.player_health, 2);
    // a ship-size pickup raises the cap and heals into it
    gs.apply_upgrade(UpgradeType::ShipSize);
    assert_eq!(gs.ship.max_health, 3);
    assert_eq!(gs.player_health, 3);
    assert!(gs.player_health <= gs.ship.max_health);
}

#[test]
fn multiplicative_upgrades_compound_and_additive_ones_add() {
    let mut gs = quiet_state();
    gs.apply_upgrade(UpgradeType::FireRate);
    assert_eq!(gs.ship.fire_rate_multiplier, 1100);
    gs.apply_upgrade(UpgradeType::FireRate);
    assert_eq!(gs.ship.fire_rate_multiplier, 1210);
    gs.apply_upgrade(UpgradeType::BulletSpeed);
    assert_eq!(gs.ship.bullet_speed_multiplier, 1100);
    gs.apply_upgrade(UpgradeType::BulletSize);
    assert_eq!(gs.ship.bullet_size_multiplier, 1500);
    gs.apply_upgrade(UpgradeType::Booster);
    assert_eq!(gs.ship.booster_multiplier, 1100);
    gs.apply_upgrade(UpgradeType::Shield);
    assert_eq!(gs.ship.shield_count, 1);
    assert_eq!(gs.ship.fire_rate_multiplier, 1210);
    assert!(gs.ship.bullet_size_multiplier <= MULT_LIMIT);
}

#[test]
fn pickups_within_the_radius_are_absorbed() {
    let mut gs = quiet_state();
    // 1.5 cells away: within the 2-cell radius
    gs.upgrades.push(Upgrade::new(
        Vector2D::new(gs.ship.position.x + 1500, gs.ship.position.y),
        UpgradeType::FireRate,
    ));
    // far across the field: stays
    gs.upgrades.push(Upgrade::new(Vector2D::new(1000, 1000), UpgradeType::Shield));
    gs.collect_upgrades();
    assert_eq!(gs.upgrades.len(), 1);
    assert!(matches!(gs.upgrades[0].upgrade_type, UpgradeType::Shield));
    assert_eq!(gs.ship.fire_rate_multiplier, 1100);
    assert_eq!(gs.ship.shield_count, 0);
    let banner = gs.current_banner.expect("pickup raises the banner");
    assert!(matches!(banner.0, UpgradeType::FireRate));
    assert_eq!(banner.1, gs.frame_count + 60);
}

#[test]
fn expired_particles_are_pruned_in_order() {
    let mut gs = quiet_state();
    gs.particles.push(Particle::new(Vector2D::new(0, 0), Vector2D::new(100, 0), 1, 'a'));
    gs.particles.push(Particle::new(Vector2D::new(0, 0), Vector2D::new(200, 0), 3, 'b'));
    gs.particles.push(Particle::new(Vector2D::new(0, 0), Vector2D::new(300, 0), 2, 'c'));
    gs.update_particles();
    assert_eq!(gs.particles.len(), 2);
    assert_eq!(gs.particles[0].display_char, 'b');
    assert_eq!(gs.particles[0].lifetime, 2);
    assert_eq!(gs.particles[0].position.x, 200);
    assert_eq!(gs.particles[1].display_char, 'c');
    assert_eq!(gs.particles[1].lifetime, 1);
}

#[test]
fn banner_text_names_each_pickup() {
    assert_eq!(banner_text(UpgradeType::FireRate), "Fire Rate Increased!");
    assert_eq!(banner_text(UpgradeType::BulletSpeed), "Bullet Speed Increased!");
    assert_eq!(banner_text(UpgradeType::BulletSize), "Bullet Size Increased!");
    assert_eq!(banner_text(UpgradeType::Booster), "Booster Power Increased!");
    assert_eq!(banner_text(UpgradeType::Shield), "Shield Added!");
    assert_eq!(banner_text(UpgradeType::ShipSize), "Ship Size Increased!");
    assert_eq!(banner_text(UpgradeType::Health), "Health Restored!");
    assert_eq!(banner_text(UpgradeType::HealthMax), "Health Maxed!");
}

#[test]
fn a_fixed_seed_replays_the_same_run() {
    let mut a = GameState::new(80, 24, 42, Some(50));
    let mut b = GameState::new(80, 24, 42, Some(50));
    for _ in 0..50 {
        a.step(Some(InputEvent::Thrust));
        b.step(Some(InputEvent::Thrust));
    }
    assert_eq!(a.score, b.score);
    assert_eq!(a.asteroids.len(), b.asteroids.len());
    for (x, y) in a.asteroids.iter().zip(b.asteroids.iter()) {
        assert_eq!(x.position, y.position);
        assert_eq!(x.velocity, y.velocity);
    }
    assert_eq!(a.ship.position, b.ship.position);
}
