use vibe_asteroid::entities::{Asteroid, AsteroidSize, Bullet, Particle, Ship};
use vibe_asteroid::types::Vector2D;

fn still_small_asteroid(x: i64, y: i64) -> Asteroid {
    Asteroid {
        position: Vector2D::new(x, y),
        velocity: Vector2D::new(0, 0),
        size: AsteroidSize::Small,
        shape: vec![(0, 0), (1000, 0), (0, 1000), (1000, 1000)],
        display_char: 'o',
    }
}

#[test]
fn new_ship_is_centered_at_rest_facing_up() {
    let s = Ship::new(40000, 12000);
    assert_eq!(s.position.x, 40000);
    assert_eq!(s.position.y, 12000);
    assert_eq!(s.velocity, Vector2D::new(0, 0));
    assert_eq!(s.angle, 2700);
    assert_eq!(s.angular_velocity, 0);
    assert_eq!(s.shield_count, 0);
    assert_eq!(s.max_health, 1);
    assert_eq!(s.fire_rate_multiplier, 1000);
    assert_eq!(s.booster_multiplier, 1000);
    assert_eq!(s.ship_size_multiplier, 1000);
}

#[test]
fn ship_update_integrates_and_applies_friction() {
    let mut s = Ship::new(40000, 12000);
    s.velocity = Vector2D::new(1000, -500);
    s.update(80, 24);
    assert_eq!(s.position.x, 41000);
    assert_eq!(s.position.y, 11500);
    assert_eq!(s.velocity.x, 980);
    assert_eq!(s.velocity.y, -490);
}

#[test]
fn ship_update_wraps_across_the_field_edges() {
    let mut s = Ship::new(79_900, 100);
    s.velocity = Vector2D::new(500, -500);
    s.update(80, 24);
    assert_eq!(s.position.x, 400);
    assert_eq!(s.position.y, 23_600);
    assert!(s.position.x >= 0 && s.position.x < 80_000);
    assert!(s.position.y >= 0 && s.position.y < 24_000);
}

#[test]
fn ship_rotation_is_inertial_and_decays() {
    let mut s = Ship::new(40000, 12000);
    s.rotate(1);
    assert_eq!(s.angular_velocity, 57);
    assert_eq!(s.angle, 2700);
    s.update(80, 24);
    assert_eq!(s.angle, 2757);
    assert_eq!(s.angular_velocity, 51); // 57 * 900 / 1000, rounded down
    s.rotate(-1);
    assert_eq!(s.angular_velocity, -6);
}

#[test]
fn thrust_accelerates_along_the_facing_direction() {
    let mut s = Ship::new(40000, 12000);
    // facing up (2700 tenth-degrees): cosine 0, sine -1000
    s.thrust();
    assert_eq!(s.velocity.x, 0);
    assert_eq!(s.velocity.y, -50);
    s.thrust();
    assert_eq!(s.velocity.y, -100);
    assert_eq!(s.position.x, 40000);
}

#[test]
fn ship_cells_follow_the_rotated_triangle() {
    let s = Ship::new(10000, 10000);
    let coords = s.get_absolute_coords();
    assert_eq!(coords, vec![(9, 10), (10, 11), (10, 9)]);
}

#[test]
fn scaled_shape_grows_with_the_size_multiplier() {
    let mut s = Ship::new(10000, 10000);
    s.ship_size_multiplier = 2000;
    let shape = s.get_scaled_shape();
    assert_eq!(shape, vec![(0, -2000), (-2000, 0), (2000, 0)]);
}

#[test]
fn rotated_char_picks_the_quadrant_glyph() {
    assert_eq!(Ship::get_rotated_char(0, -1000, 0), '>');
    assert_eq!(Ship::get_rotated_char(0, -1000, 900), 'v');
    assert_eq!(Ship::get_rotated_char(0, -1000, 1800), '<');
    assert_eq!(Ship::get_rotated_char(0, -1000, 2700), '^');
    assert_eq!(Ship::get_rotated_char(-1000, 0, 0), '\\');
    assert_eq!(Ship::get_rotated_char(1000, 0, 0), '/');
    assert_eq!(Ship::get_rotated_char(500, 500, 0), ' ');
}

#[test]
fn asteroid_update_wraps_position() {
    let mut a = still_small_asteroid(79_800, 100);
    a.velocity = Vector2D::new(400, -200);
    a.update(80, 24);
    assert_eq!(a.position.x, 200);
    assert_eq!(a.position.y, 23_900);
    assert!(a.position.x >= 0 && a.position.x < 80_000);
}

#[test]
fn asteroid_cells_cover_its_shape() {
    let a = still_small_asteroid(5000, 5000);
    let coords = a.get_absolute_coords();
    assert_eq!(coords, vec![(5, 5), (6, 5), (5, 6), (6, 6)]);
}

#[test]
fn bullet_lifetime_burns_down_and_wraps() {
    let b0 = Bullet::new(Vector2D::new(1000, 1000), Vector2D::new(2000, 0), 1000);
    assert_eq!(b0.lifetime, 30);
    assert_eq!(b0.display_char, '*');
    let mut b = b0;
    b.update(80, 24);
    assert_eq!(b.lifetime, 29);
    assert_eq!(b.position.x, 3000);
    let mut edge = Bullet::new(Vector2D::new(79_500, 0), Vector2D::new(1000, 0), 1000);
    edge.update(80, 24);
    assert_eq!(edge.position.x, 500);
}

#[test]
fn particle_drifts_without_wrapping_and_expires() {
    let mut p = Particle::new(Vector2D::new(500, 500), Vector2D::new(-1000, 0), 2, '.');
    p.update();
    assert_eq!(p.position.x, -500);
    assert_eq!(p.lifetime, 1);
    p.update();
    assert_eq!(p.lifetime, 0);
}
