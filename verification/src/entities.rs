//! The moving entities of the simulation: ship, asteroids, bullets and
//! cosmetic particles.
//!
//! Every entity carries fixed-point milli-cell position and velocity
//! (see [`crate::types`]) and exposes the set of display-grid cells it
//! occupies; collision is intersection of those cell sets. Ship, asteroid
//! and bullet positions wrap on the toroidal field every update; particles
//! drift freely and simply expire.

use vstd::prelude::*;

verus! {

use crate::angle::{
    FULL_TURN,
    QUARTER_TURN,
    cos_milli,
    cos_milli_spec,
    sin_milli,
    sin_milli_spec,
    rot_x_spec,
    rot_y_spec,
    rotate_offset,
};
use crate::constants::{
    ANGULAR_VEL_LIMIT,
    BULLET_LIFETIME,
    GAME_SPEED_LIMIT,
    MAX_HEALTH,
    MULT_LIMIT,
    POS_LIMIT,
    SHIP_ANGULAR_FRICTION,
    SHIP_FRICTION,
    SHIP_ROTATION_SPEED,
    SHIP_THRUST_POWER,
    TERMINAL_ASPECT_RATIO_COMPENSATION,
    VEL_LIMIT,
    FX_SCALE,
};
use crate::rendering::GameGrid;
use crate::rng::rng_range_i64;
use crate::types::{
    Vector2D,
    clamp_i64,
    clamp_spec,
    fx_mul,
    mul_milli,
    round_cell,
    round_cell_spec,
    round_unit,
    round_unit_spec,
    scale_toward_zero,
    wrap_coordinate,
    lemma_fx_mul_nonneg_bounded,
    lemma_fx_mul_signed_bounded,
};

/// Longest particle lifetime ever spawned, in frames.
pub const PARTICLE_LIFETIME_LIMIT: u32 = 15;

/// How far a particle can drift from the field: it starts on the field and
/// moves at most `VEL_LIMIT` per remaining frame of life.
pub open spec fn particle_pos_limit(lifetime: int) -> int {
    POS_LIMIT + (PARTICLE_LIFETIME_LIMIT - lifetime) * (VEL_LIMIT as int)
}

/// Asteroid size classes; fragmentation steps strictly down the order.
#[derive(Clone, Copy, Debug, PartialEq, Eq, Structural)]
pub enum AsteroidSize {
    Large,
    Medium,
    Small,
}

/// The fixed cell-offset cluster of each asteroid size, in milli-cells.
pub open spec fn asteroid_shape_spec(size: AsteroidSize) -> Seq<(i64, i64)> {
    match size {
        AsteroidSize::Large => seq![
            (0i64, 0i64),
            (-2000i64, -1000i64),
            (-1000i64, -2000i64),
            (1000i64, -2000i64),
            (2000i64, -1000i64),
            (2000i64, 1000i64),
            (1000i64, 2000i64),
            (-1000i64, 2000i64),
            (-2000i64, 1000i64),
        ],
        AsteroidSize::Medium => seq![
            (0i64, 0i64),
            (-1000i64, -1000i64),
            (0i64, -1000i64),
            (1000i64, -1000i64),
            (-1000i64, 0i64),
            (1000i64, 0i64),
            (-1000i64, 1000i64),
            (0i64, 1000i64),
            (1000i64, 1000i64),
        ],
        AsteroidSize::Small => seq![(0i64, 0i64), (1000i64, 0i64), (0i64, 1000i64), (1000i64, 1000i64)],
    }
}

/// The glyph drawn for each asteroid size.
pub open spec fn asteroid_char_spec(size: AsteroidSize) -> char {
    match size {
        AsteroidSize::Large => '@',
        AsteroidSize::Medium => 'O',
        AsteroidSize::Small => 'o',
    }
}

/// Lowest spawn speed of each size, milli-cells per frame (before the game
/// speed multiplier): smaller asteroids fly faster by design.
pub open spec fn asteroid_speed_lo(size: AsteroidSize) -> i64 {
    match size {
        AsteroidSize::Large => 300i64,
        AsteroidSize::Medium => 800i64,
        AsteroidSize::Small => 1500i64,
    }
}

/// Highest (exclusive) spawn speed of each size, milli-cells per frame.
pub open spec fn asteroid_speed_hi(size: AsteroidSize) -> i64 {
    match size {
        AsteroidSize::Large => 800i64,
        AsteroidSize::Medium => 1500i64,
        AsteroidSize::Small => 2500i64,
    }
}

/// A velocity an asteroid of this size can spawn with: some direction, and
/// some speed from the size's range scaled by the game speed multiplier.
pub open spec fn asteroid_velocity_possible(v: Vector2D, size: AsteroidSize, gsm: int) -> bool {
    exists|a: int, s: int|
        0 <= a < FULL_TURN as int && asteroid_speed_lo(size) <= s < asteroid_speed_hi(size) && v.x
            == fx_mul(cos_milli_spec(a), fx_mul(s, gsm)) && v.y == fx_mul(
            sin_milli_spec(a),
            fx_mul(s, gsm),
        )
}

fn make_asteroid_shape(size: AsteroidSize) -> (r: Vec<(i64, i64)>)
    ensures
        r@ == asteroid_shape_spec(size),
{
    let mut v: Vec<(i64, i64)> = Vec::new();
    match size {
        AsteroidSize::Large => {
            v.push((0i64, 0i64));
            v.push((-2000i64, -1000i64));
            v.push((-1000i64, -2000i64));
            v.push((1000i64, -2000i64));
            v.push((2000i64, -1000i64));
            v.push((2000i64, 1000i64));
            v.push((1000i64, 2000i64));
            v.push((-1000i64, 2000i64));
            v.push((-2000i64, 1000i64));
            proof {
                assert(v@ =~= asteroid_shape_spec(size));
            }
        },
        AsteroidSize::Medium => {
            v.push((0i64, 0i64));
            v.push((-1000i64, -1000i64));
            v.push((0i64, -1000i64));
            v.push((1000i64, -1000i64));
            v.push((-1000i64, 0i64));
            v.push((1000i64, 0i64));
            v.push((-1000i64, 1000i64));
            v.push((0i64, 1000i64));
            v.push((1000i64, 1000i64));
            proof {
                assert(v@ =~= asteroid_shape_spec(size));
            }
        },
        AsteroidSize::Small => {
            v.push((0i64, 0i64));
            v.push((1000i64, 0i64));
            v.push((0i64, 1000i64));
            v.push((1000i64, 1000i64));
            proof {
                assert(v@ =~= asteroid_shape_spec(size));
            }
        },
    }
    v
}

/// A drifting rock. Asteroids never rotate and never change size; they are
/// destroyed (and replaced by fragments) by the collision resolver.
pub struct Asteroid {
    pub position: Vector2D,
    pub velocity: Vector2D,
    pub size: AsteroidSize,
    pub shape: Vec<(i64, i64)>,
    pub display_char: char,
}

impl Asteroid {
    pub open spec fn wf(&self) -> bool {
        &&& 0 <= self.position.x < POS_LIMIT
        &&& 0 <= self.position.y < POS_LIMIT
        &&& -VEL_LIMIT <= self.velocity.x <= VEL_LIMIT
        &&& -VEL_LIMIT <= self.velocity.y <= VEL_LIMIT
        &&& self.shape@ == asteroid_shape_spec(self.size)
        &&& self.display_char == asteroid_char_spec(self.size)
    }

    /// The display cell covered by shape point `i`.
    pub open spec fn cell_spec(&self, i: int) -> (int, int) {
        (
            round_cell_spec(self.position.x + self.shape@[i].0),
            round_cell_spec(self.position.y + self.shape@[i].1),
        )
    }

    /// Spawn an asteroid of `size` at `(x, y)`: the direction is sampled
    /// uniformly, the speed uniformly from the size's range, then scaled by
    /// the game speed multiplier.
    pub fn new(
        x: i64,
        y: i64,
        rng: &mut rand::rngs::StdRng,
        size: AsteroidSize,
        game_speed_multiplier: i64,
    ) -> (r: Asteroid)
        requires
            0 <= x < POS_LIMIT,
            0 <= y < POS_LIMIT,
            0 < game_speed_multiplier <= GAME_SPEED_LIMIT,
        ensures
            r.wf(),
            r.position.x == x,
            r.position.y == y,
            r.size == size,
            asteroid_velocity_possible(r.velocity, size, game_speed_multiplier as int),
    {
        let a: i64 = rng_range_i64(rng, 0, FULL_TURN);
        let lo: i64 = match size {
            AsteroidSize::Large => 300,
            AsteroidSize::Medium => 800,
            AsteroidSize::Small => 1500,
        };
        let hi: i64 = match size {
            AsteroidSize::Large => 800,
            AsteroidSize::Medium => 1500,
            AsteroidSize::Small => 2500,
        };
        let speed: i64 = rng_range_i64(rng, lo, hi);
        proof {
            assert(0 <= speed * game_speed_multiplier <= 1_000_000_000) by (nonlinear_arith)
                requires
                    0 < speed <= 2500,
                    0 < game_speed_multiplier <= 400_000,
            ;
        }
        let eff: i64 = mul_milli(speed, game_speed_multiplier);
        proof {
            lemma_fx_mul_nonneg_bounded(
                speed as int,
                game_speed_multiplier as int,
                2500,
                GAME_SPEED_LIMIT as int,
            );
        }
        let c: i64 = cos_milli(a);
        let s: i64 = sin_milli(a);
        proof {
            lemma_fx_mul_signed_bounded(c as int, eff as int, 1000, 1_000_000);
            lemma_fx_mul_signed_bounded(s as int, eff as int, 1000, 1_000_000);
        }
        let vx: i64 = mul_milli(c, eff);
        let vy: i64 = mul_milli(s, eff);
        let velocity = Vector2D { x: vx, y: vy };
        let shape = make_asteroid_shape(size);
        let display_char: char = match size {
            AsteroidSize::Large => '@',
            AsteroidSize::Medium => 'O',
            AsteroidSize::Small => 'o',
        };
        let r = Asteroid { position: Vector2D { x, y }, velocity, size, shape, display_char };
        proof {
            assert(asteroid_velocity_possible(r.velocity, size, game_speed_multiplier as int)) by {
                assert(0 <= (a as int) && (a as int) < (FULL_TURN as int) && asteroid_speed_lo(size)
                    <= (speed as int) && (speed as int)
                    < asteroid_speed_hi(size) && r.velocity.x == fx_mul(
                    cos_milli_spec(a as int),
                    fx_mul(speed as int, game_speed_multiplier as int),
                ) && r.velocity.y == fx_mul(
                    sin_milli_spec(a as int),
                    fx_mul(speed as int, game_speed_multiplier as int),
                ));
            }
        }
        r
    }

    /// The display cells this asteroid currently occupies.
    pub fn get_absolute_coords(&self) -> (r: Vec<(u16, u16)>)
        requires
            self.wf(),
        ensures
            r@.len() == self.shape@.len(),
            forall|i: int|
                0 <= i < r@.len() ==> (#[trigger] r@[i]).0 as int == self.cell_spec(i).0 && r@[
                    i
                ].1 as int == self.cell_spec(i).1,
    {
        let mut r: Vec<(u16, u16)> = Vec::new();
        let mut i: usize = 0;
        proof {
            lemma_asteroid_shape_bounds(self.size);
        }
        while i < self.shape.len()
            invariant
                self.wf(),
                i <= self.shape@.len(),
                r@.len() == i as int,
                forall|k: int| 0 <= k < self.shape@.len() ==>
                    -2000 <= (#[trigger] self.shape@[k]).0 <= 2000 && -2000 <= self.shape@[k].1 <= 2000,
                forall|k: int|
                    0 <= k < i as int ==> (#[trigger] r@[k]).0 as int == self.cell_spec(k).0 && r@[
                        k
                    ].1 as int == self.cell_spec(k).1,
            decreases self.shape@.len() - i,
        {
            let (dx, dy) = self.shape[i];
            let cx: u16 = round_cell(self.position.x + dx);
            let cy: u16 = round_cell(self.position.y + dy);
            r.push((cx, cy));
            i = i + 1;
        }
        r
    }

    /// Draw the asteroid's cells onto the grid.
    pub fn draw(&self, game_grid: &mut GameGrid)
        requires
            self.wf(),
            old(game_grid).wf(),
        ensures
            final(game_grid).wf(),
            final(game_grid).width == old(game_grid).width,
            final(game_grid).height == old(game_grid).height,
    {
        let coords = self.get_absolute_coords();
        let mut i: usize = 0;
        while i < coords.len()
            invariant
                game_grid.wf(),
                game_grid.width == old(game_grid).width,
                game_grid.height == old(game_grid).height,
            decreases coords@.len() - i,
        {
            let (cx, cy) = coords[i];
            game_grid.set_char(cx, cy, self.display_char);
            i = i + 1;
        }
    }

    /// Advance one frame: integrate the position and wrap it onto the field.
    pub fn update(&mut self, terminal_width: u16, terminal_height: u16)
        requires
            old(self).wf(),
            terminal_width >= 1,
            terminal_height >= 1,
        ensures
            final(self).wf(),
            final(self).position.x == (old(self).position.x + old(self).velocity.x) % (
            terminal_width as int * 1000),
            final(self).position.y == (old(self).position.y + old(self).velocity.y) % (
            terminal_height as int * 1000),
            0 <= final(self).position.x < terminal_width as int * 1000,
            0 <= final(self).position.y < terminal_height as int * 1000,
            final(self).velocity == old(self).velocity,
            final(self).size == old(self).size,
            final(self).shape == old(self).shape,
            final(self).display_char == old(self).display_char,
    {
        let px: i64 = self.position.x + self.velocity.x;
        let py: i64 = self.position.y + self.velocity.y;
        self.position.x = wrap_coordinate(px, (terminal_width as i64) * 1000);
        self.position.y = wrap_coordinate(py, (terminal_height as i64) * 1000);
    }
}

/// The fixed triangular ship outline in milli-cells: the nose and two base
/// corners.
pub open spec fn ship_shape_spec() -> Seq<(i64, i64)> {
    seq![(0i64, -1000i64), (-1000i64, 0i64), (1000i64, 0i64)]
}

/// The player's ship: inertial linear and angular motion with friction, a
/// scalable triangular outline, and the per-run upgrade multipliers.
pub struct Ship {
    pub position: Vector2D,
    pub velocity: Vector2D,
    pub angle: i64,
    pub rotation_speed: i64,
    pub thrust_power: i64,
    pub friction: i64,
    pub angular_velocity: i64,
    pub angular_friction: i64,
    pub shape: Vec<(i64, i64)>,
    pub fire_rate_multiplier: i64,
    pub bullet_speed_multiplier: i64,
    pub bullet_size_multiplier: i64,
    pub booster_multiplier: i64,
    pub shield_count: u32,
    pub ship_size_multiplier: i64,
    pub max_health: u32,
}

/// The thrust acceleration magnitude: thrust power scaled by the booster
/// multiplier, in milli-cells per frame squared.
pub open spec fn thrust_scale(s: Ship) -> int {
    fx_mul(s.thrust_power as int, s.booster_multiplier as int)
}

/// The x velocity gain of one thrust impulse at the ship's facing angle.
pub open spec fn thrust_delta_x(s: Ship) -> int {
    fx_mul(cos_milli_spec(s.angle as int), thrust_scale(s))
}

/// The y velocity gain of one thrust impulse at the ship's facing angle.
pub open spec fn thrust_delta_y(s: Ship) -> int {
    fx_mul(sin_milli_spec(s.angle as int), thrust_scale(s))
}

impl Ship {
    pub open spec fn wf(&self) -> bool {
        &&& 0 <= self.position.x < POS_LIMIT
        &&& 0 <= self.position.y < POS_LIMIT
        &&& -VEL_LIMIT <= self.velocity.x <= VEL_LIMIT
        &&& -VEL_LIMIT <= self.velocity.y <= VEL_LIMIT
        &&& 0 <= self.angle < FULL_TURN
        &&& -ANGULAR_VEL_LIMIT <= self.angular_velocity <= ANGULAR_VEL_LIMIT
        &&& self.rotation_speed == SHIP_ROTATION_SPEED
        &&& self.thrust_power == SHIP_THRUST_POWER
        &&& self.friction == SHIP_FRICTION
        &&& self.angular_friction == SHIP_ANGULAR_FRICTION
        &&& self.shape@ == ship_shape_spec()
        &&& 0 <= self.fire_rate_multiplier <= MULT_LIMIT
        &&& 0 <= self.bullet_speed_multiplier <= MULT_LIMIT
        &&& 0 <= self.bullet_size_multiplier <= MULT_LIMIT
        &&& 0 <= self.booster_multiplier <= MULT_LIMIT
        &&& 0 <= self.ship_size_multiplier <= MULT_LIMIT
        &&& self.max_health >= 1
    }

    /// Shape point `i` scaled by the ship size multiplier, in milli-cells.
    pub open spec fn scaled_point_spec(&self, i: int) -> (int, int) {
        (
            fx_mul(ship_shape_spec()[i].0 as int, self.ship_size_multiplier as int),
            fx_mul(ship_shape_spec()[i].1 as int, self.ship_size_multiplier as int),
        )
    }

    /// The display cell covered by shape point `i`: scaled, rotated by the
    /// facing angle, translated to the ship's position and rounded.
    pub open spec fn cell_spec(&self, i: int) -> (int, int) {
        let p = self.scaled_point_spec(i);
        (
            round_cell_spec(self.position.x + rot_x_spec(p.0, p.1, self.angle as int)),
            round_cell_spec(self.position.y + rot_y_spec(p.0, p.1, self.angle as int)),
        )
    }

    /// A fresh ship at `(x, y)`, facing up, at rest, with no upgrades.
    pub fn new(x: i64, y: i64) -> (r: Ship)
        requires
            0 <= x < POS_LIMIT,
            0 <= y < POS_LIMIT,
        ensures
            r.wf(),
            r.position.x == x,
            r.position.y == y,
            r.velocity == (Vector2D { x: 0, y: 0 }),
            r.angle == 3 * QUARTER_TURN,
            r.angular_velocity == 0,
            r.fire_rate_multiplier == FX_SCALE,
            r.bullet_speed_multiplier == FX_SCALE,
            r.bullet_size_multiplier == FX_SCALE,
            r.booster_multiplier == FX_SCALE,
            r.ship_size_multiplier == FX_SCALE,
            r.shield_count == 0,
            r.max_health == MAX_HEALTH,
    {
        let mut shape: Vec<(i64, i64)> = Vec::new();
        shape.push((0i64, -1000i64));
        shape.push((-1000i64, 0i64));
        shape.push((1000i64, 0i64));
        proof {
            assert(shape@ =~= ship_shape_spec());
        }
        Ship {
            position: Vector2D { x, y },
            velocity: Vector2D { x: 0, y: 0 },
            angle: 3 * QUARTER_TURN,
            rotation_speed: SHIP_ROTATION_SPEED,
            thrust_power: SHIP_THRUST_POWER,
            friction: SHIP_FRICTION,
            angular_velocity: 0,
            angular_friction: SHIP_ANGULAR_FRICTION,
            shape,
            fire_rate_multiplier: FX_SCALE,
            bullet_speed_multiplier: FX_SCALE,
            bullet_size_multiplier: FX_SCALE,
            booster_multiplier: FX_SCALE,
            shield_count: 0,
            ship_size_multiplier: FX_SCALE,
            max_health: MAX_HEALTH,
        }
    }

    /// The shape points scaled by the ship size multiplier.
    pub fn get_scaled_shape(&self) -> (r: Vec<(i64, i64)>)
        requires
            self.wf(),
        ensures
            r@.len() == 3,
            forall|i: int|
                0 <= i < 3 ==> (#[trigger] r@[i]).0 == self.scaled_point_spec(i).0 && r@[i].1
                    == self.scaled_point_spec(i).1,
            forall|i: int|
                0 <= i < 3 ==> -1_000_000_000 <= (#[trigger] r@[i]).0 <= 1_000_000_000
                    && -1_000_000_000 <= r@[i].1 <= 1_000_000_000,
    {
        let mut r: Vec<(i64, i64)> = Vec::new();
        let mut i: usize = 0;
        while i < self.shape.len()
            invariant
                self.wf(),
                i <= 3,
                r@.len() == i as int,
                forall|k: int|
                    0 <= k < i as int ==> (#[trigger] r@[k]).0 == self.scaled_point_spec(k).0 && r@[
                        k
                    ].1 == self.scaled_point_spec(k).1,
                forall|k: int|
                    0 <= k < i as int ==> -1_000_000_000 <= (#[trigger] r@[k]).0 <= 1_000_000_000
                        && -1_000_000_000 <= r@[k].1 <= 1_000_000_000,
            decreases self.shape@.len() - i,
        {
            let (dx, dy) = self.shape[i];
            proof {
                assert(-1000 <= dx <= 1000 && -1000 <= dy <= 1000);
                lemma_fx_mul_signed_bounded(
                    dx as int,
                    self.ship_size_multiplier as int,
                    1000,
                    MULT_LIMIT as int,
                );
                lemma_fx_mul_signed_bounded(
                    dy as int,
                    self.ship_size_multiplier as int,
                    1000,
                    MULT_LIMIT as int,
                );
            }
            let sx: i64 = mul_milli(dx, self.ship_size_multiplier);
            let sy: i64 = mul_milli(dy, self.ship_size_multiplier);
            r.push((sx, sy));
            i = i + 1;
        }
        r
    }

    /// The display cells the ship currently occupies.
    pub fn get_absolute_coords(&self) -> (r: Vec<(u16, u16)>)
        requires
            self.wf(),
        ensures
            r@.len() == 3,
            forall|i: int|
                0 <= i < 3 ==> (#[trigger] r@[i]).0 as int == self.cell_spec(i).0 && r@[
                    i
                ].1 as int == self.cell_spec(i).1,
    {
        let scaled = self.get_scaled_shape();
        let mut r: Vec<(u16, u16)> = Vec::new();
        let mut i: usize = 0;
        while i < scaled.len()
            invariant
                self.wf(),
                scaled@.len() == 3,
                forall|k: int|
                    0 <= k < 3 ==> (#[trigger] scaled@[k]).0 == self.scaled_point_spec(k).0
                        && scaled@[k].1 == self.scaled_point_spec(k).1,
                forall|k: int|
                    0 <= k < 3 ==> -1_000_000_000 <= (#[trigger] scaled@[k]).0 <= 1_000_000_000
                        && -1_000_000_000 <= scaled@[k].1 <= 1_000_000_000,
                i <= 3,
                r@.len() == i as int,
                forall|k: int|
                    0 <= k < i as int ==> (#[trigger] r@[k]).0 as int == self.cell_spec(k).0 && r@[
                        k
                    ].1 as int == self.cell_spec(k).1,
            decreases 3 - i,
        {
            let (dx, dy) = scaled[i];
            let (rx, ry) = rotate_offset(dx, dy, self.angle);
            let cx: u16 = round_cell(self.position.x + rx);
            let cy: u16 = round_cell(self.position.y + ry);
            r.push((cx, cy));
            i = i + 1;
        }
        r
    }

    /// Draw the ship's three vertices (with direction-dependent glyphs), the
    /// aiming indicator ahead of the nose, and the shield marker behind the
    /// ship when a shield charge is held.
    pub fn draw(&self, game_grid: &mut GameGrid)
        requires
            self.wf(),
            old(game_grid).wf(),
        ensures
            final(game_grid).wf(),
            final(game_grid).width == old(game_grid).width,
            final(game_grid).height == old(game_grid).height,
    {
        let draw_angle: i64 = if self.angle + QUARTER_TURN >= FULL_TURN {
            self.angle + QUARTER_TURN - FULL_TURN
        } else {
            self.angle + QUARTER_TURN
        };
        let scaled = self.get_scaled_shape();
        let mut i: usize = 0;
        while i < scaled.len()
            invariant
                self.wf(),
                game_grid.wf(),
                game_grid.width == old(game_grid).width,
                game_grid.height == old(game_grid).height,
                scaled@.len() == 3,
                forall|k: int|
                    0 <= k < 3 ==> -1_000_000_000 <= (#[trigger] scaled@[k]).0 <= 1_000_000_000
                        && -1_000_000_000 <= scaled@[k].1 <= 1_000_000_000,
                0 <= draw_angle < FULL_TURN,
            decreases 3 - i,
        {
            let (dx, dy) = scaled[i];
            let (rx, ry) = rotate_offset(dx, dy, draw_angle);
            let draw_x: u16 = round_cell(self.position.x + rx);
            let draw_y: u16 = round_cell(self.position.y + ry);
            let char_to_draw: char = Ship::get_rotated_char(dx, dy, self.angle);
            game_grid.set_char(draw_x, draw_y, char_to_draw);
            i = i + 1;
        }
        let c: i64 = cos_milli(self.angle);
        let s: i64 = sin_milli(self.angle);
        let aim_x: u16 = round_cell(self.position.x + c * 3 * TERMINAL_ASPECT_RATIO_COMPENSATION);
        let aim_y: u16 = round_cell(self.position.y + s * 3);
        game_grid.set_char(aim_x, aim_y, '.');
        if self.shield_count > 0 {
            let shield_x: u16 = round_cell(self.position.x - c * 2);
            let shield_y: u16 = round_cell(self.position.y - s * 2);
            game_grid.set_char(shield_x, shield_y, '#');
        }
    }

    /// Advance one frame: integrate position by velocity and angle by
    /// angular velocity, apply both frictions, and wrap the position onto
    /// the field.
    pub fn update(&mut self, terminal_width: u16, terminal_height: u16)
        requires
            old(self).wf(),
            terminal_width >= 1,
            terminal_height >= 1,
        ensures
            final(self).wf(),
            final(self).position.x == (old(self).position.x + old(self).velocity.x) % (
            terminal_width as int * 1000),
            final(self).position.y == (old(self).position.y + old(self).velocity.y) % (
            terminal_height as int * 1000),
            0 <= final(self).position.x < terminal_width as int * 1000,
            0 <= final(self).position.y < terminal_height as int * 1000,
            final(self).velocity.x == fx_mul(old(self).velocity.x as int, SHIP_FRICTION as int),
            final(self).velocity.y == fx_mul(old(self).velocity.y as int, SHIP_FRICTION as int),
            final(self).angle == (old(self).angle + old(self).angular_velocity) % (
            FULL_TURN as int),
            final(self).angular_velocity == fx_mul(
                old(self).angular_velocity as int,
                SHIP_ANGULAR_FRICTION as int,
            ),
            final(self).shape == old(self).shape,
            final(self).fire_rate_multiplier == old(self).fire_rate_multiplier,
            final(self).bullet_speed_multiplier == old(self).bullet_speed_multiplier,
            final(self).bullet_size_multiplier == old(self).bullet_size_multiplier,
            final(self).booster_multiplier == old(self).booster_multiplier,
            final(self).shield_count == old(self).shield_count,
            final(self).ship_size_multiplier == old(self).ship_size_multiplier,
            final(self).max_health == old(self).max_health,
    {
        let px: i64 = self.position.x + self.velocity.x;
        let py: i64 = self.position.y + self.velocity.y;
        self.position.x = wrap_coordinate(px, (terminal_width as i64) * 1000);
        self.position.y = wrap_coordinate(py, (terminal_height as i64) * 1000);
        self.velocity.x = scale_toward_zero(self.velocity.x, self.friction);
        self.velocity.y = scale_toward_zero(self.velocity.y, self.friction);
        let na: i64 = self.angle + self.angular_velocity;
        self.angle = wrap_coordinate(na, FULL_TURN);
        self.angular_velocity = scale_toward_zero(self.angular_velocity, self.angular_friction);
    }

    /// Accelerate in the facing direction: pure velocity gain, so repeated
    /// thrust compounds up to the friction-imposed terminal velocity (the
    /// velocity is also clamped to the representable range).
    pub fn thrust(&mut self)
        requires
            old(self).wf(),
        ensures
            final(self).wf(),
            final(self).velocity.x == clamp_spec(
                old(self).velocity.x + thrust_delta_x(*old(self)),
                -VEL_LIMIT as int,
                VEL_LIMIT as int,
            ),
            final(self).velocity.y == clamp_spec(
                old(self).velocity.y + thrust_delta_y(*old(self)),
                -VEL_LIMIT as int,
                VEL_LIMIT as int,
            ),
            final(self).position == old(self).position,
            final(self).angle == old(self).angle,
            final(self).angular_velocity == old(self).angular_velocity,
            final(self).shape == old(self).shape,
            final(self).fire_rate_multiplier == old(self).fire_rate_multiplier,
            final(self).bullet_speed_multiplier == old(self).bullet_speed_multiplier,
            final(self).bullet_size_multiplier == old(self).bullet_size_multiplier,
            final(self).booster_multiplier == old(self).booster_multiplier,
            final(self).shield_count == old(self).shield_count,
            final(self).ship_size_multiplier == old(self).ship_size_multiplier,
            final(self).max_health == old(self).max_health,
    {
        proof {
            lemma_fx_mul_nonneg_bounded(
                self.thrust_power as int,
                self.booster_multiplier as int,
                SHIP_THRUST_POWER as int,
                MULT_LIMIT as int,
            );
        }
        let tp: i64 = mul_milli(self.thrust_power, self.booster_multiplier);
        let c: i64 = cos_milli(self.angle);
        let s: i64 = sin_milli(self.angle);
        proof {
            lemma_fx_mul_signed_bounded(c as int, tp as int, 1000, 25_000_000);
            lemma_fx_mul_signed_bounded(s as int, tp as int, 1000, 25_000_000);
        }
        let dx: i64 = mul_milli(c, tp);
        let dy: i64 = mul_milli(s, tp);
        self.velocity.x = clamp_i64(self.velocity.x + dx, -VEL_LIMIT, VEL_LIMIT);
        self.velocity.y = clamp_i64(self.velocity.y + dy, -VEL_LIMIT, VEL_LIMIT);
    }

    /// Adjust the angular velocity (not the angle itself) by the rotation
    /// speed in the given direction: turning is inertial and decays through
    /// the angular friction.
    pub fn rotate(&mut self, direction: i64)
        requires
            old(self).wf(),
            -1 <= direction <= 1,
        ensures
            final(self).wf(),
            final(self).angular_velocity == clamp_spec(
                old(self).angular_velocity + SHIP_ROTATION_SPEED * direction,
                -ANGULAR_VEL_LIMIT as int,
                ANGULAR_VEL_LIMIT as int,
            ),
            final(self).position == old(self).position,
            final(self).velocity == old(self).velocity,
            final(self).angle == old(self).angle,
            final(self).shape == old(self).shape,
            final(self).fire_rate_multiplier == old(self).fire_rate_multiplier,
            final(self).bullet_speed_multiplier == old(self).bullet_speed_multiplier,
            final(self).bullet_size_multiplier == old(self).bullet_size_multiplier,
            final(self).booster_multiplier == old(self).booster_multiplier,
            final(self).shield_count == old(self).shield_count,
            final(self).ship_size_multiplier == old(self).ship_size_multiplier,
            final(self).max_health == old(self).max_health,
    {
        let dv: i64 = self.rotation_speed * direction;
        self.angular_velocity = clamp_i64(
            self.angular_velocity + dv,
            -ANGULAR_VEL_LIMIT,
            ANGULAR_VEL_LIMIT,
        );
    }

    /// The glyph for a shape point, chosen by which of the four quadrant
    /// bands the facing angle falls into; points that do not round onto the
    /// fixed triangle outline draw as blank.
    pub fn get_rotated_char(original_dx: i64, original_dy: i64, angle: i64) -> (c: char)
        requires
            0 <= angle < FULL_TURN,
            -0x4000_0000_0000_0000 < original_dx < 0x4000_0000_0000_0000,
            -0x4000_0000_0000_0000 < original_dy < 0x4000_0000_0000_0000,
        ensures
            c == rotated_char_spec(original_dx as int, original_dy as int, angle as int),
    {
        let rx: i64 = round_unit(original_dx);
        let ry: i64 = round_unit(original_dy);
        if rx == 0 && ry == -1 {
            if angle >= 3150 || angle < 450 {
                '>'
            } else if angle >= 450 && angle < 1350 {
                'v'
            } else if angle >= 1350 && angle < 2250 {
                '<'
            } else {
                '^'
            }
        } else if rx == -1 && ry == 0 {
            if angle >= 3150 || angle < 450 {
                '\u{005C}'
            } else if angle >= 450 && angle < 1350 {
                '/'
            } else if angle >= 1350 && angle < 2250 {
                '\u{005C}'
            } else {
                '/'
            }
        } else if rx == 1 && ry == 0 {
            if angle >= 3150 || angle < 450 {
                '/'
            } else if angle >= 450 && angle < 1350 {
                '\u{005C}'
            } else if angle >= 1350 && angle < 2250 {
                '/'
            } else {
                '\u{005C}'
            }
        } else {
            ' '
        }
    }
}

/// The glyph for a ship shape point at a given facing angle.
pub open spec fn rotated_char_spec(dx: int, dy: int, angle: int) -> char {
    let rx = round_unit_spec(dx);
    let ry = round_unit_spec(dy);
    if rx == 0 && ry == -1 {
        if angle >= 3150 || angle < 450 {
            '>'
        } else if 450 <= angle < 1350 {
            'v'
        } else if 1350 <= angle < 2250 {
            '<'
        } else {
            '^'
        }
    } else if rx == -1 && ry == 0 {
        if angle >= 3150 || angle < 450 {
            '\u{005C}'
        } else if 450 <= angle < 1350 {
            '/'
        } else if 1350 <= angle < 2250 {
            '\u{005C}'
        } else {
            '/'
        }
    } else if rx == 1 && ry == 0 {
        if angle >= 3150 || angle < 450 {
            '/'
        } else if 450 <= angle < 1350 {
            '\u{005C}'
        } else if 1350 <= angle < 2250 {
            '/'
        } else {
            '\u{005C}'
        }
    } else {
        ' '
    }
}

/// A projectile fired by the ship. It wraps on the field like the ship and
/// asteroids and disappears when its lifetime runs out or it hits something.
pub struct Bullet {
    pub position: Vector2D,
    pub velocity: Vector2D,
    pub lifetime: u32,
    pub display_char: char,
    pub size: i64,
}

impl Bullet {
    pub open spec fn wf(&self) -> bool {
        &&& 0 <= self.position.x < POS_LIMIT
        &&& 0 <= self.position.y < POS_LIMIT
        &&& -VEL_LIMIT <= self.velocity.x <= VEL_LIMIT
        &&& -VEL_LIMIT <= self.velocity.y <= VEL_LIMIT
        &&& self.lifetime <= BULLET_LIFETIME
        &&& 0 <= self.size <= MULT_LIMIT
    }

    /// The glyph of a bullet fades with its remaining lifetime, in three
    /// bands.
    pub open spec fn char_for_lifetime(lifetime: u32) -> char {
        if 20 <= lifetime <= 30 {
            '*'
        } else if 10 <= lifetime <= 19 {
            '+'
        } else {
            '.'
        }
    }

    pub fn new(position: Vector2D, velocity: Vector2D, size: i64) -> (r: Bullet)
        requires
            0 <= position.x < POS_LIMIT,
            0 <= position.y < POS_LIMIT,
            -VEL_LIMIT <= velocity.x <= VEL_LIMIT,
            -VEL_LIMIT <= velocity.y <= VEL_LIMIT,
            0 <= size <= MULT_LIMIT,
        ensures
            r.wf(),
            r.position == position,
            r.velocity == velocity,
            r.lifetime == BULLET_LIFETIME,
            r.display_char == '*',
            r.size == size,
    {
        Bullet { position, velocity, lifetime: BULLET_LIFETIME, display_char: '*', size }
    }

    /// Draw the bullet as a `side` by `side` block of its lifetime glyph,
    /// where `side` is the bullet's rounded size; cells beyond the grid are
    /// dropped.
    pub fn draw(&self, game_grid: &mut GameGrid)
        requires
            self.wf(),
            old(game_grid).wf(),
        ensures
            final(game_grid).wf(),
            final(game_grid).width == old(game_grid).width,
            final(game_grid).height == old(game_grid).height,
            forall|x: int, y: int|
                0 <= x < old(game_grid).width as int && 0 <= y < old(game_grid).height as int
                    ==> #[trigger] final(game_grid).grid@[y]@[x] == (if round_cell_spec(
                    self.position.x as int,
                ) <= x < round_cell_spec(self.position.x as int) + round_cell_spec(self.size as int)
                    && round_cell_spec(self.position.y as int) <= y < round_cell_spec(
                    self.position.y as int,
                ) + round_cell_spec(self.size as int) {
                    Bullet::char_for_lifetime(self.lifetime)
                } else {
                    old(game_grid).grid@[y]@[x]
                }),
    {
        let char_to_draw: char = if self.lifetime >= 20 && self.lifetime <= 30 {
            '*'
        } else if self.lifetime >= 10 && self.lifetime <= 19 {
            '+'
        } else {
            '.'
        };
        let side: u16 = round_cell(self.size);
        let cx: u16 = round_cell(self.position.x);
        let cy: u16 = round_cell(self.position.y);
        let mut i: u16 = 0;
        while i < side
            invariant
                game_grid.wf(),
                game_grid.width == old(game_grid).width,
                game_grid.height == old(game_grid).height,
                old(game_grid).wf(),
                i <= side,
                char_to_draw == Bullet::char_for_lifetime(self.lifetime),
                side as int == round_cell_spec(self.size as int),
                cx as int == round_cell_spec(self.position.x as int),
                cy as int == round_cell_spec(self.position.y as int),
                forall|x: int, y: int|
                    0 <= x < old(game_grid).width as int && 0 <= y < old(
                        game_grid,
                    ).height as int ==> #[trigger] game_grid.grid@[y]@[x] == (if cx as int <= x
                        < cx as int + i as int && cy as int <= y < cy as int + side as int {
                        char_to_draw
                    } else {
                        old(game_grid).grid@[y]@[x]
                    }),
            decreases side - i,
        {
            let mut j: u16 = 0;
            while j < side
                invariant
                    game_grid.wf(),
                    game_grid.width == old(game_grid).width,
                    game_grid.height == old(game_grid).height,
                    old(game_grid).wf(),
                    i < side,
                    j <= side,
                    forall|x: int, y: int|
                        0 <= x < old(game_grid).width as int && 0 <= y < old(
                            game_grid,
                        ).height as int ==> #[trigger] game_grid.grid@[y]@[x] == (if (cx as int <= x
                            < cx as int + i as int && cy as int <= y < cy as int + side as int) || (
                        x == cx as int + i as int && cy as int <= y < cy as int + j as int) {
                            char_to_draw
                        } else {
                            old(game_grid).grid@[y]@[x]
                        }),
                decreases side - j,
            {
                game_grid.set_char(cx.saturating_add(i), cy.saturating_add(j), char_to_draw);
                j = j + 1;
            }
            i = i + 1;
        }
    }

    /// Advance one frame: integrate, wrap, and burn one frame of lifetime.
    pub fn update(&mut self, terminal_width: u16, terminal_height: u16)
        requires
            old(self).wf(),
            old(self).lifetime >= 1,
            terminal_width >= 1,
            terminal_height >= 1,
        ensures
            final(self).wf(),
            final(self).position.x == (old(self).position.x + old(self).velocity.x) % (
            terminal_width as int * 1000),
            final(self).position.y == (old(self).position.y + old(self).velocity.y) % (
            terminal_height as int * 1000),
            0 <= final(self).position.x < terminal_width as int * 1000,
            0 <= final(self).position.y < terminal_height as int * 1000,
            final(self).lifetime == old(self).lifetime - 1,
            final(self).velocity == old(self).velocity,
            final(self).display_char == old(self).display_char,
            final(self).size == old(self).size,
    {
        let px: i64 = self.position.x + self.velocity.x;
        let py: i64 = self.position.y + self.velocity.y;
        self.position.x = wrap_coordinate(px, (terminal_width as i64) * 1000);
        self.position.y = wrap_coordinate(py, (terminal_height as i64) * 1000);
        self.lifetime = self.lifetime - 1;
    }
}

/// A purely cosmetic spark. Particles never collide with anything and do
/// not wrap; they drift for their lifetime and expire.
pub struct Particle {
    pub position: Vector2D,
    pub velocity: Vector2D,
    pub lifetime: u32,
    pub display_char: char,
}

impl Particle {
    pub open spec fn wf(&self) -> bool {
        &&& self.lifetime <= PARTICLE_LIFETIME_LIMIT
        &&& -VEL_LIMIT <= self.velocity.x <= VEL_LIMIT
        &&& -VEL_LIMIT <= self.velocity.y <= VEL_LIMIT
        &&& -particle_pos_limit(self.lifetime as int) <= self.position.x <= particle_pos_limit(
            self.lifetime as int,
        )
        &&& -particle_pos_limit(self.lifetime as int) <= self.position.y <= particle_pos_limit(
            self.lifetime as int,
        )
    }

    pub fn new(position: Vector2D, velocity: Vector2D, lifetime: u32, display_char: char) -> (r:
        Particle)
        requires
            lifetime <= PARTICLE_LIFETIME_LIMIT,
            -POS_LIMIT <= position.x <= POS_LIMIT,
            -POS_LIMIT <= position.y <= POS_LIMIT,
            -VEL_LIMIT <= velocity.x <= VEL_LIMIT,
            -VEL_LIMIT <= velocity.y <= VEL_LIMIT,
        ensures
            r.wf(),
            r.position == position,
            r.velocity == velocity,
            r.lifetime == lifetime,
            r.display_char == display_char,
    {
        proof {
            assert((PARTICLE_LIFETIME_LIMIT - lifetime) * (VEL_LIMIT as int) >= 0) by (
            nonlinear_arith)
                requires
                    lifetime <= PARTICLE_LIFETIME_LIMIT,
            ;
        }
        Particle { position, velocity, lifetime, display_char }
    }

    /// Draw the particle's single cell.
    pub fn draw(&self, game_grid: &mut GameGrid)
        requires
            self.wf(),
            old(game_grid).wf(),
        ensures
            final(game_grid).wf(),
            final(game_grid).width == old(game_grid).width,
            final(game_grid).height == old(game_grid).height,
    {
        let cx: u16 = round_cell(self.position.x);
        let cy: u16 = round_cell(self.position.y);
        game_grid.set_char(cx, cy, self.display_char);
    }

    /// Advance one frame: drift (without wrapping) and burn one frame of
    /// lifetime.
    pub fn update(&mut self)
        requires
            old(self).wf(),
            old(self).lifetime >= 1,
        ensures
            final(self).wf(),
            final(self).position.x == old(self).position.x + old(self).velocity.x,
            final(self).position.y == old(self).position.y + old(self).velocity.y,
            final(self).lifetime == old(self).lifetime - 1,
            final(self).velocity == old(self).velocity,
            final(self).display_char == old(self).display_char,
    {
        proof {
            lemma_particle_drift(self.lifetime as int);
        }
        self.position.x = self.position.x + self.velocity.x;
        self.position.y = self.position.y + self.velocity.y;
        self.lifetime = self.lifetime - 1;
    }
}

/// One frame of drift keeps a live particle inside the widened bound of its
/// decremented lifetime.
proof fn lemma_particle_drift(lifetime: int)
    requires
        1 <= lifetime <= PARTICLE_LIFETIME_LIMIT,
    ensures
        particle_pos_limit(lifetime) + VEL_LIMIT == particle_pos_limit(lifetime - 1),
        particle_pos_limit(lifetime) >= POS_LIMIT,
        particle_pos_limit(lifetime - 1) <= particle_pos_limit(0),
        particle_pos_limit(0) == POS_LIMIT + 15 * (VEL_LIMIT as int),
{
    assert((15 - lifetime) * (VEL_LIMIT as int) + VEL_LIMIT == (15 - (lifetime - 1)) * (
    VEL_LIMIT as int)) by (nonlinear_arith);
    assert((15 - lifetime) * (VEL_LIMIT as int) >= 0) by (nonlinear_arith)
        requires
            lifetime <= 15,
    ;
    assert((15 - (lifetime - 1)) * (VEL_LIMIT as int) <= 15 * (VEL_LIMIT as int)) by (
    nonlinear_arith)
        requires
            lifetime >= 1,
    ;
}

/// Every offset of every asteroid shape lies within two cells.
proof fn lemma_asteroid_shape_bounds(size: AsteroidSize)
    ensures
        forall|k: int|
            0 <= k < asteroid_shape_spec(size).len() ==> -2000 <= (#[trigger] asteroid_shape_spec(
                size,
            )[k]).0 <= 2000 && -2000 <= asteroid_shape_spec(size)[k].1 <= 2000,
{
}

} // verus!
