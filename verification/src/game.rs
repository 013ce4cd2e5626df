//! The frame orchestrator: the whole per-frame pipeline over one owned
//! aggregate of run state.
//!
//! Each frame ingests at most one input event, advances every entity's
//! kinematics, resolves all pairwise interactions in a fixed order
//! (ship-asteroid, bullet-asteroid, bullet-box, ship-upgrade), prunes
//! expired entities, and leaves the entity lists ready for a renderer to
//! read. The run ends (`running == false`) the frame health reaches zero,
//! when the optional frame budget is exhausted, or on a quit event.

use vstd::prelude::*;

verus! {

use crate::angle::{FULL_TURN, cos_milli, cos_milli_spec, sin_milli, sin_milli_spec};
use crate::constants::{
    BANNER_FRAMES,
    BULLET_COOLDOWN,
    BULLET_SPEED,
    DIFFICULTY_INCREASE_INTERVAL_FRAMES,
    GAME_SPEED_LIMIT,
    GAME_SPEED_MULTIPLIER_INCREASE,
    INITIAL_ASTEROID_SPAWN_RATE,
    INITIAL_GAME_SPEED_MULTIPLIER,
    INITIAL_MAX_ASTEROIDS,
    INVINCIBILITY_FRAMES,
    MIN_ASTEROID_SPAWN_RATE,
    MULT_LIMIT,
    POS_LIMIT,
    SCORE_LARGE_ASTEROID,
    SCORE_MEDIUM_ASTEROID,
    SCORE_SMALL_ASTEROID,
    UPGRADE_BOX_SPAWN_RATE,
    UPGRADE_COLLECTION_RADIUS,
    VEL_LIMIT,
};
use crate::entities::{Asteroid, AsteroidSize, Bullet, Particle, Ship, asteroid_velocity_possible};
use crate::rng::rng_range_i64;
use crate::types::{Vector2D, clamp_spec, fx_mul, lemma_fx_mul_nonneg_bounded, mul_milli, round_cell, round_cell_spec};
use crate::upgrades::{Upgrade, UpgradeBox, UpgradeType};

/// One frame's input: at most one of these reaches the orchestrator.
#[derive(Clone, Copy, Debug, PartialEq, Eq, Structural)]
pub enum InputEvent {
    MoveLeft,
    MoveRight,
    Thrust,
    Fire,
    Quit,
    Resize(u16, u16),
}

/// The whole run state the orchestrator owns: the entity universe, the
/// player scalars, the difficulty controller and the randomness source.
pub struct GameState {
    pub terminal_width: u16,
    pub terminal_height: u16,
    pub ship: Ship,
    pub asteroids: Vec<Asteroid>,
    pub bullets: Vec<Bullet>,
    pub particles: Vec<Particle>,
    pub upgrade_boxes: Vec<UpgradeBox>,
    pub upgrades: Vec<Upgrade>,
    pub player_health: u32,
    pub last_shot_frame: u64,
    pub last_hit_frame: u64,
    pub score: u32,
    pub asteroid_spawn_rate: u64,
    pub max_asteroids: usize,
    pub difficulty_increase_timer: u64,
    pub game_speed_multiplier: i64,
    pub running: bool,
    pub frame_count: u64,
    pub max_frames: Option<u64>,
    pub current_banner: Option<(UpgradeType, u64)>,
    pub rng: rand::rngs::StdRng,
}

/// A new bullet may spawn only when at least the cooldown's worth of frames
/// passed since the last shot.
pub open spec fn fire_allowed(frame_count: u64, last_shot_frame: u64) -> bool {
    frame_count - last_shot_frame >= BULLET_COOLDOWN
}

/// Ship damage is suppressed while the invincibility window after the last
/// recorded hit is still open.
pub open spec fn damage_gate_open(frame_count: u64, last_hit_frame: u64) -> bool {
    frame_count - last_hit_frame > INVINCIBILITY_FRAMES
}

/// The fields of the run state that ingesting an input event never touches.
pub open spec fn input_preserves(a: GameState, b: GameState) -> bool {
    &&& b.asteroids == a.asteroids
    &&& b.upgrade_boxes == a.upgrade_boxes
    &&& b.upgrades == a.upgrades
    &&& b.player_health == a.player_health
    &&& b.last_hit_frame == a.last_hit_frame
    &&& b.score == a.score
    &&& b.asteroid_spawn_rate == a.asteroid_spawn_rate
    &&& b.max_asteroids == a.max_asteroids
    &&& b.difficulty_increase_timer == a.difficulty_increase_timer
    &&& b.game_speed_multiplier == a.game_speed_multiplier
    &&& b.frame_count == a.frame_count
    &&& b.max_frames == a.max_frames
    &&& b.current_banner == a.current_banner
}

/// The speed, in milli-cells per frame, of a freshly fired bullet.
pub open spec fn bullet_speed_of(s: Ship) -> int {
    fx_mul(BULLET_SPEED as int, s.bullet_speed_multiplier as int)
}

impl GameState {
    pub open spec fn wf(&self) -> bool {
        &&& self.terminal_width >= 1
        &&& self.terminal_height >= 1
        &&& self.ship.wf()
        &&& self.player_health <= self.ship.max_health
        &&& (self.player_health == 0 ==> !self.running)
        &&& (forall|i: int| 0 <= i < self.asteroids@.len() ==> (#[trigger] self.asteroids@[i]).wf())
        &&& (forall|i: int|
            0 <= i < self.bullets@.len() ==> (#[trigger] self.bullets@[i]).wf()
                && self.bullets@[i].lifetime >= 1)
        &&& (forall|i: int|
            0 <= i < self.particles@.len() ==> (#[trigger] self.particles@[i]).wf()
                && self.particles@[i].lifetime >= 1)
        &&& (forall|i: int|
            0 <= i < self.upgrade_boxes@.len() ==> (#[trigger] self.upgrade_boxes@[i]).wf())
        &&& (forall|i: int| 0 <= i < self.upgrades@.len() ==> (#[trigger] self.upgrades@[i]).wf())
        &&& self.last_shot_frame <= self.frame_count
        &&& self.last_hit_frame <= self.frame_count
        &&& 1 <= self.asteroid_spawn_rate <= INITIAL_ASTEROID_SPAWN_RATE
        &&& self.difficulty_increase_timer < DIFFICULTY_INCREASE_INTERVAL_FRAMES
        &&& 0 < self.game_speed_multiplier <= GAME_SPEED_LIMIT
    }

    /// A fresh run on a `width` by `height` field: the ship centered, no
    /// other entities, initial difficulty, and the generator seeded for a
    /// reproducible run. An optional frame budget bounds deterministic
    /// test runs.
    pub fn new(terminal_width: u16, terminal_height: u16, seed: u64, max_frames: Option<u64>) -> (r:
        GameState)
        requires
            terminal_width >= 1,
            terminal_height >= 1,
        ensures
            r.wf(),
            r.terminal_width == terminal_width,
            r.terminal_height == terminal_height,
            r.ship.position.x == terminal_width as int * 500,
            r.ship.position.y == terminal_height as int * 500,
            r.asteroids@.len() == 0,
            r.bullets@.len() == 0,
            r.particles@.len() == 0,
            r.upgrade_boxes@.len() == 0,
            r.upgrades@.len() == 0,
            r.player_health == r.ship.max_health,
            r.last_shot_frame == 0,
            r.last_hit_frame == 0,
            r.score == 0,
            r.asteroid_spawn_rate == INITIAL_ASTEROID_SPAWN_RATE,
            r.max_asteroids == INITIAL_MAX_ASTEROIDS,
            r.difficulty_increase_timer == 0,
            r.game_speed_multiplier == INITIAL_GAME_SPEED_MULTIPLIER,
            r.running,
            r.frame_count == 0,
            r.max_frames == max_frames,
            r.current_banner is None,
    {
        let ship = Ship::new((terminal_width as i64) * 500, (terminal_height as i64) * 500);
        let player_health = ship.max_health;
        GameState {
            terminal_width,
            terminal_height,
            ship,
            asteroids: Vec::new(),
            bullets: Vec::new(),
            particles: Vec::new(),
            upgrade_boxes: Vec::new(),
            upgrades: Vec::new(),
            player_health,
            last_shot_frame: 0,
            last_hit_frame: 0,
            score: 0,
            asteroid_spawn_rate: INITIAL_ASTEROID_SPAWN_RATE,
            max_asteroids: INITIAL_MAX_ASTEROIDS,
            difficulty_increase_timer: 0,
            game_speed_multiplier: INITIAL_GAME_SPEED_MULTIPLIER,
            running: true,
            frame_count: 0,
            max_frames,
            current_banner: None,
            rng: crate::rng::new_rng(seed),
        }
    }

    /// Ingest one frame's input event, if any: quit, steering, thrust (with
    /// its cosmetic exhaust particle), fire (subject to the cooldown), or a
    /// field resize.
    pub fn handle_input(&mut self, event: Option<InputEvent>)
        requires
            old(self).wf(),
            event matches Some(InputEvent::Resize(w, h)) ==> w >= 1 && h >= 1,
        ensures
            final(self).wf(),
            input_rel(*old(self), *final(self), event),
    {
        match event {
            Option::None => {},
            Option::Some(InputEvent::Quit) => {
                self.running = false;
            },
            Option::Some(InputEvent::MoveLeft) => {
                self.ship.rotate(-1);
            },
            Option::Some(InputEvent::MoveRight) => {
                self.ship.rotate(1);
            },
            Option::Some(InputEvent::Thrust) => {
                let c: i64 = cos_milli(self.ship.angle);
                let s: i64 = sin_milli(self.ship.angle);
                self.ship.thrust();
                let smoke_velocity = Vector2D { x: -dir_scaled(c, 500), y: -dir_scaled(s, 500) };
                let smoke = Particle::new(self.ship.position, smoke_velocity, 10, '.');
                self.particles.push(smoke);
            },
            Option::Some(InputEvent::Fire) => {
                if self.frame_count - self.last_shot_frame >= BULLET_COOLDOWN {
                    proof {
                        lemma_fx_mul_nonneg_bounded(
                            BULLET_SPEED as int,
                            self.ship.bullet_speed_multiplier as int,
                            BULLET_SPEED as int,
                            MULT_LIMIT as int,
                        );
                    }
                    let bullet_speed: i64 = mul_milli(BULLET_SPEED, self.ship.bullet_speed_multiplier);
                    let c: i64 = cos_milli(self.ship.angle);
                    let s: i64 = sin_milli(self.ship.angle);
                    let vx: i64 = dir_scaled(c, bullet_speed);
                    let vy: i64 = dir_scaled(s, bullet_speed);
                    let bullet = Bullet::new(
                        self.ship.position,
                        Vector2D { x: vx, y: vy },
                        self.ship.bullet_size_multiplier,
                    );
                    self.bullets.push(bullet);
                    self.last_shot_frame = self.frame_count;
                }
            },
            Option::Some(InputEvent::Resize(new_width, new_height)) => {
                self.terminal_width = new_width;
                self.terminal_height = new_height;
            },
        }
    }

    /// One tick of the difficulty controller: the escalation timer advances
    /// every frame; when it fills, it resets and, atomically, the asteroid
    /// cap grows by one, the spawn rate decays by 9/10 (rounded, floored at
    /// the minimum), and the game speed multiplier steps up.
    pub fn difficulty_tick(&mut self)
        requires
            old(self).wf(),
        ensures
            final(self).wf(),
            difficulty_stage_rel(*old(self), *final(self)),
    {
        self.difficulty_increase_timer = self.difficulty_increase_timer + 1;
        if self.difficulty_increase_timer >= DIFFICULTY_INCREASE_INTERVAL_FRAMES {
            self.max_asteroids = self.max_asteroids.saturating_add(1);
            let decayed: u64 = (self.asteroid_spawn_rate * 9 + 5) / 10;
            self.asteroid_spawn_rate = if decayed < MIN_ASTEROID_SPAWN_RATE {
                MIN_ASTEROID_SPAWN_RATE
            } else {
                decayed
            };
            self.game_speed_multiplier = if self.game_speed_multiplier
                + GAME_SPEED_MULTIPLIER_INCREASE > GAME_SPEED_LIMIT {
                GAME_SPEED_LIMIT
            } else {
                self.game_speed_multiplier + GAME_SPEED_MULTIPLIER_INCREASE
            };
            self.difficulty_increase_timer = 0;
        }
    }

    /// Spawn one Large asteroid at a uniformly random position on one of the
    /// four field edges, when the cap leaves room and the frame index lands
    /// on the spawn rate.
    pub fn maybe_spawn_asteroid(&mut self)
        requires
            old(self).wf(),
        ensures
            final(self).wf(),
            spawn_asteroid_rel(*old(self), *final(self)),
    {
        if self.asteroids.len() < self.max_asteroids && self.frame_count % self.asteroid_spawn_rate
            == 0 {
            let side: i64 = rng_range_i64(&mut self.rng, 0, 4);
            let w1000: i64 = (self.terminal_width as i64) * 1000;
            let h1000: i64 = (self.terminal_height as i64) * 1000;
            let (x, y): (i64, i64) = if side == 0 {
                (rng_range_i64(&mut self.rng, 0, w1000), 0)
            } else if side == 1 {
                ((self.terminal_width as i64 - 1) * 1000, rng_range_i64(&mut self.rng, 0, h1000))
            } else if side == 2 {
                (rng_range_i64(&mut self.rng, 0, w1000), (self.terminal_height as i64 - 1) * 1000)
            } else {
                (0, rng_range_i64(&mut self.rng, 0, h1000))
            };
            let gsm = self.game_speed_multiplier;
            let a = Asteroid::new(x, y, &mut self.rng, AsteroidSize::Large, gsm);
            self.asteroids.push(a);
        }
    }

    /// Spawn an upgrade box at a uniformly random field position whenever
    /// the frame index lands on the box spawn rate.
    pub fn maybe_spawn_upgrade_box(&mut self)
        requires
            old(self).wf(),
        ensures
            final(self).wf(),
            spawn_box_rel(*old(self), *final(self)),
    {
        if self.frame_count % UPGRADE_BOX_SPAWN_RATE == 0 {
            let w1000: i64 = (self.terminal_width as i64) * 1000;
            let h1000: i64 = (self.terminal_height as i64) * 1000;
            let x: i64 = rng_range_i64(&mut self.rng, 0, w1000);
            let y: i64 = rng_range_i64(&mut self.rng, 0, h1000);
            let b = UpgradeBox::new(x, y);
            self.upgrade_boxes.push(b);
        }
    }

    /// Advance every asteroid one frame, then resolve ship-asteroid
    /// contact: outside the invincibility window, one overlapping asteroid
    /// costs one shield charge if any is held, else one point of health,
    /// and opens a fresh invincibility window; reaching zero health ends
    /// the run that same frame. Asteroids are never destroyed by the ship.
    pub fn resolve_ship_asteroid_collisions(&mut self)
        requires
            old(self).wf(),
        ensures
            final(self).wf(),
            ship_collision_rel(*old(self), *final(self)),
    {
        let w = self.terminal_width;
        let h = self.terminal_height;
        let ghost orig = self.asteroids@;
        let mut tmp: Vec<Asteroid> = Vec::new();
        core::mem::swap(&mut tmp, &mut self.asteroids);
        let mut moved: Vec<Asteroid> = Vec::new();
        while tmp.len() > 0
            invariant
                w >= 1,
                h >= 1,
                moved@.len() + tmp@.len() == orig.len(),
                tmp@ == orig.subrange(moved@.len() as int, orig.len() as int),
                forall|i: int| 0 <= i < orig.len() ==> (#[trigger] orig[i]).wf(),
                forall|i: int|
                    0 <= i < moved@.len() ==> #[trigger] moved@[i] == asteroid_moved(orig[i], w, h),
                forall|i: int| 0 <= i < moved@.len() ==> (#[trigger] moved@[i]).wf(),
            decreases tmp@.len(),
        {
            let ghost k = moved@.len() as int;
            let mut a = tmp.remove(0);
            proof {
                assert(a == orig[k]);
                assert(orig.subrange(k, orig.len() as int).remove(0) =~= orig.subrange(
                    k + 1,
                    orig.len() as int,
                ));
            }
            a.update(w, h);
            moved.push(a);
        }
        self.asteroids = moved;
        let ghost moved_seq = self.asteroids@;
        let mut hit_any: bool = false;
        let mut i: usize = 0;
        while i < self.asteroids.len()
            invariant
                self.asteroids@ == moved_seq,
                self.ship == old(self).ship,
                self.ship.wf(),
                forall|k: int| 0 <= k < moved_seq.len() ==> (#[trigger] moved_seq[k]).wf(),
                i <= moved_seq.len(),
                hit_any == (exists|k: int|
                    0 <= k < i as int && #[trigger] ship_hits_asteroid(self.ship, moved_seq[k])),
            decreases moved_seq.len() - i,
        {
            let c = check_ship_asteroid_collision(&self.ship, &self.asteroids[i]);
            proof {
                if c {
                    assert(ship_hits_asteroid(self.ship, moved_seq[i as int]));
                }
            }
            hit_any = hit_any || c;
            i = i + 1;
        }
        proof {
            let w0 = old(self).terminal_width;
            let h0 = old(self).terminal_height;
            if hit_any {
                let k = choose|k: int|
                    0 <= k < moved_seq.len() && #[trigger] ship_hits_asteroid(
                        self.ship,
                        moved_seq[k],
                    );
                assert(moved_seq[k] == asteroid_moved(orig[k], w0, h0));
                assert(ship_hits_asteroid(old(self).ship, asteroid_moved(orig[k], w0, h0)));
            } else {
                if exists|i: int|
                    0 <= i < orig.len() && ship_hits_asteroid(
                        old(self).ship,
                        #[trigger] asteroid_moved(orig[i], w0, h0),
                    ) {
                    let k = choose|i: int|
                        0 <= i < orig.len() && ship_hits_asteroid(
                            old(self).ship,
                            #[trigger] asteroid_moved(orig[i], w0, h0),
                        );
                    assert(moved_seq[k] == asteroid_moved(orig[k], w0, h0));
                    assert(ship_hits_asteroid(self.ship, moved_seq[k]));
                    assert(false);
                }
            }
        }
        if hit_any && self.frame_count - self.last_hit_frame > INVINCIBILITY_FRAMES {
            if self.ship.shield_count > 0 {
                self.ship.shield_count = self.ship.shield_count - 1;
            } else {
                self.player_health = self.player_health.saturating_sub(1);
            }
            self.last_hit_frame = self.frame_count;
            if self.player_health == 0 {
                self.running = false;
            }
        }
    }

    /// Destroy the asteroid at `idx`: award its score, replace it with its
    /// fragments at the same position (two of the next-smaller size; none
    /// for Small), and burst five explosion particles with random outward
    /// velocities.
    pub fn destroy_asteroid_at(&mut self, idx: usize)
        requires
            old(self).wf(),
            idx < old(self).asteroids@.len(),
        ensures
            final(self).wf(),
            final(self).bullets == old(self).bullets,
            asteroid_destroyed_rel(*old(self), *final(self), idx as int),
    {
        let size = self.asteroids[idx].size;
        let pos = self.asteroids[idx].position;
        let _removed = self.asteroids.remove(idx);
        let points: u32 = match size {
            AsteroidSize::Large => SCORE_LARGE_ASTEROID,
            AsteroidSize::Medium => SCORE_MEDIUM_ASTEROID,
            AsteroidSize::Small => SCORE_SMALL_ASTEROID,
        };
        self.score = self.score.saturating_add(points);
        let gsm = self.game_speed_multiplier;
        match size {
            AsteroidSize::Large => {
                let f1 = Asteroid::new(pos.x, pos.y, &mut self.rng, AsteroidSize::Medium, gsm);
                self.asteroids.push(f1);
                let f2 = Asteroid::new(pos.x, pos.y, &mut self.rng, AsteroidSize::Medium, gsm);
                self.asteroids.push(f2);
            },
            AsteroidSize::Medium => {
                let f1 = Asteroid::new(pos.x, pos.y, &mut self.rng, AsteroidSize::Small, gsm);
                self.asteroids.push(f1);
                let f2 = Asteroid::new(pos.x, pos.y, &mut self.rng, AsteroidSize::Small, gsm);
                self.asteroids.push(f2);
            },
            AsteroidSize::Small => {},
        }
        self.spawn_burst(pos, 5, 500, 1500, 15, '#');
    }

    /// Push `count` explosion particles at `pos`, each with a uniformly
    /// random direction and a speed from `[speed_lo, speed_hi)`.
    fn spawn_burst(&mut self, pos: Vector2D, count: usize, speed_lo: i64, speed_hi: i64, lifetime: u32, glyph: char)
        requires
            old(self).wf(),
            0 <= pos.x < POS_LIMIT,
            0 <= pos.y < POS_LIMIT,
            0 < speed_lo < speed_hi <= VEL_LIMIT,
            1 <= lifetime <= crate::entities::PARTICLE_LIFETIME_LIMIT,
        ensures
            final(self).wf(),
            final(self).ship == old(self).ship,
            final(self).asteroids == old(self).asteroids,
            final(self).bullets == old(self).bullets,
            final(self).upgrade_boxes == old(self).upgrade_boxes,
            final(self).upgrades == old(self).upgrades,
            final(self).player_health == old(self).player_health,
            final(self).last_shot_frame == old(self).last_shot_frame,
            final(self).last_hit_frame == old(self).last_hit_frame,
            final(self).score == old(self).score,
            final(self).asteroid_spawn_rate == old(self).asteroid_spawn_rate,
            final(self).max_asteroids == old(self).max_asteroids,
            final(self).difficulty_increase_timer == old(self).difficulty_increase_timer,
            final(self).game_speed_multiplier == old(self).game_speed_multiplier,
            final(self).running == old(self).running,
            final(self).frame_count == old(self).frame_count,
            final(self).max_frames == old(self).max_frames,
            final(self).current_banner == old(self).current_banner,
            final(self).terminal_width == old(self).terminal_width,
            final(self).terminal_height == old(self).terminal_height,
            final(self).particles@.len() == old(self).particles@.len() + count,
            forall|i: int|
                0 <= i < old(self).particles@.len() ==> final(self).particles@[i] == old(
                    self,
                ).particles@[i],
            forall|i: int|
                old(self).particles@.len() <= i < final(self).particles@.len() ==> (
                #[trigger] final(self).particles@[i]).wf() && final(self).particles@[i].position
                    == pos && final(self).particles@[i].lifetime == lifetime && final(self).particles@[i].display_char == glyph,
    {
        let mut n: usize = 0;
        while n < count
            invariant
                self.wf(),
                0 <= pos.x < POS_LIMIT,
                0 <= pos.y < POS_LIMIT,
                0 < speed_lo < speed_hi <= VEL_LIMIT,
                1 <= lifetime <= crate::entities::PARTICLE_LIFETIME_LIMIT,
                n <= count,
                self.ship == old(self).ship,
                self.asteroids == old(self).asteroids,
                self.bullets == old(self).bullets,
                self.upgrade_boxes == old(self).upgrade_boxes,
                self.upgrades == old(self).upgrades,
                self.player_health == old(self).player_health,
                self.last_shot_frame == old(self).last_shot_frame,
                self.last_hit_frame == old(self).last_hit_frame,
                self.score == old(self).score,
                self.asteroid_spawn_rate == old(self).asteroid_spawn_rate,
                self.max_asteroids == old(self).max_asteroids,
                self.difficulty_increase_timer == old(self).difficulty_increase_timer,
                self.game_speed_multiplier == old(self).game_speed_multiplier,
                self.running == old(self).running,
                self.frame_count == old(self).frame_count,
                self.max_frames == old(self).max_frames,
                self.current_banner == old(self).current_banner,
                self.terminal_width == old(self).terminal_width,
                self.terminal_height == old(self).terminal_height,
                self.particles@.len() == old(self).particles@.len() + n,
                forall|i: int|
                    0 <= i < old(self).particles@.len() ==> self.particles@[i] == old(
                        self,
                    ).particles@[i],
                forall|i: int|
                    old(self).particles@.len() <= i < self.particles@.len() ==> (
                    #[trigger] self.particles@[i]).wf() && self.particles@[i].position == pos
                        && self.particles@[i].lifetime == lifetime && self.particles@[i].display_char
                        == glyph,
            decreases count - n,
        {
            let a: i64 = rng_range_i64(&mut self.rng, 0, FULL_TURN);
            let speed: i64 = rng_range_i64(&mut self.rng, speed_lo, speed_hi);
            let c: i64 = cos_milli(a);
            let s: i64 = sin_milli(a);
            let velocity = Vector2D { x: dir_scaled(c, speed), y: dir_scaled(s, speed) };
            let p = Particle::new(pos, velocity, lifetime, glyph);
            self.particles.push(p);
            n = n + 1;
        }
    }

    /// Land one bullet hit on the upgrade box at `idx`: burn one charge and
    /// burst three particles; on the last charge, remove the box and spawn
    /// one to three upgrades of random kinds at its position.
    pub fn hit_upgrade_box_at(&mut self, idx: usize)
        requires
            old(self).wf(),
            idx < old(self).upgrade_boxes@.len(),
        ensures
            final(self).wf(),
            final(self).bullets == old(self).bullets,
            box_hit_rel(*old(self), *final(self), idx as int),
    {
        let hits = self.upgrade_boxes[idx].hits_remaining;
        let pos = self.upgrade_boxes[idx].position;
        self.spawn_burst(pos, 3, 200, 800, 10, '+');
        if hits > 1 {
            self.upgrade_boxes[idx].hits_remaining = hits - 1;
        } else {
            let _removed = self.upgrade_boxes.remove(idx);
            let num_upgrades: i64 = rng_range_i64(&mut self.rng, 1, 4);
            let mut n: i64 = 0;
            let ghost base = self.upgrades@.len() as int;
            let ghost boxes_now = self.upgrade_boxes@;
            let ghost particles_now = self.particles@;
            while n < num_upgrades
                invariant
                    self.wf(),
                    0 <= pos.x < POS_LIMIT,
                    0 <= pos.y < POS_LIMIT,
                    0 <= n <= num_upgrades,
                    1 <= num_upgrades <= 3,
                    base == old(self).upgrades@.len(),
                    self.upgrades@.len() == base + n,
                    self.ship == old(self).ship,
                    self.asteroids == old(self).asteroids,
                    self.bullets == old(self).bullets,
                    self.upgrade_boxes@ == boxes_now,
                    self.particles@ == particles_now,
                    self.player_health == old(self).player_health,
                    self.last_shot_frame == old(self).last_shot_frame,
                    self.last_hit_frame == old(self).last_hit_frame,
                    self.score == old(self).score,
                    self.asteroid_spawn_rate == old(self).asteroid_spawn_rate,
                    self.max_asteroids == old(self).max_asteroids,
                    self.difficulty_increase_timer == old(self).difficulty_increase_timer,
                    self.game_speed_multiplier == old(self).game_speed_multiplier,
                    self.running == old(self).running,
                    self.frame_count == old(self).frame_count,
                    self.max_frames == old(self).max_frames,
                    self.current_banner == old(self).current_banner,
                    self.terminal_width == old(self).terminal_width,
                    self.terminal_height == old(self).terminal_height,
                    forall|i: int| 0 <= i < base ==> self.upgrades@[i] == old(self).upgrades@[i],
                    forall|i: int|
                        base <= i < self.upgrades@.len() ==> (#[trigger] self.upgrades@[i]).wf()
                            && self.upgrades@[i].position == pos,
                decreases num_upgrades - n,
            {
                let kind: i64 = rng_range_i64(&mut self.rng, 0, 8);
                let upgrade_type: UpgradeType = if kind == 0 {
                    UpgradeType::FireRate
                } else if kind == 1 {
                    UpgradeType::BulletSpeed
                } else if kind == 2 {
                    UpgradeType::BulletSize
                } else if kind == 3 {
                    UpgradeType::Booster
                } else if kind == 4 {
                    UpgradeType::Shield
                } else if kind == 5 {
                    UpgradeType::ShipSize
                } else if kind == 6 {
                    UpgradeType::Health
                } else {
                    UpgradeType::HealthMax
                };
                let u = Upgrade::new(pos, upgrade_type);
                self.upgrades.push(u);
                n = n + 1;
            }
        }
    }

    /// The first asteroid (in list order) whose cells cover `p`, if any.
    fn find_asteroid_hit(&self, p: (u16, u16)) -> (r: Option<usize>)
        requires
            forall|i: int| 0 <= i < self.asteroids@.len() ==> (#[trigger] self.asteroids@[i]).wf(),
        ensures
            match r {
                Option::Some(idx) => idx < self.asteroids@.len() && asteroid_covers(
                    self.asteroids@[idx as int],
                    p,
                ) && forall|k: int|
                    0 <= k < idx as int ==> !asteroid_covers(#[trigger] self.asteroids@[k], p),
                Option::None => forall|k: int|
                    0 <= k < self.asteroids@.len() ==> !asteroid_covers(
                        #[trigger] self.asteroids@[k],
                        p,
                    ),
            },
    {
        let mut i: usize = 0;
        while i < self.asteroids.len()
            invariant
                forall|k: int|
                    0 <= k < self.asteroids@.len() ==> (#[trigger] self.asteroids@[k]).wf(),
                i <= self.asteroids@.len(),
                forall|k: int|
                    0 <= k < i as int ==> !asteroid_covers(#[trigger] self.asteroids@[k], p),
            decreases self.asteroids@.len() - i,
        {
            let ac = self.asteroids[i].get_absolute_coords();
            let c = cells_contain(&ac, p);
            proof {
                let a = self.asteroids@[i as int];
                if c {
                    let j = choose|j: int| 0 <= j < ac@.len() && ac@[j] == p;
                    assert(asteroid_cells(a)[j] == (p.0 as int, p.1 as int));
                    assert(asteroid_covers(a, p));
                } else {
                    if asteroid_covers(a, p) {
                        let j = choose|j: int|
                            0 <= j < asteroid_cells(a).len() && asteroid_cells(a)[j] == (
                            p.0 as int,
                            p.1 as int,
                            );
                        assert(ac@[j] == p);
                        assert(ac@.contains(p));
                        assert(false);
                    }
                }
            }
            if c {
                return Some(i);
            }
            i = i + 1;
        }
        None
    }

    /// The first upgrade box (in list order) whose cells cover `p`, if any.
    fn find_box_hit(&self, p: (u16, u16)) -> (r: Option<usize>)
        requires
            forall|i: int|
                0 <= i < self.upgrade_boxes@.len() ==> (#[trigger] self.upgrade_boxes@[i]).wf(),
        ensures
            match r {
                Option::Some(idx) => idx < self.upgrade_boxes@.len() && box_covers(
                    self.upgrade_boxes@[idx as int],
                    p,
                ) && forall|k: int|
                    0 <= k < idx as int ==> !box_covers(#[trigger] self.upgrade_boxes@[k], p),
                Option::None => forall|k: int|
                    0 <= k < self.upgrade_boxes@.len() ==> !box_covers(
                        #[trigger] self.upgrade_boxes@[k],
                        p,
                    ),
            },
    {
        let mut i: usize = 0;
        while i < self.upgrade_boxes.len()
            invariant
                forall|k: int|
                    0 <= k < self.upgrade_boxes@.len() ==> (#[trigger] self.upgrade_boxes@[k]).wf(),
                i <= self.upgrade_boxes@.len(),
                forall|k: int|
                    0 <= k < i as int ==> !box_covers(#[trigger] self.upgrade_boxes@[k], p),
            decreases self.upgrade_boxes@.len() - i,
        {
            let bc = self.upgrade_boxes[i].get_absolute_coords();
            let c = cells_contain(&bc, p);
            proof {
                let b = self.upgrade_boxes@[i as int];
                if c {
                    let j = choose|j: int| 0 <= j < bc@.len() && bc@[j] == p;
                    assert(box_cells(b)[j] == (p.0 as int, p.1 as int));
                    assert(box_covers(b, p));
                } else {
                    if box_covers(b, p) {
                        let j = choose|j: int|
                            0 <= j < box_cells(b).len() && box_cells(b)[j] == (
                            p.0 as int,
                            p.1 as int,
                            );
                        assert(bc@[j] == p);
                        assert(bc@.contains(p));
                        assert(false);
                    }
                }
            }
            if c {
                return Some(i);
            }
            i = i + 1;
        }
        None
    }

    /// Advance every bullet one frame and resolve its hits: a bullet whose
    /// collision cell lands on an asteroid destroys the first such asteroid
    /// (fragments and score per `destroy_asteroid_at`); only otherwise it
    /// may land one hit on the first overlapping upgrade box. A bullet that
    /// hit anything, or whose lifetime ran out, is removed.
    pub fn update_bullets(&mut self)
        requires
            old(self).wf(),
        ensures
            final(self).wf(),
            bullets_pass_rel(*old(self), *final(self)),
    {
        let w = self.terminal_width;
        let h = self.terminal_height;
        let ghost orig = self.bullets@;
        let mut tmp: Vec<Bullet> = Vec::new();
        core::mem::swap(&mut tmp, &mut self.bullets);
        let mut kept: Vec<Bullet> = Vec::new();
        let ghost mut states: Seq<GameState> = seq![*self];
        while tmp.len() > 0
            invariant
                self.wf(),
                self.bullets@.len() == 0,
                self.terminal_width == w,
                self.terminal_height == h,
                w == old(self).terminal_width,
                h == old(self).terminal_height,
                tmp@.len() <= orig.len(),
                tmp@ == orig.subrange(orig.len() - tmp@.len(), orig.len() as int),
                forall|i: int|
                    0 <= i < orig.len() ==> (#[trigger] orig[i]).wf() && orig[i].lifetime >= 1,
                forall|i: int|
                    0 <= i < kept@.len() ==> (#[trigger] kept@[i]).wf() && kept@[i].lifetime >= 1,
                kept@.len() + tmp@.len() <= orig.len(),
                self.ship == old(self).ship,
                self.player_health == old(self).player_health,
                self.last_shot_frame == old(self).last_shot_frame,
                self.last_hit_frame == old(self).last_hit_frame,
                self.running == old(self).running,
                self.asteroid_spawn_rate == old(self).asteroid_spawn_rate,
                self.max_asteroids == old(self).max_asteroids,
                self.difficulty_increase_timer == old(self).difficulty_increase_timer,
                self.game_speed_multiplier == old(self).game_speed_multiplier,
                self.frame_count == old(self).frame_count,
                self.max_frames == old(self).max_frames,
                self.current_banner == old(self).current_banner,
                self.score >= old(self).score,
                old(self).particles@.len() <= self.particles@.len(),
                forall|i: int|
                    0 <= i < old(self).particles@.len() ==> self.particles@[i] == old(
                        self,
                    ).particles@[i],
                states.len() == orig.len() - tmp@.len() + 1,
                same_but_bullets(states.first(), *old(self)),
                states.last() == *self,
                forall|i: int|
                    0 <= i < orig.len() - tmp@.len() ==> bullet_resolved_rel(
                        states[i],
                        states[i + 1],
                        orig[i],
                    ),
                kept@ == kept_of_chain(states, orig.subrange(0, orig.len() - tmp@.len())),
            decreases tmp@.len(),
        {
            let ghost k = orig.len() - tmp@.len();
            let mut b = tmp.remove(0);
            proof {
                assert(b == orig[k]);
                assert(orig.subrange(k, orig.len() as int).remove(0) =~= orig.subrange(
                    k + 1,
                    orig.len() as int,
                ));
            }
            let ghost mid = *self;
            let ghost kept_before = kept@;
            b.update(w, h);
            proof {
                assert(b == bullet_moved(orig[k], w, h));
            }
            let bx = round_cell(b.position.x);
            let by = round_cell(b.position.y);
            proof {
                assert((bx, by) == bullet_cell(b));
            }
            let mut consumed: bool = false;
            let hit = self.find_asteroid_hit((bx, by));
            match hit {
                Option::Some(idx) => {
                    proof {
                        assert(hits_first_asteroid(mid.asteroids@, (bx, by), idx as int));
                    }
                    self.destroy_asteroid_at(idx);
                    consumed = true;
                    proof {
                        assert(asteroid_destroyed_rel(mid, *self, idx as int));
                        assert(bullet_resolved_rel(mid, *self, orig[k]));
                        assert(!bullet_survives(mid, orig[k]));
                    }
                },
                Option::None => {
                    proof {
                        assert(!(exists|i: int|
                            hits_first_asteroid(mid.asteroids@, (bx, by), i))) by {
                            if exists|i: int| hits_first_asteroid(mid.asteroids@, (bx, by), i) {
                                let i = choose|i: int|
                                    hits_first_asteroid(mid.asteroids@, (bx, by), i);
                                assert(asteroid_covers(mid.asteroids@[i], (bx, by)));
                            }
                        }
                    }
                    let bhit = self.find_box_hit((bx, by));
                    match bhit {
                        Option::Some(j) => {
                            proof {
                                assert(hits_first_box(mid.upgrade_boxes@, (bx, by), j as int));
                            }
                            self.hit_upgrade_box_at(j);
                            consumed = true;
                            proof {
                                assert(box_hit_rel(mid, *self, j as int));
                                assert(bullet_resolved_rel(mid, *self, orig[k]));
                                assert(!bullet_survives(mid, orig[k]));
                            }
                        },
                        Option::None => {
                            proof {
                                assert(!(exists|j: int|
                                    hits_first_box(mid.upgrade_boxes@, (bx, by), j))) by {
                                    if exists|j: int|
                                        hits_first_box(mid.upgrade_boxes@, (bx, by), j) {
                                        let j = choose|j: int|
                                            hits_first_box(mid.upgrade_boxes@, (bx, by), j);
                                        assert(box_covers(mid.upgrade_boxes@[j], (bx, by)));
                                    }
                                }
                                assert(same_but_bullets(*self, mid));
                                assert(bullet_resolved_rel(mid, *self, orig[k]));
                                assert(bullet_survives(mid, orig[k]) <==> b.lifetime >= 1);
                            }
                        },
                    }
                },
            }
            if b.lifetime > 0 && !consumed {
                kept.push(b);
            }
            proof {
                let prev = orig.subrange(0, k);
                let cur = orig.subrange(0, k + 1);
                assert(cur.drop_last() =~= prev);
                assert(cur.last() == orig[k]);
                let prev_states = states;
                states = states.push(*self);
                assert(states.drop_last() =~= prev_states);
                assert(states[k] == mid);
                assert(kept@ == (if bullet_survives(mid, cur.last()) {
                    kept_before.push(
                        bullet_moved(cur.last(), mid.terminal_width, mid.terminal_height),
                    )
                } else {
                    kept_before
                }));
                assert(kept@ == kept_of_chain(states, cur));
            }
        }
        proof {
            assert(orig.subrange(0, orig.len() as int) =~= orig);
        }
        let ghost endstate = *self;
        self.bullets = kept;
        proof {
            assert(same_but_bullets(states.last(), *self));
            assert(states.len() == orig.len() + 1 && same_but_bullets(states.first(), *old(self))
                && same_but_bullets(states.last(), *final(self)) && (forall|i: int|
                0 <= i < orig.len() ==> bullet_resolved_rel(states[i], states[i + 1], orig[i]))
                && self.bullets@ == kept_of_chain(states, orig));
        }
    }

    /// Advance every particle one frame and drop the expired ones: the new
    /// list is exactly the old one, moved, with the dead filtered out and
    /// the order kept.
    pub fn update_particles(&mut self)
        requires
            old(self).wf(),
        ensures
            final(self).wf(),
            particles_pass_rel(*old(self), *final(self)),
    {
        let ghost orig = self.particles@;
        let mut tmp: Vec<Particle> = Vec::new();
        core::mem::swap(&mut tmp, &mut self.particles);
        let mut kept: Vec<Particle> = Vec::new();
        while tmp.len() > 0
            invariant
                forall|i: int|
                    0 <= i < orig.len() ==> (#[trigger] orig[i]).wf() && orig[i].lifetime >= 1,
                tmp@.len() <= orig.len(),
                tmp@ == orig.subrange(orig.len() - tmp@.len(), orig.len() as int),
                kept@ == particles_stepped(orig.subrange(0, orig.len() - tmp@.len())),
                forall|i: int|
                    0 <= i < kept@.len() ==> (#[trigger] kept@[i]).wf() && kept@[i].lifetime >= 1,
            decreases tmp@.len(),
        {
            let ghost k = orig.len() - tmp@.len();
            let mut p = tmp.remove(0);
            proof {
                assert(p == orig[k]);
                assert(orig.subrange(k, orig.len() as int).remove(0) =~= orig.subrange(
                    k + 1,
                    orig.len() as int,
                ));
            }
            p.update();
            proof {
                assert(p == particle_moved(orig[k]));
                let prev = orig.subrange(0, k);
                let cur = orig.subrange(0, k + 1);
                assert(cur.drop_last() =~= prev);
                assert(cur.last() == orig[k]);
            }
            if p.lifetime > 0 {
                kept.push(p);
            }
        }
        proof {
            assert(orig.subrange(0, orig.len() as int) =~= orig);
        }
        self.particles = kept;
    }

    /// Apply one pickup's effect. Multiplicative upgrades compound on the
    /// current multiplier; health can never exceed the maximum; every
    /// pickup also raises the notification banner for its kind.
    pub fn apply_upgrade(&mut self, upgrade_type: UpgradeType)
        requires
            old(self).wf(),
        ensures
            final(self).wf(),
            final(self).asteroids == old(self).asteroids,
            final(self).bullets == old(self).bullets,
            final(self).particles == old(self).particles,
            final(self).upgrade_boxes == old(self).upgrade_boxes,
            final(self).upgrades == old(self).upgrades,
            final(self).last_shot_frame == old(self).last_shot_frame,
            final(self).last_hit_frame == old(self).last_hit_frame,
            final(self).score == old(self).score,
            final(self).asteroid_spawn_rate == old(self).asteroid_spawn_rate,
            final(self).max_asteroids == old(self).max_asteroids,
            final(self).difficulty_increase_timer == old(self).difficulty_increase_timer,
            final(self).game_speed_multiplier == old(self).game_speed_multiplier,
            final(self).running == old(self).running,
            final(self).frame_count == old(self).frame_count,
            final(self).max_frames == old(self).max_frames,
            final(self).terminal_width == old(self).terminal_width,
            final(self).terminal_height == old(self).terminal_height,
            final(self).current_banner == banner_after(upgrade_type, old(self).frame_count),
            final(self).player_health <= final(self).ship.max_health,
            (final(self).ship, final(self).player_health) == upgrade_applied(
                old(self).ship,
                old(self).player_health,
                upgrade_type,
            ),
    {
        match upgrade_type {
            UpgradeType::FireRate => {
                self.ship.fire_rate_multiplier = bump_multiplier(self.ship.fire_rate_multiplier);
            },
            UpgradeType::BulletSpeed => {
                self.ship.bullet_speed_multiplier = bump_multiplier(
                    self.ship.bullet_speed_multiplier,
                );
            },
            UpgradeType::BulletSize => {
                let v: i64 = self.ship.bullet_size_multiplier + 500;
                self.ship.bullet_size_multiplier = if v > MULT_LIMIT {
                    MULT_LIMIT
                } else {
                    v
                };
            },
            UpgradeType::Booster => {
                self.ship.booster_multiplier = bump_multiplier(self.ship.booster_multiplier);
            },
            UpgradeType::Shield => {
                self.ship.shield_count = self.ship.shield_count.saturating_add(1);
            },
            UpgradeType::ShipSize => {
                let v: i64 = self.ship.ship_size_multiplier + 200;
                self.ship.ship_size_multiplier = if v > MULT_LIMIT {
                    MULT_LIMIT
                } else {
                    v
                };
                self.ship.max_health = self.ship.max_health.saturating_add(1);
                let raised: u32 = self.player_health.saturating_add(1);
                self.player_health = if raised > self.ship.max_health {
                    self.ship.max_health
                } else {
                    raised
                };
            },
            UpgradeType::Health => {
                let raised: u32 = self.player_health.saturating_add(1);
                self.player_health = if raised > self.ship.max_health {
                    self.ship.max_health
                } else {
                    raised
                };
            },
            UpgradeType::HealthMax => {
                self.player_health = self.ship.max_health;
            },
        }
        self.current_banner = Some((upgrade_type, self.frame_count.saturating_add(BANNER_FRAMES)));
    }

    /// The ship collects every pickup within the collection radius this
    /// frame, applying each collected pickup's effect in list order; the
    /// rest stay, in order.
    pub fn collect_upgrades(&mut self)
        requires
            old(self).wf(),
        ensures
            final(self).wf(),
            collect_pass_rel(*old(self), *final(self)),
    {
        let ghost orig = self.upgrades@;
        let ghost pos0 = self.ship.position;
        let mut tmp: Vec<Upgrade> = Vec::new();
        core::mem::swap(&mut tmp, &mut self.upgrades);
        let mut kept: Vec<Upgrade> = Vec::new();
        while tmp.len() > 0
            invariant
                self.wf(),
                self.upgrades@.len() == 0,
                pos0 == old(self).ship.position,
                0 <= pos0.x < POS_LIMIT,
                0 <= pos0.y < POS_LIMIT,
                self.ship.position == pos0,
                self.ship.velocity == old(self).ship.velocity,
                self.ship.angle == old(self).ship.angle,
                self.ship.angular_velocity == old(self).ship.angular_velocity,
                forall|i: int| 0 <= i < orig.len() ==> (#[trigger] orig[i]).wf(),
                tmp@.len() <= orig.len(),
                tmp@ == orig.subrange(orig.len() - tmp@.len(), orig.len() as int),
                kept@ == upgrades_kept(orig.subrange(0, orig.len() - tmp@.len()), pos0),
                forall|i: int| 0 <= i < kept@.len() ==> (#[trigger] kept@[i]).wf(),
                self.asteroids == old(self).asteroids,
                self.bullets == old(self).bullets,
                self.particles == old(self).particles,
                self.upgrade_boxes == old(self).upgrade_boxes,
                self.last_shot_frame == old(self).last_shot_frame,
                self.last_hit_frame == old(self).last_hit_frame,
                self.score == old(self).score,
                self.asteroid_spawn_rate == old(self).asteroid_spawn_rate,
                self.max_asteroids == old(self).max_asteroids,
                self.difficulty_increase_timer == old(self).difficulty_increase_timer,
                self.game_speed_multiplier == old(self).game_speed_multiplier,
                self.running == old(self).running,
                self.frame_count == old(self).frame_count,
                self.max_frames == old(self).max_frames,
                self.terminal_width == old(self).terminal_width,
                self.terminal_height == old(self).terminal_height,
                (self.ship, self.player_health, self.current_banner) == collected_fold(
                    orig.subrange(0, orig.len() - tmp@.len()),
                    pos0,
                    old(self).ship,
                    old(self).player_health,
                    old(self).current_banner,
                    old(self).frame_count,
                ),
            decreases tmp@.len(),
        {
            let ghost k = orig.len() - tmp@.len();
            let u = tmp.remove(0);
            proof {
                assert(u == orig[k]);
                assert(orig.subrange(k, orig.len() as int).remove(0) =~= orig.subrange(
                    k + 1,
                    orig.len() as int,
                ));
            }
            let dx: i64 = self.ship.position.x - u.position.x;
            let dy: i64 = self.ship.position.y - u.position.y;
            proof {
                assert(dx * dx + dy * dy <= 9_000_000_000_000_000 && dx * dx >= 0 && dy * dy >= 0)
                    by (nonlinear_arith)
                    requires
                        -67_000_000 <= dx <= 67_000_000,
                        -67_000_000 <= dy <= 67_000_000,
                ;
            }
            let d2: i64 = dx * dx + dy * dy;
            proof {
                let prev = orig.subrange(0, k);
                let cur = orig.subrange(0, k + 1);
                assert(cur.drop_last() =~= prev);
                assert(cur.last() == orig[k]);
            }
            if d2 <= UPGRADE_COLLECTION_RADIUS * UPGRADE_COLLECTION_RADIUS {
                self.apply_upgrade(u.upgrade_type);
            } else {
                kept.push(u);
            }
        }
        proof {
            assert(orig.subrange(0, orig.len() as int) =~= orig);
        }
        self.upgrades = kept;
    }

    /// One frame of the simulation pipeline, in fixed order: ship
    /// kinematics, conditional spawns, difficulty tick, asteroid pass with
    /// ship collision, bullet pass with asteroid and box collision,
    /// particle pass, and upgrade pickup pass. Reaching zero health turns
    /// `running` off within this same call.
    pub fn update_game_state(&mut self)
        requires
            old(self).wf(),
        ensures
            final(self).wf(),
            final(self).frame_count == old(self).frame_count,
            final(self).max_frames == old(self).max_frames,
            final(self).last_shot_frame == old(self).last_shot_frame,
            final(self).terminal_width == old(self).terminal_width,
            final(self).terminal_height == old(self).terminal_height,
            final(self).score >= old(self).score,
            final(self).running ==> old(self).running,
            final(self).player_health == 0 ==> !final(self).running,
            (
                final(self).asteroid_spawn_rate as int,
                final(self).max_asteroids as int,
                final(self).difficulty_increase_timer as int,
                final(self).game_speed_multiplier as int,
            ) == difficulty_ticked(
                old(self).asteroid_spawn_rate as int,
                old(self).max_asteroids as int,
                old(self).difficulty_increase_timer as int,
                old(self).game_speed_multiplier as int,
            ),
            update_pipeline_rel(*old(self), *final(self)),
    {
        let w = self.terminal_width;
        let h = self.terminal_height;
        self.ship.update(w, h);
        let ghost g1 = *self;
        proof {
            assert(g1.ship == ship_moved(old(self).ship, w, h));
            assert(ship_stage_rel(*old(self), g1));
        }
        self.maybe_spawn_asteroid();
        let ghost g2 = *self;
        self.maybe_spawn_upgrade_box();
        let ghost g3 = *self;
        self.difficulty_tick();
        let ghost g4 = *self;
        self.resolve_ship_asteroid_collisions();
        let ghost g5 = *self;
        self.update_bullets();
        let ghost g6 = *self;
        self.update_particles();
        let ghost g7 = *self;
        self.collect_upgrades();
        proof {
            assert(spawn_asteroid_rel(g1, g2));
            assert(spawn_box_rel(g2, g3));
            assert(difficulty_stage_rel(g3, g4));
            assert(ship_collision_rel(g4, g5));
            assert(bullets_pass_rel(g5, g6));
            assert(particles_pass_rel(g6, g7));
            assert(collect_pass_rel(g7, *self));
            assert(update_pipeline_rel(*old(self), *self));
        }
    }

    /// Drive one whole frame: a finished run is left untouched; a run
    /// whose optional frame budget is exhausted (or whose frame counter
    /// cannot advance) stops; otherwise the frame ingests at most one
    /// input event, runs the update pipeline, and advances the frame
    /// counter.
    pub fn step(&mut self, event: Option<InputEvent>)
        requires
            old(self).wf(),
            event matches Some(InputEvent::Resize(w, h)) ==> w >= 1 && h >= 1,
        ensures
            final(self).wf(),
            !old(self).running ==> *final(self) == *old(self),
            final(self).running ==> old(self).running,
            final(self).player_health == 0 ==> !final(self).running,
            ({
                let budget_stop = (old(self).max_frames matches Some(m) && old(self).frame_count
                    >= m) || old(self).frame_count == u64::MAX;
                &&& (old(self).running && budget_stop ==> !final(self).running && final(self).ship
                    == old(self).ship && final(self).asteroids == old(self).asteroids && final(self).bullets == old(self).bullets && final(self).particles == old(self).particles
                    && final(self).upgrade_boxes == old(self).upgrade_boxes && final(self).upgrades
                    == old(self).upgrades && final(self).player_health == old(self).player_health
                    && final(self).score == old(self).score && final(self).frame_count == old(
                    self,
                ).frame_count)
                &&& (old(self).running && !budget_stop ==> final(self).frame_count == old(
                    self,
                ).frame_count + 1 && final(self).score >= old(self).score && (exists|
                    s1: GameState,
                    s2: GameState,
                |
                    #![auto]
                    input_rel(*old(self), s1, event) && update_pipeline_rel(s1, s2)
                        && same_but_frame(*final(self), s2) && final(self).frame_count
                        == s2.frame_count + 1))
            }),
    {
        if !self.running {
            return;
        }
        let budget_stop: bool = match self.max_frames {
            Option::Some(m) => self.frame_count >= m,
            Option::None => false,
        };
        if budget_stop || self.frame_count == u64::MAX {
            self.running = false;
            return;
        }
        self.handle_input(event);
        let ghost g1 = *self;
        self.update_game_state();
        let ghost g2 = *self;
        self.frame_count = self.frame_count + 1;
        proof {
            assert(input_rel(*old(self), g1, event));
            assert(update_pipeline_rel(g1, g2));
            assert(same_but_frame(*self, g2));
        }
    }
}

/// The difficulty stage of a frame: one controller tick, nothing else
/// touched.
pub open spec fn difficulty_stage_rel(pre: GameState, post: GameState) -> bool {
    &&& (post.ship == pre.ship)
    &&& (post.asteroids == pre.asteroids)
    &&& (post.bullets == pre.bullets)
    &&& (post.particles == pre.particles)
    &&& (post.upgrade_boxes == pre.upgrade_boxes)
    &&& (post.upgrades == pre.upgrades)
    &&& (post.player_health == pre.player_health)
    &&& (post.last_shot_frame == pre.last_shot_frame)
    &&& (post.last_hit_frame == pre.last_hit_frame)
    &&& (post.score == pre.score)
    &&& (post.running == pre.running)
    &&& (post.frame_count == pre.frame_count)
    &&& (post.max_frames == pre.max_frames)
    &&& (post.current_banner == pre.current_banner)
    &&& (post.terminal_width == pre.terminal_width)
    &&& (post.terminal_height == pre.terminal_height)
    &&& ((
                post.asteroid_spawn_rate as int,
                post.max_asteroids as int,
                post.difficulty_increase_timer as int,
                post.game_speed_multiplier as int,
            ) == difficulty_ticked(
                pre.asteroid_spawn_rate as int,
                pre.max_asteroids as int,
                pre.difficulty_increase_timer as int,
                pre.game_speed_multiplier as int,
            ))
}

/// The asteroid-spawn stage of a frame: exactly one Large asteroid
/// appears on a field edge when the cap leaves room and the frame index
/// lands on the spawn rate; otherwise nothing changes.
pub open spec fn spawn_asteroid_rel(pre: GameState, post: GameState) -> bool {
    &&& (post.ship == pre.ship)
    &&& (post.bullets == pre.bullets)
    &&& (post.particles == pre.particles)
    &&& (post.upgrade_boxes == pre.upgrade_boxes)
    &&& (post.upgrades == pre.upgrades)
    &&& (post.player_health == pre.player_health)
    &&& (post.last_shot_frame == pre.last_shot_frame)
    &&& (post.last_hit_frame == pre.last_hit_frame)
    &&& (post.score == pre.score)
    &&& (post.asteroid_spawn_rate == pre.asteroid_spawn_rate)
    &&& (post.max_asteroids == pre.max_asteroids)
    &&& (post.difficulty_increase_timer == pre.difficulty_increase_timer)
    &&& (post.game_speed_multiplier == pre.game_speed_multiplier)
    &&& (post.running == pre.running)
    &&& (post.frame_count == pre.frame_count)
    &&& (post.max_frames == pre.max_frames)
    &&& (post.current_banner == pre.current_banner)
    &&& (post.terminal_width == pre.terminal_width)
    &&& (post.terminal_height == pre.terminal_height)
    &&& (({
                let spawn = pre.asteroids@.len() < pre.max_asteroids && pre.frame_count % pre.asteroid_spawn_rate == 0;
                if spawn {
                    &&& post.asteroids@.len() == pre.asteroids@.len() + 1
                    &&& (forall|i: int|
                        0 <= i < pre.asteroids@.len() ==> post.asteroids@[i] == pre.asteroids@[i])
                    &&& post.asteroids@.last().wf()
                    &&& post.asteroids@.last().size == AsteroidSize::Large
                    &&& asteroid_velocity_possible(
                        post.asteroids@.last().velocity,
                        AsteroidSize::Large,
                        pre.game_speed_multiplier as int,
                    )
                    &&& on_field_edge(
                        post.asteroids@.last().position,
                        pre.terminal_width,
                        pre.terminal_height,
                    )
                } else {
                    post.asteroids == pre.asteroids
                }
            }))
}

/// The box-spawn stage of a frame: one fresh upgrade box appears when the
/// frame index lands on the box spawn rate; otherwise nothing changes.
pub open spec fn spawn_box_rel(pre: GameState, post: GameState) -> bool {
    &&& (post.ship == pre.ship)
    &&& (post.asteroids == pre.asteroids)
    &&& (post.bullets == pre.bullets)
    &&& (post.particles == pre.particles)
    &&& (post.upgrades == pre.upgrades)
    &&& (post.player_health == pre.player_health)
    &&& (post.last_shot_frame == pre.last_shot_frame)
    &&& (post.last_hit_frame == pre.last_hit_frame)
    &&& (post.score == pre.score)
    &&& (post.asteroid_spawn_rate == pre.asteroid_spawn_rate)
    &&& (post.max_asteroids == pre.max_asteroids)
    &&& (post.difficulty_increase_timer == pre.difficulty_increase_timer)
    &&& (post.game_speed_multiplier == pre.game_speed_multiplier)
    &&& (post.running == pre.running)
    &&& (post.frame_count == pre.frame_count)
    &&& (post.max_frames == pre.max_frames)
    &&& (post.current_banner == pre.current_banner)
    &&& (post.terminal_width == pre.terminal_width)
    &&& (post.terminal_height == pre.terminal_height)
    &&& (({
                let spawn = pre.frame_count % UPGRADE_BOX_SPAWN_RATE == 0;
                if spawn {
                    &&& post.upgrade_boxes@.len() == pre.upgrade_boxes@.len() + 1
                    &&& (forall|i: int|
                        0 <= i < pre.upgrade_boxes@.len() ==> post.upgrade_boxes@[i]
                            == pre.upgrade_boxes@[i])
                    &&& post.upgrade_boxes@.last().wf()
                    &&& post.upgrade_boxes@.last().hits_remaining
                        == crate::constants::UPGRADE_BOX_HITS
                    &&& 0 <= post.upgrade_boxes@.last().position.x < pre.terminal_width as int * 1000
                    &&& 0 <= post.upgrade_boxes@.last().position.y < pre.terminal_height as int * 1000
                } else {
                    post.upgrade_boxes == pre.upgrade_boxes
                }
            }))
}

/// The asteroid stage of a frame: every asteroid drifts and wraps, and
/// ship contact outside the invincibility window costs one shield charge
/// or one point of health, ending the run at zero health.
pub open spec fn ship_collision_rel(pre: GameState, post: GameState) -> bool {
    &&& (post.asteroids@.len() == pre.asteroids@.len())
    &&& (forall|i: int|
                0 <= i < pre.asteroids@.len() ==> post.asteroids@[i]
                    == asteroid_moved(
                    pre.asteroids@[i],
                    pre.terminal_width,
                    pre.terminal_height,
                ))
    &&& (post.ship == ship_with_shield(pre.ship, post.ship.shield_count))
    &&& (post.bullets == pre.bullets)
    &&& (post.particles == pre.particles)
    &&& (post.upgrade_boxes == pre.upgrade_boxes)
    &&& (post.upgrades == pre.upgrades)
    &&& (post.last_shot_frame == pre.last_shot_frame)
    &&& (post.score == pre.score)
    &&& (post.asteroid_spawn_rate == pre.asteroid_spawn_rate)
    &&& (post.max_asteroids == pre.max_asteroids)
    &&& (post.difficulty_increase_timer == pre.difficulty_increase_timer)
    &&& (post.game_speed_multiplier == pre.game_speed_multiplier)
    &&& (post.frame_count == pre.frame_count)
    &&& (post.max_frames == pre.max_frames)
    &&& (post.current_banner == pre.current_banner)
    &&& (post.terminal_width == pre.terminal_width)
    &&& (post.terminal_height == pre.terminal_height)
    &&& (({
                let hit = exists|i: int|
                    0 <= i < pre.asteroids@.len() && ship_hits_asteroid(
                        pre.ship,
                        #[trigger] asteroid_moved(
                            pre.asteroids@[i],
                            pre.terminal_width,
                            pre.terminal_height,
                        ),
                    );
                let applied = hit && damage_gate_open(pre.frame_count, pre.last_hit_frame);
                if applied {
                    &&& (post.ship.shield_count, post.player_health) == damage_outcome(
                        pre.ship.shield_count,
                        pre.player_health,
                    )
                    &&& post.last_hit_frame == pre.frame_count
                    &&& post.running == (pre.running && post.player_health != 0)
                } else {
                    &&& post.ship.shield_count == pre.ship.shield_count
                    &&& post.player_health == pre.player_health
                    &&& post.last_hit_frame == pre.last_hit_frame
                    &&& post.running == pre.running
                }
            }))
}

/// The bullet stage of a frame: each bullet, in order, resolves against
/// the state its predecessors left (see `bullet_resolved_rel`), and the
/// surviving moved bullets remain.
pub open spec fn bullets_pass_rel(pre: GameState, post: GameState) -> bool {
    &&& (post.ship == pre.ship)
    &&& (post.player_health == pre.player_health)
    &&& (post.last_shot_frame == pre.last_shot_frame)
    &&& (post.last_hit_frame == pre.last_hit_frame)
    &&& (post.running == pre.running)
    &&& (post.asteroid_spawn_rate == pre.asteroid_spawn_rate)
    &&& (post.max_asteroids == pre.max_asteroids)
    &&& (post.difficulty_increase_timer == pre.difficulty_increase_timer)
    &&& (post.game_speed_multiplier == pre.game_speed_multiplier)
    &&& (post.frame_count == pre.frame_count)
    &&& (post.max_frames == pre.max_frames)
    &&& (post.current_banner == pre.current_banner)
    &&& (post.terminal_width == pre.terminal_width)
    &&& (post.terminal_height == pre.terminal_height)
    &&& (post.bullets@.len() <= pre.bullets@.len())
    &&& (post.score >= pre.score)
    &&& (pre.particles@.len() <= post.particles@.len())
    &&& (forall|i: int|
                0 <= i < pre.particles@.len() ==> post.particles@[i] == pre.particles@[i])
    &&& (exists|states: Seq<GameState>|
                #![auto]
                states.len() == pre.bullets@.len() + 1 && same_but_bullets(
                    states.first(),
                    pre,
                ) && same_but_bullets(states.last(), post) && (forall|i: int|
                    0 <= i < pre.bullets@.len() ==> bullet_resolved_rel(
                        states[i],
                        states[i + 1],
                        pre.bullets@[i],
                    )) && post.bullets@ == kept_of_chain(states, pre.bullets@))
}

/// The particle stage of a frame: every particle drifts and the expired
/// ones are pruned, order kept.
pub open spec fn particles_pass_rel(pre: GameState, post: GameState) -> bool {
    &&& (post.particles@ == particles_stepped(pre.particles@))
    &&& (post.ship == pre.ship)
    &&& (post.asteroids == pre.asteroids)
    &&& (post.bullets == pre.bullets)
    &&& (post.upgrade_boxes == pre.upgrade_boxes)
    &&& (post.upgrades == pre.upgrades)
    &&& (post.player_health == pre.player_health)
    &&& (post.last_shot_frame == pre.last_shot_frame)
    &&& (post.last_hit_frame == pre.last_hit_frame)
    &&& (post.score == pre.score)
    &&& (post.asteroid_spawn_rate == pre.asteroid_spawn_rate)
    &&& (post.max_asteroids == pre.max_asteroids)
    &&& (post.difficulty_increase_timer == pre.difficulty_increase_timer)
    &&& (post.game_speed_multiplier == pre.game_speed_multiplier)
    &&& (post.running == pre.running)
    &&& (post.frame_count == pre.frame_count)
    &&& (post.max_frames == pre.max_frames)
    &&& (post.current_banner == pre.current_banner)
    &&& (post.terminal_width == pre.terminal_width)
    &&& (post.terminal_height == pre.terminal_height)
}

/// The pickup stage of a frame: pickups within the collection radius are
/// absorbed in list order, applying their effects; the rest stay.
pub open spec fn collect_pass_rel(pre: GameState, post: GameState) -> bool {
    &&& (post.upgrades@ == upgrades_kept(pre.upgrades@, pre.ship.position))
    &&& (post.asteroids == pre.asteroids)
    &&& (post.bullets == pre.bullets)
    &&& (post.particles == pre.particles)
    &&& (post.upgrade_boxes == pre.upgrade_boxes)
    &&& (post.last_shot_frame == pre.last_shot_frame)
    &&& (post.last_hit_frame == pre.last_hit_frame)
    &&& (post.score == pre.score)
    &&& (post.asteroid_spawn_rate == pre.asteroid_spawn_rate)
    &&& (post.max_asteroids == pre.max_asteroids)
    &&& (post.difficulty_increase_timer == pre.difficulty_increase_timer)
    &&& (post.game_speed_multiplier == pre.game_speed_multiplier)
    &&& (post.running == pre.running)
    &&& (post.frame_count == pre.frame_count)
    &&& (post.max_frames == pre.max_frames)
    &&& (post.terminal_width == pre.terminal_width)
    &&& (post.terminal_height == pre.terminal_height)
    &&& (post.ship.position == pre.ship.position)
    &&& (post.ship.velocity == pre.ship.velocity)
    &&& (post.ship.angle == pre.ship.angle)
    &&& (post.ship.angular_velocity == pre.ship.angular_velocity)
    &&& (post.player_health <= post.ship.max_health)
    &&& ((post.ship, post.player_health, post.current_banner)
                == collected_fold(
                pre.upgrades@,
                pre.ship.position,
                pre.ship,
                pre.player_health,
                pre.current_banner,
                pre.frame_count,
            ))
}

/// A ship one frame later: position integrated and wrapped, angle
/// integrated and wrapped, both frictions applied, everything else kept.
pub open spec fn ship_moved(s: Ship, w: u16, h: u16) -> Ship {
    Ship {
        position: Vector2D {
            x: ((s.position.x + s.velocity.x) % (w as int * 1000)) as i64,
            y: ((s.position.y + s.velocity.y) % (h as int * 1000)) as i64,
        },
        velocity: Vector2D {
            x: fx_mul(s.velocity.x as int, crate::constants::SHIP_FRICTION as int) as i64,
            y: fx_mul(s.velocity.y as int, crate::constants::SHIP_FRICTION as int) as i64,
        },
        angle: ((s.angle + s.angular_velocity) % (FULL_TURN as int)) as i64,
        angular_velocity: fx_mul(
            s.angular_velocity as int,
            crate::constants::SHIP_ANGULAR_FRICTION as int,
        ) as i64,
        ..s
    }
}

/// The ship-kinematics stage of a frame: only the ship moves.
pub open spec fn ship_stage_rel(pre: GameState, post: GameState) -> bool {
    post == (GameState { ship: ship_moved(pre.ship, pre.terminal_width, pre.terminal_height), ..pre })
}

/// The input stage of a frame: what ingesting one (optional) event does.
pub open spec fn input_rel(pre: GameState, post: GameState, event: Option<InputEvent>) -> bool {
    &&& (input_preserves(pre, post))
    &&& (match event {
                Option::None => post == pre,
                Option::Some(InputEvent::Quit) => !post.running && post.ship == pre.ship && post.bullets == pre.bullets && post.particles == pre.particles && post.last_shot_frame == pre.last_shot_frame,
                Option::Some(InputEvent::MoveLeft) => post.ship.angular_velocity
                    == clamp_spec(
                    pre.ship.angular_velocity - crate::constants::SHIP_ROTATION_SPEED,
                    -crate::constants::ANGULAR_VEL_LIMIT as int,
                    crate::constants::ANGULAR_VEL_LIMIT as int,
                ) && post.bullets == pre.bullets && post.particles == pre.particles && post.running == pre.running && post.last_shot_frame == pre.last_shot_frame && post.ship.position == pre.ship.position && post.ship.velocity == pre.ship.velocity,
                Option::Some(InputEvent::MoveRight) => post.ship.angular_velocity
                    == clamp_spec(
                    pre.ship.angular_velocity + crate::constants::SHIP_ROTATION_SPEED,
                    -crate::constants::ANGULAR_VEL_LIMIT as int,
                    crate::constants::ANGULAR_VEL_LIMIT as int,
                ) && post.bullets == pre.bullets && post.particles == pre.particles && post.running == pre.running && post.last_shot_frame == pre.last_shot_frame,
                Option::Some(InputEvent::Thrust) => post.ship.velocity.x == clamp_spec(
                    pre.ship.velocity.x + crate::entities::thrust_delta_x(pre.ship),
                    -VEL_LIMIT as int,
                    VEL_LIMIT as int,
                ) && post.ship.velocity.y == clamp_spec(
                    pre.ship.velocity.y + crate::entities::thrust_delta_y(pre.ship),
                    -VEL_LIMIT as int,
                    VEL_LIMIT as int,
                ) && post.particles@.len() == pre.particles@.len() + 1 && (forall|
                    i: int,
                |
                    0 <= i < pre.particles@.len() ==> post.particles@[i] == pre.particles@[i]) && ({
                    let p = post.particles@.last();
                    &&& p.position == pre.ship.position
                    &&& p.velocity.x == -fx_mul(cos_milli_spec(pre.ship.angle as int), 500)
                    &&& p.velocity.y == -fx_mul(sin_milli_spec(pre.ship.angle as int), 500)
                    &&& p.lifetime == 10
                    &&& p.display_char == '.'
                }) && post.bullets == pre.bullets && post.running == pre.running && post.last_shot_frame == pre.last_shot_frame,
                Option::Some(InputEvent::Fire) => post.ship == pre.ship && post.particles == pre.particles && post.running == pre.running && if
                    fire_allowed(pre.frame_count, pre.last_shot_frame) {
                    post.bullets@.len() == pre.bullets@.len() + 1 && (forall|i: int|
                        0 <= i < pre.bullets@.len() ==> post.bullets@[i] == pre.bullets@[i]) && post.last_shot_frame == pre.frame_count && ({
                        let b = post.bullets@.last();
                        &&& b.position == pre.ship.position
                        &&& b.velocity.x == fx_mul(
                            cos_milli_spec(pre.ship.angle as int),
                            bullet_speed_of(pre.ship),
                        )
                        &&& b.velocity.y == fx_mul(
                            sin_milli_spec(pre.ship.angle as int),
                            bullet_speed_of(pre.ship),
                        )
                        &&& b.lifetime == crate::constants::BULLET_LIFETIME
                        &&& b.size == pre.ship.bullet_size_multiplier
                    })
                } else {
                    post.bullets == pre.bullets && post.last_shot_frame == pre.last_shot_frame
                },
                Option::Some(InputEvent::Resize(w, h)) => post.terminal_width == w && post.terminal_height == h && post.ship == pre.ship && post.bullets
                    == pre.bullets && post.particles == pre.particles && post.running == pre.running && post.last_shot_frame == pre.last_shot_frame,
            })
    &&& (!(event matches Some(InputEvent::Resize(rw, rh))) ==> post.terminal_width == pre.terminal_width && post.terminal_height == pre.terminal_height)
}

/// The whole per-frame pipeline, stage by stage in its fixed order: there
/// are intermediate states linked by the ship, spawn, difficulty,
/// ship-collision, bullet, particle and pickup stage relations.
pub open spec fn update_pipeline_rel(pre: GameState, post: GameState) -> bool {
    exists|
        s1: GameState,
        s2: GameState,
        s3: GameState,
        s4: GameState,
        s5: GameState,
        s6: GameState,
        s7: GameState,
    |
        #![auto]
        ship_stage_rel(pre, s1) && spawn_asteroid_rel(s1, s2) && spawn_box_rel(s2, s3)
            && difficulty_stage_rel(s3, s4) && ship_collision_rel(s4, s5) && bullets_pass_rel(
            s5,
            s6,
        ) && particles_pass_rel(s6, s7) && collect_pass_rel(s7, post)
}

/// Every field of the run state except the frame counter agrees.
pub open spec fn same_but_frame(a: GameState, b: GameState) -> bool {
    &&& a.terminal_width == b.terminal_width
    &&& a.terminal_height == b.terminal_height
    &&& a.ship == b.ship
    &&& a.asteroids == b.asteroids
    &&& a.bullets == b.bullets
    &&& a.particles == b.particles
    &&& a.upgrade_boxes == b.upgrade_boxes
    &&& a.upgrades == b.upgrades
    &&& a.player_health == b.player_health
    &&& a.last_shot_frame == b.last_shot_frame
    &&& a.last_hit_frame == b.last_hit_frame
    &&& a.score == b.score
    &&& a.asteroid_spawn_rate == b.asteroid_spawn_rate
    &&& a.max_asteroids == b.max_asteroids
    &&& a.difficulty_increase_timer == b.difficulty_increase_timer
    &&& a.game_speed_multiplier == b.game_speed_multiplier
    &&& a.running == b.running
    &&& a.max_frames == b.max_frames
    &&& a.current_banner == b.current_banner
    &&& a.rng == b.rng
}

/// The notification banner text raised by collecting a pickup of the
/// given kind.
pub fn banner_text(upgrade_type: UpgradeType) -> (r: &'static str)
    ensures
        match upgrade_type {
            UpgradeType::FireRate => r@ == "Fire Rate Increased!"@,
            UpgradeType::BulletSpeed => r@ == "Bullet Speed Increased!"@,
            UpgradeType::BulletSize => r@ == "Bullet Size Increased!"@,
            UpgradeType::Booster => r@ == "Booster Power Increased!"@,
            UpgradeType::Shield => r@ == "Shield Added!"@,
            UpgradeType::ShipSize => r@ == "Ship Size Increased!"@,
            UpgradeType::Health => r@ == "Health Restored!"@,
            UpgradeType::HealthMax => r@ == "Health Maxed!"@,
        },
{
    match upgrade_type {
        UpgradeType::FireRate => "Fire Rate Increased!",
        UpgradeType::BulletSpeed => "Bullet Speed Increased!",
        UpgradeType::BulletSize => "Bullet Size Increased!",
        UpgradeType::Booster => "Booster Power Increased!",
        UpgradeType::Shield => "Shield Added!",
        UpgradeType::ShipSize => "Ship Size Increased!",
        UpgradeType::Health => "Health Restored!",
        UpgradeType::HealthMax => "Health Maxed!",
    }
}

/// Raise a multiplier by ten percent, saturating at the cap.
fn bump_multiplier(m: i64) -> (r: i64)
    requires
        0 <= m <= MULT_LIMIT,
    ensures
        r == bumped_multiplier(m as int),
        0 <= r <= MULT_LIMIT,
{
    proof {
        lemma_fx_mul_nonneg_bounded(m as int, 1100, MULT_LIMIT as int, 1100);
    }
    let b: i64 = mul_milli(m, 1100);
    if b > MULT_LIMIT {
        MULT_LIMIT
    } else {
        b
    }
}

/// The ship's occupied display cells, as mathematical coordinate pairs.
pub open spec fn ship_cells(s: Ship) -> Seq<(int, int)> {
    Seq::new(3, |i: int| s.cell_spec(i))
}

/// An asteroid's occupied display cells.
pub open spec fn asteroid_cells(a: Asteroid) -> Seq<(int, int)> {
    Seq::new(a.shape@.len(), |i: int| a.cell_spec(i))
}

/// An upgrade box's occupied display cells.
pub open spec fn box_cells(b: UpgradeBox) -> Seq<(int, int)> {
    Seq::new(b.shape@.len(), |i: int| b.cell_spec(i))
}

/// Discrete collision: the ship and the asteroid overlap exactly when their
/// occupied cell sets intersect.
pub open spec fn ship_hits_asteroid(s: Ship, a: Asteroid) -> bool {
    exists|i: int, j: int|
        0 <= i < ship_cells(s).len() && 0 <= j < asteroid_cells(a).len() && ship_cells(s)[i]
            == asteroid_cells(a)[j]
}

/// An asteroid one frame later: drifted by its velocity and wrapped onto
/// the field; everything else unchanged.
pub open spec fn asteroid_moved(a: Asteroid, w: u16, h: u16) -> Asteroid {
    Asteroid {
        position: Vector2D {
            x: ((a.position.x + a.velocity.x) % (w as int * 1000)) as i64,
            y: ((a.position.y + a.velocity.y) % (h as int * 1000)) as i64,
        },
        ..a
    }
}

/// Shield absorbs first: one applied hit burns a shield charge if any is
/// held, and only otherwise one point of health (saturating at zero).
pub open spec fn damage_outcome(shield: u32, health: u32) -> (u32, u32) {
    if shield > 0 {
        ((shield - 1) as u32, health)
    } else {
        (
            shield,
            if health > 0 {
                (health - 1) as u32
            } else {
                0u32
            },
        )
    }
}

/// A ship identical to `s` except for the shield charge count.
pub open spec fn ship_with_shield(s: Ship, shield: u32) -> Ship {
    Ship { shield_count: shield, ..s }
}

/// Whether the cell list contains the cell `p`.
fn cells_contain(cells: &Vec<(u16, u16)>, p: (u16, u16)) -> (r: bool)
    ensures
        r == cells@.contains(p),
{
    let mut i: usize = 0;
    while i < cells.len()
        invariant
            i <= cells@.len(),
            forall|k: int| 0 <= k < i as int ==> cells@[k] != p,
        decreases cells@.len() - i,
    {
        let (a, b) = cells[i];
        if a == p.0 && b == p.1 {
            proof {
                assert(cells@[i as int] == p);
            }
            return true;
        }
        i = i + 1;
    }
    false
}

/// Whether the two cell lists share a cell.
fn cells_intersect(a: &Vec<(u16, u16)>, b: &Vec<(u16, u16)>) -> (r: bool)
    ensures
        r == (exists|i: int| 0 <= i < a@.len() && b@.contains(a@[i])),
{
    let mut i: usize = 0;
    while i < a.len()
        invariant
            i <= a@.len(),
            forall|k: int| 0 <= k < i as int ==> !b@.contains(#[trigger] a@[k]),
        decreases a@.len() - i,
    {
        let p = a[i];
        if cells_contain(b, p) {
            proof {
                assert(b@.contains(a@[i as int]));
            }
            return true;
        }
        i = i + 1;
    }
    false
}

/// Whether the ship's and the asteroid's occupied cells intersect.
fn check_ship_asteroid_collision(ship: &Ship, asteroid: &Asteroid) -> (r: bool)
    requires
        ship.wf(),
        asteroid.wf(),
    ensures
        r == ship_hits_asteroid(*ship, *asteroid),
{
    let sc = ship.get_absolute_coords();
    let ac = asteroid.get_absolute_coords();
    let r = cells_intersect(&sc, &ac);
    proof {
        if r {
            let i = choose|i: int| 0 <= i < sc@.len() && ac@.contains(sc@[i]);
            let j = choose|j: int| 0 <= j < ac@.len() && ac@[j] == sc@[i];
            assert(ship_cells(*ship)[i] == asteroid_cells(*asteroid)[j]);
            assert(ship_hits_asteroid(*ship, *asteroid));
        } else {
            if ship_hits_asteroid(*ship, *asteroid) {
                let (i, j): (int, int) = choose|i: int, j: int|
                    0 <= i < ship_cells(*ship).len() && 0 <= j < asteroid_cells(*asteroid).len()
                        && ship_cells(*ship)[i] == asteroid_cells(*asteroid)[j];
                assert(sc@[i].0 as int == asteroid_cells(*asteroid)[j].0);
                assert(ac@[j].0 as int == asteroid_cells(*asteroid)[j].0);
                assert(sc@[i] == ac@[j]);
                assert(ac@.contains(sc@[i]));
                assert(false);
            }
        }
    }
    r
}

/// A position on one of the four field edges (where asteroids enter).
pub open spec fn on_field_edge(p: Vector2D, w: u16, h: u16) -> bool {
    &&& 0 <= p.x < w as int * 1000
    &&& 0 <= p.y < h as int * 1000
    &&& (p.y == 0 || p.x == (w as int - 1) * 1000 || p.y == (h as int - 1) * 1000 || p.x == 0)
}

/// Whether an asteroid's occupied cells cover the display cell `p`.
pub open spec fn asteroid_covers(a: Asteroid, p: (u16, u16)) -> bool {
    exists|j: int|
        0 <= j < asteroid_cells(a).len() && asteroid_cells(a)[j] == (p.0 as int, p.1 as int)
}

/// Whether an upgrade box's occupied cells cover the display cell `p`.
pub open spec fn box_covers(b: UpgradeBox, p: (u16, u16)) -> bool {
    exists|j: int| 0 <= j < box_cells(b).len() && box_cells(b)[j] == (p.0 as int, p.1 as int)
}

/// A particle one frame later: drifted by its velocity (particles do not
/// wrap) with one frame of life burnt.
pub open spec fn particle_moved(p: Particle) -> Particle {
    Particle {
        position: Vector2D {
            x: (p.position.x + p.velocity.x) as i64,
            y: (p.position.y + p.velocity.y) as i64,
        },
        lifetime: (p.lifetime - 1) as u32,
        ..p
    }
}

/// A particle survives the frame if it still has life left.
pub open spec fn particle_alive(p: Particle) -> bool {
    p.lifetime >= 1
}

/// A bullet one frame later: drifted by its velocity, wrapped onto the
/// field, with one frame of lifetime burnt.
pub open spec fn bullet_moved(b: Bullet, w: u16, h: u16) -> Bullet {
    Bullet {
        position: Vector2D {
            x: ((b.position.x + b.velocity.x) % (w as int * 1000)) as i64,
            y: ((b.position.y + b.velocity.y) % (h as int * 1000)) as i64,
        },
        lifetime: (b.lifetime - 1) as u32,
        ..b
    }
}

/// The display cell a bullet's collision point occupies.
pub open spec fn bullet_cell(b: Bullet) -> (u16, u16) {
    (
        round_cell_spec(b.position.x as int) as u16,
        round_cell_spec(b.position.y as int) as u16,
    )
}

/// Every field of the run state except the bullet list agrees.
pub open spec fn same_but_bullets(a: GameState, b: GameState) -> bool {
    &&& a.terminal_width == b.terminal_width
    &&& a.terminal_height == b.terminal_height
    &&& a.ship == b.ship
    &&& a.asteroids == b.asteroids
    &&& a.particles == b.particles
    &&& a.upgrade_boxes == b.upgrade_boxes
    &&& a.upgrades == b.upgrades
    &&& a.player_health == b.player_health
    &&& a.last_shot_frame == b.last_shot_frame
    &&& a.last_hit_frame == b.last_hit_frame
    &&& a.score == b.score
    &&& a.asteroid_spawn_rate == b.asteroid_spawn_rate
    &&& a.max_asteroids == b.max_asteroids
    &&& a.difficulty_increase_timer == b.difficulty_increase_timer
    &&& a.game_speed_multiplier == b.game_speed_multiplier
    &&& a.running == b.running
    &&& a.frame_count == b.frame_count
    &&& a.max_frames == b.max_frames
    &&& a.current_banner == b.current_banner
    &&& a.rng == b.rng
}

/// `i` indexes the first asteroid, in list order, whose cells cover `c`.
pub open spec fn hits_first_asteroid(asts: Seq<Asteroid>, c: (u16, u16), i: int) -> bool {
    &&& 0 <= i < asts.len()
    &&& asteroid_covers(asts[i], c)
    &&& forall|k: int| 0 <= k < i ==> !asteroid_covers(#[trigger] asts[k], c)
}

/// `j` indexes the first upgrade box, in list order, whose cells cover `c`.
pub open spec fn hits_first_box(boxes: Seq<UpgradeBox>, c: (u16, u16), j: int) -> bool {
    &&& 0 <= j < boxes.len()
    &&& box_covers(boxes[j], c)
    &&& forall|k: int| 0 <= k < j ==> !box_covers(#[trigger] boxes[k], c)
}

/// The effect of a bullet destroying the asteroid at `idx`: its
/// size-dependent score awarded (saturating), the asteroid replaced by its
/// fragments at the same position, five explosion particles appended, and
/// everything else (except the bullet list and the generator state the
/// fragments and burst consumed) untouched.
pub open spec fn asteroid_destroyed_rel(pre: GameState, post: GameState, idx: int) -> bool {
    let size = pre.asteroids@[idx].size;
    let pos = pre.asteroids@[idx].position;
    &&& post.ship == pre.ship
    &&& post.upgrade_boxes == pre.upgrade_boxes
    &&& post.upgrades == pre.upgrades
    &&& post.player_health == pre.player_health
    &&& post.last_shot_frame == pre.last_shot_frame
    &&& post.last_hit_frame == pre.last_hit_frame
    &&& post.asteroid_spawn_rate == pre.asteroid_spawn_rate
    &&& post.max_asteroids == pre.max_asteroids
    &&& post.difficulty_increase_timer == pre.difficulty_increase_timer
    &&& post.game_speed_multiplier == pre.game_speed_multiplier
    &&& post.running == pre.running
    &&& post.frame_count == pre.frame_count
    &&& post.max_frames == pre.max_frames
    &&& post.current_banner == pre.current_banner
    &&& post.terminal_width == pre.terminal_width
    &&& post.terminal_height == pre.terminal_height
    &&& post.score as int == (if pre.score + score_value(size) <= u32::MAX {
        pre.score + score_value(size)
    } else {
        u32::MAX as int
    })
    &&& post.asteroids@.len() == pre.asteroids@.len() - 1 + fragment_count(size)
    &&& (forall|i: int| 0 <= i < idx ==> post.asteroids@[i] == pre.asteroids@[i])
    &&& (forall|i: int|
        idx <= i < pre.asteroids@.len() - 1 ==> post.asteroids@[i] == pre.asteroids@[i + 1])
    &&& (forall|i: int|
        pre.asteroids@.len() - 1 <= i < post.asteroids@.len() ==> (
        #[trigger] post.asteroids@[i]).wf() && post.asteroids@[i].size == fragment_size(size)
            && post.asteroids@[i].position == pos && asteroid_velocity_possible(
            post.asteroids@[i].velocity,
            fragment_size(size),
            pre.game_speed_multiplier as int,
        ))
    &&& post.particles@.len() == pre.particles@.len() + 5
    &&& (forall|i: int| 0 <= i < pre.particles@.len() ==> post.particles@[i] == pre.particles@[i])
    &&& (forall|i: int|
        pre.particles@.len() <= i < post.particles@.len() ==> (
        #[trigger] post.particles@[i]).wf() && post.particles@[i].position == pos
            && post.particles@[i].lifetime == 15 && post.particles@[i].display_char == '#')
}

/// The effect of a bullet landing one hit on the upgrade box at `idx`: one
/// charge burnt and three burst particles appended; on the last charge the
/// box is removed and one to three pickups appear at its position.
pub open spec fn box_hit_rel(pre: GameState, post: GameState, idx: int) -> bool {
    let hits = pre.upgrade_boxes@[idx].hits_remaining;
    let pos = pre.upgrade_boxes@[idx].position;
    &&& post.ship == pre.ship
    &&& post.asteroids == pre.asteroids
    &&& post.player_health == pre.player_health
    &&& post.last_shot_frame == pre.last_shot_frame
    &&& post.last_hit_frame == pre.last_hit_frame
    &&& post.score == pre.score
    &&& post.asteroid_spawn_rate == pre.asteroid_spawn_rate
    &&& post.max_asteroids == pre.max_asteroids
    &&& post.difficulty_increase_timer == pre.difficulty_increase_timer
    &&& post.game_speed_multiplier == pre.game_speed_multiplier
    &&& post.running == pre.running
    &&& post.frame_count == pre.frame_count
    &&& post.max_frames == pre.max_frames
    &&& post.current_banner == pre.current_banner
    &&& post.terminal_width == pre.terminal_width
    &&& post.terminal_height == pre.terminal_height
    &&& post.particles@.len() == pre.particles@.len() + 3
    &&& (forall|i: int| 0 <= i < pre.particles@.len() ==> post.particles@[i] == pre.particles@[i])
    &&& (forall|i: int|
        pre.particles@.len() <= i < post.particles@.len() ==> (
        #[trigger] post.particles@[i]).wf() && post.particles@[i].position == pos
            && post.particles@[i].lifetime == 10 && post.particles@[i].display_char == '+')
    &&& if hits > 1 {
        &&& post.upgrade_boxes@.len() == pre.upgrade_boxes@.len()
        &&& (forall|i: int|
            0 <= i < pre.upgrade_boxes@.len() && i != idx ==> post.upgrade_boxes@[i]
                == pre.upgrade_boxes@[i])
        &&& post.upgrade_boxes@[idx].hits_remaining == hits - 1
        &&& post.upgrade_boxes@[idx].position == pos
        &&& post.upgrades == pre.upgrades
    } else {
        &&& post.upgrade_boxes@.len() == pre.upgrade_boxes@.len() - 1
        &&& (forall|i: int| 0 <= i < idx ==> post.upgrade_boxes@[i] == pre.upgrade_boxes@[i])
        &&& (forall|i: int|
            idx <= i < post.upgrade_boxes@.len() ==> post.upgrade_boxes@[i]
                == pre.upgrade_boxes@[i + 1])
        &&& pre.upgrades@.len() + 1 <= post.upgrades@.len() <= pre.upgrades@.len() + 3
        &&& (forall|i: int| 0 <= i < pre.upgrades@.len() ==> post.upgrades@[i] == pre.upgrades@[i])
        &&& (forall|i: int|
            pre.upgrades@.len() <= i < post.upgrades@.len() ==> (
            #[trigger] post.upgrades@[i]).wf() && post.upgrades@[i].position == pos)
    }
}

/// How one bullet resolves against the state its predecessors left: the
/// first asteroid its cell covers is destroyed; only otherwise the first
/// covered upgrade box takes one hit; a bullet that covers nothing leaves
/// the state unchanged.
pub open spec fn bullet_resolved_rel(pre: GameState, post: GameState, b: Bullet) -> bool {
    let m = bullet_moved(b, pre.terminal_width, pre.terminal_height);
    let c = bullet_cell(m);
    if exists|i: int| hits_first_asteroid(pre.asteroids@, c, i) {
        exists|i: int|
            #[trigger] hits_first_asteroid(pre.asteroids@, c, i) && asteroid_destroyed_rel(
                pre,
                post,
                i,
            )
    } else if exists|j: int| hits_first_box(pre.upgrade_boxes@, c, j) {
        exists|j: int|
            #[trigger] hits_first_box(pre.upgrade_boxes@, c, j) && box_hit_rel(pre, post, j)
    } else {
        same_but_bullets(post, pre)
    }
}

/// Whether the moved bullet survives the pass in this state: lifetime left
/// and nothing covered.
pub open spec fn bullet_survives(s: GameState, b: Bullet) -> bool {
    let m = bullet_moved(b, s.terminal_width, s.terminal_height);
    &&& m.lifetime >= 1
    &&& !(exists|i: int| hits_first_asteroid(s.asteroids@, bullet_cell(m), i))
    &&& !(exists|j: int| hits_first_box(s.upgrade_boxes@, bullet_cell(m), j))
}

/// The bullets that survive a pass, given the chain of states the pass
/// went through: bullet `i` of `s` resolves against `states[i]`, and a
/// surviving bullet is kept in its moved form, order preserved.
pub open spec fn kept_of_chain(states: Seq<GameState>, s: Seq<Bullet>) -> Seq<Bullet>
    decreases s.len(),
{
    if s.len() == 0 {
        Seq::empty()
    } else {
        let rest = kept_of_chain(states.drop_last(), s.drop_last());
        let st = states[s.len() - 1];
        if bullet_survives(st, s.last()) {
            rest.push(bullet_moved(s.last(), st.terminal_width, st.terminal_height))
        } else {
            rest
        }
    }
}

/// One frame of the particle pass over a whole list: every particle moved,
/// the expired ones dropped, order kept.
pub open spec fn particles_stepped(s: Seq<Particle>) -> Seq<Particle>
    decreases s.len(),
{
    if s.len() == 0 {
        Seq::empty()
    } else {
        let rest = particles_stepped(s.drop_last());
        let m = particle_moved(s.last());
        if particle_alive(m) {
            rest.push(m)
        } else {
            rest
        }
    }
}

/// Whether the ship's position lies within the collection radius of the
/// pickup (compared on squared distances, so no square root is needed).
pub open spec fn upgrade_collected(ship_pos: Vector2D, u: Upgrade) -> bool {
    (ship_pos.x - u.position.x) * (ship_pos.x - u.position.x) + (ship_pos.y - u.position.y) * (
    ship_pos.y - u.position.y) <= UPGRADE_COLLECTION_RADIUS * UPGRADE_COLLECTION_RADIUS
}

/// The pickups that remain after the collection pass, order kept.
pub open spec fn upgrades_kept(s: Seq<Upgrade>, ship_pos: Vector2D) -> Seq<Upgrade>
    decreases s.len(),
{
    if s.len() == 0 {
        Seq::empty()
    } else {
        let rest = upgrades_kept(s.drop_last(), ship_pos);
        if upgrade_collected(ship_pos, s.last()) {
            rest
        } else {
            rest.push(s.last())
        }
    }
}

/// The banner raised by applying a pickup of kind `t` at frame `frame`.
pub open spec fn banner_after(t: UpgradeType, frame: u64) -> Option<(UpgradeType, u64)> {
    Some(
        (
            t,
            if frame + BANNER_FRAMES <= u64::MAX {
                (frame + BANNER_FRAMES) as u64
            } else {
                u64::MAX
            },
        ),
    )
}

/// The effect of one applied pickup on the ship and the health value.
pub open spec fn upgrade_applied(ship: Ship, health: u32, t: UpgradeType) -> (Ship, u32) {
    match t {
        UpgradeType::FireRate => (
            Ship {
                fire_rate_multiplier: bumped_multiplier(ship.fire_rate_multiplier as int) as i64,
                ..ship
            },
            health,
        ),
        UpgradeType::BulletSpeed => (
            Ship {
                bullet_speed_multiplier: bumped_multiplier(
                    ship.bullet_speed_multiplier as int,
                ) as i64,
                ..ship
            },
            health,
        ),
        UpgradeType::BulletSize => (
            Ship {
                bullet_size_multiplier: capped_add(
                    ship.bullet_size_multiplier as int,
                    500,
                    MULT_LIMIT as int,
                ) as i64,
                ..ship
            },
            health,
        ),
        UpgradeType::Booster => (
            Ship { booster_multiplier: bumped_multiplier(ship.booster_multiplier as int) as i64, ..ship },
            health,
        ),
        UpgradeType::Shield => (
            Ship {
                shield_count: if ship.shield_count < u32::MAX {
                    (ship.shield_count + 1) as u32
                } else {
                    u32::MAX
                },
                ..ship
            },
            health,
        ),
        UpgradeType::ShipSize => {
            let new_max = if ship.max_health < u32::MAX {
                (ship.max_health + 1) as u32
            } else {
                u32::MAX
            };
            let raised = if health < u32::MAX {
                (health + 1) as u32
            } else {
                u32::MAX
            };
            (
                Ship {
                    ship_size_multiplier: capped_add(
                        ship.ship_size_multiplier as int,
                        200,
                        MULT_LIMIT as int,
                    ) as i64,
                    max_health: new_max,
                    ..ship
                },
                if raised > new_max {
                    new_max
                } else {
                    raised
                },
            )
        },
        UpgradeType::Health => {
            let raised = if health < u32::MAX {
                (health + 1) as u32
            } else {
                u32::MAX
            };
            (
                ship,
                if raised > ship.max_health {
                    ship.max_health
                } else {
                    raised
                },
            )
        },
        UpgradeType::HealthMax => (ship, ship.max_health),
    }
}

/// The ship, health value and banner after the whole collection pass: the
/// effect of every collected pickup applied in list order.
pub open spec fn collected_fold(
    s: Seq<Upgrade>,
    pos: Vector2D,
    ship: Ship,
    health: u32,
    banner: Option<(UpgradeType, u64)>,
    frame: u64,
) -> (Ship, u32, Option<(UpgradeType, u64)>)
    decreases s.len(),
{
    if s.len() == 0 {
        (ship, health, banner)
    } else {
        let p = collected_fold(s.drop_last(), pos, ship, health, banner, frame);
        if upgrade_collected(pos, s.last()) {
            let a = upgrade_applied(p.0, p.1, s.last().upgrade_type);
            (a.0, a.1, banner_after(s.last().upgrade_type, frame))
        } else {
            p
        }
    }
}

/// A multiplier raised by ten percent, saturating at the representable cap.
pub open spec fn bumped_multiplier(m: int) -> int {
    if (m * 1100) / 1000 > MULT_LIMIT {
        MULT_LIMIT as int
    } else {
        (m * 1100) / 1000
    }
}

/// An additive multiplier step, saturating at the cap.
pub open spec fn capped_add(m: int, d: int, cap: int) -> int {
    if m + d > cap {
        cap
    } else {
        m + d
    }
}

/// The size class of the fragments a destroyed asteroid leaves behind
/// (Small asteroids leave none, so their entry is unused).
pub open spec fn fragment_size(s: AsteroidSize) -> AsteroidSize {
    match s {
        AsteroidSize::Large => AsteroidSize::Medium,
        AsteroidSize::Medium => AsteroidSize::Small,
        AsteroidSize::Small => AsteroidSize::Small,
    }
}

/// How many fragments a destroyed asteroid of this size leaves behind.
pub open spec fn fragment_count(s: AsteroidSize) -> int {
    match s {
        AsteroidSize::Large => 2,
        AsteroidSize::Medium => 2,
        AsteroidSize::Small => 0,
    }
}

/// The score awarded for destroying an asteroid of this size: smaller,
/// faster asteroids are worth more.
pub open spec fn score_value(s: AsteroidSize) -> u32 {
    match s {
        AsteroidSize::Large => SCORE_LARGE_ASTEROID,
        AsteroidSize::Medium => SCORE_MEDIUM_ASTEROID,
        AsteroidSize::Small => SCORE_SMALL_ASTEROID,
    }
}

/// The conserved "mass" of a size class, used to state that fragmentation
/// never creates matter.
pub open spec fn size_weight(s: AsteroidSize) -> int {
    match s {
        AsteroidSize::Large => 4,
        AsteroidSize::Medium => 2,
        AsteroidSize::Small => 1,
    }
}

/// Fragmentation invariant: destroying one asteroid yields exactly two
/// fragments of the strictly smaller size class (none for Small), and the
/// total size-weighted mass never increases.
pub proof fn lemma_fragmentation_mass(s: AsteroidSize)
    ensures
        fragment_count(s) * size_weight(fragment_size(s)) <= size_weight(s),
        s != AsteroidSize::Small ==> fragment_count(s) == 2,
        s == AsteroidSize::Small ==> fragment_count(s) == 0,
{
}

/// The spawn rate after one escalation: nine tenths, rounded to nearest,
/// floored at the minimum spawn rate.
pub open spec fn decayed_spawn_rate(rate: int) -> int {
    let d = (rate * 9 + 5) / 10;
    if d < MIN_ASTEROID_SPAWN_RATE as int {
        MIN_ASTEROID_SPAWN_RATE as int
    } else {
        d
    }
}

/// One tick of the difficulty controller over its four scalars (spawn
/// rate, asteroid cap, escalation timer, speed multiplier): the timer
/// advances each frame, and on filling it resets while the other three
/// escalate atomically (saturating at their representable caps).
pub open spec fn difficulty_ticked(rate: int, maxa: int, timer: int, speed: int) -> (
    int,
    int,
    int,
    int,
) {
    if timer + 1 >= DIFFICULTY_INCREASE_INTERVAL_FRAMES as int {
        (
            decayed_spawn_rate(rate),
            if maxa == usize::MAX as int {
                maxa
            } else {
                maxa + 1
            },
            0,
            if speed + GAME_SPEED_MULTIPLIER_INCREASE > GAME_SPEED_LIMIT as int {
                GAME_SPEED_LIMIT as int
            } else {
                speed + GAME_SPEED_MULTIPLIER_INCREASE
            },
        )
    } else {
        (rate, maxa, timer + 1, speed)
    }
}

/// The difficulty scalars after `n` frames of ticking.
pub open spec fn difficulty_after(rate: int, maxa: int, timer: int, speed: int, n: nat) -> (
    int,
    int,
    int,
    int,
)
    decreases n,
{
    if n == 0 {
        (rate, maxa, timer, speed)
    } else {
        let p = difficulty_after(rate, maxa, timer, speed, (n - 1) as nat);
        difficulty_ticked(p.0, p.1, p.2, p.3)
    }
}

/// While the escalation timer has not filled, ticking only advances it.
proof fn lemma_difficulty_quiet_prefix(rate: int, maxa: int, speed: int, n: nat)
    requires
        n <= DIFFICULTY_INCREASE_INTERVAL_FRAMES - 1,
    ensures
        difficulty_after(rate, maxa, 0, speed, n) == (rate, maxa, n as int, speed),
    decreases n,
{
    if n > 0 {
        lemma_difficulty_quiet_prefix(rate, maxa, speed, (n - 1) as nat);
    }
}

/// Difficulty escalation: starting from a freshly reset timer, after
/// exactly one escalation interval's worth of frames the asteroid cap has
/// grown by one, the spawn rate has decayed by the factor (floored at the
/// minimum), the speed multiplier has stepped up once, and the timer is
/// reset again. The preconditions only keep the cap and the multiplier
/// away from their saturation points.
pub proof fn lemma_difficulty_escalation(rate: int, maxa: int, speed: int)
    requires
        0 <= maxa < usize::MAX as int,
        speed + GAME_SPEED_MULTIPLIER_INCREASE <= GAME_SPEED_LIMIT as int,
    ensures
        difficulty_after(rate, maxa, 0, speed, DIFFICULTY_INCREASE_INTERVAL_FRAMES as nat) == (
            decayed_spawn_rate(rate),
            maxa + 1,
            0int,
            speed + GAME_SPEED_MULTIPLIER_INCREASE,
        ),
{
    lemma_difficulty_quiet_prefix(
        rate,
        maxa,
        speed,
        (DIFFICULTY_INCREASE_INTERVAL_FRAMES - 1) as nat,
    );
}

/// Cooldown enforcement: a shot fired at frame `f1` closes the firing gate
/// for every frame less than the cooldown later, so a second fire input
/// within the window spawns no bullet.
pub proof fn lemma_cooldown_enforced(f1: u64, f2: u64)
    requires
        f1 <= f2,
        f2 - f1 < BULLET_COOLDOWN,
    ensures
        !fire_allowed(f2, f1),
{
}

/// Invincibility window: a hit recorded at frame `f1` closes the damage
/// gate for every frame within the window after it, so two collisions
/// within the window of each other cost at most one decrement.
pub proof fn lemma_invincibility_window(f1: u64, f2: u64)
    requires
        f1 <= f2,
        f2 - f1 <= INVINCIBILITY_FRAMES,
    ensures
        !damage_gate_open(f2, f1),
{
}

/// Shield priority: an applied hit with a shield charge held burns exactly
/// one charge and leaves health untouched; with no shield it costs exactly
/// one point of health, saturating at zero.
pub proof fn lemma_shield_priority(shield: u32, health: u32)
    ensures
        shield >= 1 ==> damage_outcome(shield, health) == (((shield - 1) as u32, health)),
        shield == 0 && health >= 1 ==> damage_outcome(shield, health) == ((
            shield,
            (health - 1) as u32,
        )),
        shield == 0 && health == 0 ==> damage_outcome(shield, health) == ((shield, 0u32)),
        damage_outcome(shield, health).1 <= health,
{
}

/// Scale a direction component (milli-units, within one) by a speed of at
/// most `VEL_LIMIT`: the result is a velocity component within `VEL_LIMIT`.
fn dir_scaled(c: i64, eff: i64) -> (r: i64)
    requires
        -1000 <= c <= 1000,
        0 <= eff <= VEL_LIMIT,
    ensures
        r == fx_mul(c as int, eff as int),
        -VEL_LIMIT <= r <= VEL_LIMIT,
{
    proof {
        assert(-1_000_000_000_000 <= c * eff <= 1_000_000_000_000) by (nonlinear_arith)
            requires
                -1000 <= c <= 1000,
                0 <= eff <= 1_000_000_000,
        ;
        vstd::arithmetic::div_mod::lemma_div_is_ordered(c * eff, 1_000_000_000_000, 1000);
        vstd::arithmetic::div_mod::lemma_div_is_ordered(-1_000_000_000_000, c * eff, 1000);
        vstd::arithmetic::div_mod::lemma_div_multiples_vanish(1_000_000_000, 1000);
        vstd::arithmetic::div_mod::lemma_div_multiples_vanish(-1_000_000_000, 1000);
    }
    mul_milli(c, eff)
}

} // verus!
