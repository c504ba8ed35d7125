//! Time-driven enemy spawning with rising difficulty.
use vstd::prelude::*;
use crate::enemy::Enemy;
use crate::geometry::{Color, Vec2};
use crate::random::random_in;

verus! {

/// Length of one difficulty level, in milliseconds.
pub const LEVEL_MS: i64 = 30_000;

/// Largest total play time the spawner tracks, in milliseconds.
pub const MAX_ELAPSED_MS: i64 = 1_000_000_000_000;

/// Horizontal jitter of a spawn position, in thousandths of a unit.
pub const SPAWN_JITTER: i64 = 50_000;

/// Difficulty level after `t` milliseconds: one more every thirty seconds.
pub open spec fn difficulty_level(t: int) -> int {
    t / LEVEL_MS as int
}

/// Milliseconds between spawns: five seconds, half a second less per level,
/// never under one and a half.
pub open spec fn interval_for(t: int) -> int {
    let v = 5000 - 500 * difficulty_level(t);
    if v > 1500 {
        v
    } else {
        1500
    }
}

/// Enemy cap: ten, two more per level, at most twenty.
pub open spec fn cap_for(t: int) -> int {
    let v = 10 + 2 * difficulty_level(t);
    if v < 20 {
        v
    } else {
        20
    }
}

/// Health and damage scaling in thousandths: one, plus a fifth per level.
pub open spec fn multiplier_for(t: int) -> int {
    1000 + 200 * difficulty_level(t)
}

/// The chance-dependent parts of one spawn.
#[derive(Clone, Copy, Debug)]
pub struct SpawnDraw {
    /// Index of the spawn point.
    pub point: usize,
    /// Horizontal jitter, in `[-SPAWN_JITTER, SPAWN_JITTER)`.
    pub offset_x: i64,
    /// Size scaling in thousandths, in `[900, 1100)`.
    pub size_permille: i64,
    pub red: u8,
    pub green: u8,
    pub blue: u8,
}

/// An enemy to be placed in the world.
#[derive(Clone, Copy, Debug)]
pub struct EnemySpawn {
    pub position: Vec2,
    pub enemy: Enemy,
    /// Size of its collider and sprite.
    pub body_size: Vec2,
    pub color: Color,
}

/// Creates enemies at configured points, faster and stronger as time passes.
/// Times in milliseconds; the multiplier in thousandths.
pub struct EnemySpawner {
    pub spawn_timer: i64,
    pub spawn_interval: i64,
    pub max_enemies: usize,
    pub spawn_points: Vec<Vec2>,
    pub difficulty_multiplier: i64,
    pub time_elapsed: i64,
}

impl SpawnDraw {
    pub open spec fn valid_for(self, points: int) -> bool {
        &&& self.point < points
        &&& -SPAWN_JITTER <= self.offset_x < SPAWN_JITTER
        &&& 900 <= self.size_permille < 1100
        &&& 200 <= self.red < 255
        &&& 30 <= self.green < 80
        &&& 30 <= self.blue < 80
    }
}

/// The enemy spawned with `draw` under difficulty multiplier `mult`.
pub open spec fn spawned(points: Seq<Vec2>, mult: int, draw: SpawnDraw) -> EnemySpawn {
    let base = Enemy::ranger_spec();
    let p = points[draw.point as int];
    EnemySpawn {
        position: Vec2 { x: (p.x + draw.offset_x) as i64, y: p.y },
        enemy: Enemy {
            health: (base.health * mult / 1000) as i64,
            max_health: (base.max_health * mult / 1000) as i64,
            damage: (base.damage * mult / 1000) as i64,
            ..base
        },
        body_size: Vec2 {
            x: (base.size.x * draw.size_permille / 1000) as i64,
            y: (base.size.y * draw.size_permille / 1000) as i64,
        },
        color: Color { r: draw.red, g: draw.green, b: draw.blue, a: 255 },
    }
}

impl EnemySpawner {
    pub open spec fn wf(self) -> bool {
        &&& 0 <= self.time_elapsed <= MAX_ELAPSED_MS
        &&& 0 <= self.spawn_timer <= MAX_ELAPSED_MS
        &&& forall|i: int| 0 <= i < self.spawn_points@.len() ==> (#[trigger] self.spawn_points@[i]).in_limit()
    }

    /// A spawner at time zero: five-second interval, at most ten enemies,
    /// no scaling.
    pub fn new(spawn_points: Vec<Vec2>) -> (s: EnemySpawner)
        requires
            forall|i: int| 0 <= i < spawn_points@.len() ==> (#[trigger] spawn_points@[i]).in_limit(),
        ensures
            s.wf(),
            s.spawn_timer == 0,
            s.spawn_interval == 5000,
            s.max_enemies == 10,
            s.difficulty_multiplier == 1000,
            s.time_elapsed == 0,
            s.spawn_points@ == spawn_points@,
    {
        EnemySpawner {
            spawn_timer: 0,
            spawn_interval: 5000,
            max_enemies: 10,
            spawn_points,
            difficulty_multiplier: 1000,
            time_elapsed: 0,
        }
    }

    /// Advances time by `delta_time` and recomputes the scaling from the
    /// total elapsed time. When the spawn timer has reached the interval,
    /// fewer than `max_enemies` are alive and a spawn point exists, the timer
    /// restarts and one enemy is spawned at a randomly chosen point.
    pub fn update(&mut self, enemy_count: usize, delta_time: i64) -> (r: Option<EnemySpawn>)
        requires
            old(self).wf(),
            0 <= delta_time,
            old(self).time_elapsed + delta_time <= MAX_ELAPSED_MS,
            old(self).spawn_timer + delta_time <= MAX_ELAPSED_MS,
        ensures
            final(self).wf(),
            ({
                let t = old(self).time_elapsed + delta_time;
                let timer = old(self).spawn_timer + delta_time;
                let due = timer >= interval_for(t) && enemy_count < cap_for(t)
                    && old(self).spawn_points@.len() > 0;
                &&& final(self).time_elapsed == t
                &&& final(self).spawn_interval == interval_for(t)
                &&& final(self).max_enemies == cap_for(t)
                &&& final(self).difficulty_multiplier == multiplier_for(t)
                &&& final(self).spawn_points@ == old(self).spawn_points@
                &&& final(self).spawn_timer == if due {
                    0
                } else {
                    timer
                }
                &&& r is Some == due
                &&& r matches Some(s) ==> exists|d: SpawnDraw|
                    d.valid_for(old(self).spawn_points@.len() as int) && s == #[trigger] spawned(
                        old(self).spawn_points@,
                        multiplier_for(t),
                        d,
                    )
            }),
    {
        self.time_elapsed = self.time_elapsed + delta_time;
        self.spawn_timer = self.spawn_timer + delta_time;
        let level = self.time_elapsed / LEVEL_MS;
        let iv = 5000 - 500 * level;
        self.spawn_interval = if iv > 1500 {
            iv
        } else {
            1500
        };
        let cap = 10 + 2 * level;
        self.max_enemies = if cap < 20 {
            cap as usize
        } else {
            20
        };
        self.difficulty_multiplier = 1000 + 200 * level;
        if self.spawn_timer >= self.spawn_interval && enemy_count < self.max_enemies
            && self.spawn_points.len() > 0 {
            self.spawn_timer = 0;
            let draw = self.draw_spawn();
            let s = self.spawn_enemy_with(draw);
            assert(draw.valid_for(old(self).spawn_points@.len() as int) && s == spawned(
                old(self).spawn_points@,
                multiplier_for(self.time_elapsed as int),
                draw,
            ));
            Some(s)
        } else {
            None
        }
    }

    /// Draws where and how the next enemy appears.
    pub fn draw_spawn(&self) -> (d: SpawnDraw)
        requires
            self.spawn_points@.len() > 0,
        ensures
            d.valid_for(self.spawn_points@.len() as int),
    {
        let n = self.spawn_points.len();
        let n64 = n as u64;
        let bound: i64 = if n64 <= 9_223_372_036_854_775_807u64 {
            n64 as i64
        } else {
            i64::MAX
        };
        let drawn = random_in(0, bound);
        let point = drawn as usize;
        let offset_x = random_in(-SPAWN_JITTER, SPAWN_JITTER);
        let size_permille = random_in(900, 1100);
        let red = random_in(200, 255) as u8;
        let green = random_in(30, 80) as u8;
        let blue = random_in(30, 80) as u8;
        SpawnDraw { point, offset_x, size_permille, red, green, blue }
    }

    /// The enemy that `draw` places: a ranger whose health and damage are
    /// scaled by the current multiplier, at the chosen point shifted by the
    /// jitter, with its body size and color varied.
    pub fn spawn_enemy_with(&self, draw: SpawnDraw) -> (s: EnemySpawn)
        requires
            self.wf(),
            draw.valid_for(self.spawn_points@.len() as int),
            0 <= self.difficulty_multiplier <= 10_000_000_000,
        ensures
            s == spawned(self.spawn_points@, self.difficulty_multiplier as int, draw),
    {
        let base = Enemy::ranger();
        let m = self.difficulty_multiplier;
        let p = self.spawn_points[draw.point];
        let mut enemy = base;
        enemy.health = base.health * m / 1000;
        enemy.max_health = base.max_health * m / 1000;
        enemy.damage = base.damage * m / 1000;
        EnemySpawn {
            position: Vec2::new(p.x + draw.offset_x, p.y),
            enemy,
            body_size: Vec2::new(
                base.size.x * draw.size_permille / 1000,
                base.size.y * draw.size_permille / 1000,
            ),
            color: Color::new(draw.red, draw.green, draw.blue, 255),
        }
    }

    /// A randomly placed and varied enemy (see `spawn_enemy_with`).
    pub fn spawn_enemy(&self) -> (s: EnemySpawn)
        requires
            self.wf(),
            self.spawn_points@.len() > 0,
            0 <= self.difficulty_multiplier <= 10_000_000_000,
        ensures
            exists|d: SpawnDraw|
                d.valid_for(self.spawn_points@.len() as int) && s == #[trigger] spawned(
                    self.spawn_points@,
                    self.difficulty_multiplier as int,
                    d,
                ),
    {
        let draw = self.draw_spawn();
        self.spawn_enemy_with(draw)
    }

    /// Current interval, cap and multiplier.
    pub fn get_spawn_wave_info(&self) -> (r: (i64, usize, i64))
        ensures
            r == (self.spawn_interval, self.max_enemies, self.difficulty_multiplier),
    {
        (self.spawn_interval, self.max_enemies, self.difficulty_multiplier)
    }
}

} // verus!
