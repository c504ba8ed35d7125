//! Enemy behaviour: distance bands, steering, lead aiming and the ballistic
//! firing solution.
use vstd::prelude::*;
use crate::geometry::{
    div_trunc, in_limit, in_span, in_wide, is_isqrt, isqrt_wide, lemma_sqrt_floor, length, length_sq, length_wide,
    sqrt_floor, tdiv, Vec2, COORD_LIMIT, WIDE_LIMIT,
    SPAN_LIMIT,
};
use crate::level::Level;
use crate::movement::{move_body, move_ok, resolved, MoveOutcome};
use crate::physics::{RigidBody, MAX_STEP_MS};
use crate::random::random_in;

verus! {

/// Half-width of the band around the optimal distance in which an enemy
/// strafes.
pub const STRAFE_BAND: i64 = 50_000;

/// Below this distance an enemy does not steer (a tenth of a unit).
pub const MIN_STEER_DISTANCE: i64 = 100;

/// Targets nearer than this are shot straight.
pub const NEAR_RANGE: i64 = 150_000;

/// Upward bias added to a straight shot.
pub const ARC_LIFT: i64 = 50_000;

/// Gravity assumed by the firing solution.
pub const AIM_GRAVITY: i64 = 500_000;

/// `cos 45° = sin 45°` in millionths.
pub const COS_45_PPM: i64 = 707_107;

/// Player speed above which aim leads the target.
pub const LEAD_SPEED: i64 = 10_000;

/// Range, in milliseconds, of the time between strafe reversals.
pub const STRAFE_MIN_MS: i64 = 2000;
pub const STRAFE_MAX_MS: i64 = 4000;

/// Gravity force on an enemy body.
pub const ENEMY_GRAVITY: i64 = 800_000;

#[derive(Clone, Copy, Debug, PartialEq, Eq, Structural)]
pub enum EnemyType {
    Ranger,
    Rusher,
    Sniper,
    Tank,
}

#[derive(Clone, Copy, Debug, PartialEq, Eq, Structural)]
pub enum EnemyState {
    Idle,
    Pursuing,
    Retreating,
    Strafing,
    Shooting,
}

/// Behaviour state chosen from the distance to the player.
pub open spec fn state_for(distance: int, optimal_distance: int, attack_range: int) -> EnemyState {
    if distance > attack_range {
        EnemyState::Idle
    } else if distance > optimal_distance + STRAFE_BAND {
        EnemyState::Pursuing
    } else if distance < optimal_distance - STRAFE_BAND {
        EnemyState::Retreating
    } else {
        EnemyState::Strafing
    }
}

/// The state for a distance: Idle beyond the attack range, Pursuing beyond
/// the strafing band, Retreating inside it, Strafing within it.
pub fn select_state(distance: i64, optimal_distance: i64, attack_range: i64) -> (r: EnemyState)
    requires
        in_limit(optimal_distance as int),
    ensures
        r == state_for(distance as int, optimal_distance as int, attack_range as int),
{
    if distance > attack_range {
        EnemyState::Idle
    } else if distance > optimal_distance + STRAFE_BAND {
        EnemyState::Pursuing
    } else if distance < optimal_distance - STRAFE_BAND {
        EnemyState::Retreating
    } else {
        EnemyState::Strafing
    }
}

/// `d` scaled to length one thousand, for `d` of length `len`.
pub open spec fn unit_toward(d: Vec2, len: int) -> Vec2 {
    Vec2 { x: tdiv(d.x * 1000, len) as i64, y: tdiv(d.y * 1000, len) as i64 }
}

/// Like `unit_toward`, zero for a zero length.
pub open spec fn unit_or_zero(d: Vec2, len: int) -> Vec2 {
    if len == 0 {
        Vec2::zero_spec()
    } else {
        unit_toward(d, len)
    }
}

fn unit_exec(d: Vec2, len: i64) -> (r: Vec2)
    requires
        in_wide(d.x as int),
        in_wide(d.y as int),
        len >= 0,
        d.x * d.x <= len * len || len == 0,
        d.y * d.y <= len * len || len == 0,
    ensures
        r == unit_or_zero(d, len as int),
        -1000 <= r.x <= 1000,
        -1000 <= r.y <= 1000,
{
    if len == 0 {
        return Vec2::zero();
    }
    proof {
        lemma_component_le(d.x as int, len as int);
        lemma_component_le(d.y as int, len as int);
    }
    Vec2::new(unit_component(d.x, len), unit_component(d.y, len))
}

/// `c * 1000 / len` rounded toward zero, for `|c| <= len`.
fn unit_component(c: i64, len: i64) -> (r: i64)
    requires
        in_wide(c as int),
        len > 0,
        -1000 <= tdiv(c * 1000, len as int) <= 1000,
    ensures
        r == tdiv(c * 1000, len as int),
{
    let wide: i128 = c as i128 * 1000;
    if wide >= 0 {
        (wide / len as i128) as i64
    } else {
        let q = (-wide) / len as i128;
        assert(-(c * 1000) == (-c) * 1000);
        -(q as i64)
    }
}

/// A component of a vector is no longer than the vector's rounded-down
/// length.
proof fn lemma_component_within_root(c: int, s: int, r: int)
    requires
        c * c <= s,
        is_isqrt(s, r),
    ensures
        c * c <= r * r,
{
    if c > r {
        assert(c * c >= (r + 1) * (r + 1)) by (nonlinear_arith)
            requires
                c >= r + 1,
                r >= 0,
        ;
    } else if -c > r {
        assert(c * c >= (r + 1) * (r + 1)) by (nonlinear_arith)
            requires
                -c >= r + 1,
                r >= 0,
        ;
    } else {
        assert(c * c <= r * r) by (nonlinear_arith)
            requires
                -r <= c <= r,
        ;
    }
}

/// Both components of `d` are within its rounded-down length.
proof fn lemma_within_length(d: Vec2, r: int)
    requires
        is_isqrt(d.len_sq(), r),
    ensures
        d.x * d.x <= r * r,
        d.y * d.y <= r * r,
{
    assert(d.x * d.x <= d.len_sq() && d.y * d.y <= d.len_sq()) by (nonlinear_arith)
        requires
            d.len_sq() == d.x * d.x + d.y * d.y,
    ;
    lemma_component_within_root(d.x as int, d.len_sq(), r);
    lemma_component_within_root(d.y as int, d.len_sq(), r);
}

proof fn lemma_component_le(c: int, len: int)
    requires
        len > 0,
        c * c <= len * len,
    ensures
        -len <= c <= len,
        -1000 <= tdiv(c * 1000, len) <= 1000,
{
    if c > len {
        assert(c * c > len * len) by (nonlinear_arith)
            requires
                c > len > 0,
        ;
    }
    if c < -len {
        assert(c * c > len * len) by (nonlinear_arith)
            requires
                -c > len > 0,
        ;
    }
    if c >= 0 {
        assert(c * 1000 / len <= 1000) by (nonlinear_arith)
            requires
                0 <= c <= len,
                len > 0,
        ;
        assert(c * 1000 / len >= 0) by (nonlinear_arith)
            requires
                0 <= c,
                len > 0,
        ;
    } else {
        assert((-c) * 1000 / len <= 1000) by (nonlinear_arith)
            requires
                0 <= -c <= len,
                len > 0,
        ;
        assert((-c) * 1000 / len >= 0) by (nonlinear_arith)
            requires
                0 <= -c,
                len > 0,
        ;
        assert(-(c * 1000) == (-c) * 1000);
    }
}

/// Aim point: the player's position, led by half the projectile's travel
/// time along the player's velocity when the player moves fast enough.
pub open spec fn lead_aim(
    player_pos: Vec2,
    player_velocity: Option<Vec2>,
    distance: int,
    projectile_speed: int,
) -> Vec2 {
    match player_velocity {
        Some(v) => if v.len_sq() > LEAD_SPEED * LEAD_SPEED {
            Vec2 {
                x: (player_pos.x + tdiv(v.x * distance, 2 * projectile_speed)) as i64,
                y: (player_pos.y + tdiv(v.y * distance, 2 * projectile_speed)) as i64,
            }
        } else {
            player_pos
        },
        None => player_pos,
    }
}

/// Launch velocity toward a target `delta` away. Nearer than `NEAR_RANGE`
/// the shot goes straight at `speed`, lifted by `ARC_LIFT`. Otherwise the
/// launch angle is fixed at 45°: the speed that a 45° arc needs for the
/// distance, `sqrt(distance * gravity)`, is taken one and a half times and
/// capped at `speed`, then split along the diagonal.
pub open spec fn ballistic_velocity(delta: Vec2, speed: int) -> Vec2 {
    let d = sqrt_floor(delta.len_sq());
    if d < NEAR_RANGE {
        let u = unit_or_zero(delta, d);
        Vec2 { x: tdiv(u.x * speed, 1000) as i64, y: (tdiv(u.y * speed, 1000) - ARC_LIFT) as i64 }
    } else {
        let needed = sqrt_floor(d * AIM_GRAVITY);
        let s = if speed < needed * 3 / 2 {
            speed
        } else {
            needed * 3 / 2
        };
        let c = s * COS_45_PPM / 1_000_000;
        Vec2 {
            x: (if delta.x > 0 {
                c
            } else if delta.x < 0 {
                -c
            } else {
                0
            }) as i64,
            y: (-c) as i64,
        }
    }
}

/// A shot fired by an enemy: where it starts, its unit direction (length one
/// thousand), its speed and its damage.
#[derive(Clone, Copy, Debug)]
pub struct EnemyShot {
    pub position: Vec2,
    pub direction: Vec2,
    pub speed: i64,
    pub damage: i64,
}

impl EnemyShot {
    /// Velocity of the projectile: the direction scaled to the speed.
    pub fn launch_velocity(&self) -> (v: Vec2)
        requires
            -1000 <= self.direction.x <= 1000,
            -1000 <= self.direction.y <= 1000,
            0 <= self.speed <= 2 * SPAN_LIMIT,
        ensures
            v.x == tdiv(self.direction.x * self.speed, 1000),
            v.y == tdiv(self.direction.y * self.speed, 1000),
    {
        assert(-1000 * 2 * SPAN_LIMIT <= self.direction.x * self.speed <= 1000 * 2 * SPAN_LIMIT)
            by (nonlinear_arith)
            requires
                -1000 <= self.direction.x <= 1000,
                0 <= self.speed <= 2 * SPAN_LIMIT,
        ;
        assert(-1000 * 2 * SPAN_LIMIT <= self.direction.y * self.speed <= 1000 * 2 * SPAN_LIMIT)
            by (nonlinear_arith)
            requires
                -1000 <= self.direction.y <= 1000,
                0 <= self.speed <= 2 * SPAN_LIMIT,
        ;
        Vec2::new(
            div_trunc(self.direction.x * self.speed, 1000),
            div_trunc(self.direction.y * self.speed, 1000),
        )
    }
}

/// Enemy parameters. Lengths in thousandths of a unit, speeds per second,
/// times in milliseconds, health and damage in thousandths of a point.
#[derive(Clone, Copy, Debug)]
pub struct Enemy {
    pub enemy_type: EnemyType,
    pub size: Vec2,
    pub health: i64,
    pub max_health: i64,
    pub attack_range: i64,
    pub optimal_distance: i64,
    pub movement_speed: i64,
    pub shoot_cooldown: i64,
    pub shoot_timer: i64,
    pub projectile_speed: i64,
    pub damage: i64,
    pub health_bar_timer: i64,
}

/// How long the health bar shows after a hit, in milliseconds.
pub const HEALTH_BAR_MS: i64 = 3000;

/// Largest timer value, in milliseconds.
pub const MAX_TIMER_MS: i64 = 1_000_000_000;

impl Enemy {
    pub open spec fn wf(self) -> bool {
        &&& 0 <= self.size.x <= COORD_LIMIT
        &&& 0 <= self.size.y <= COORD_LIMIT
        &&& in_limit(self.attack_range as int)
        &&& in_limit(self.optimal_distance as int)
        &&& 0 <= self.movement_speed <= COORD_LIMIT
        &&& 0 <= self.shoot_cooldown <= MAX_TIMER_MS
        &&& -MAX_STEP_MS <= self.shoot_timer <= MAX_TIMER_MS
        &&& 0 < self.projectile_speed <= COORD_LIMIT
        &&& -MAX_STEP_MS <= self.health_bar_timer <= MAX_TIMER_MS
    }

    /// The ranged enemy, the default kind.
    pub fn new() -> (e: Enemy)
        ensures
            e == Enemy::ranger_spec(),
            e.wf(),
    {
        Enemy::ranger()
    }

    pub open spec fn ranger_spec() -> Enemy {
        Enemy {
            enemy_type: EnemyType::Ranger,
            size: Vec2 { x: 32_000, y: 48_000 },
            health: 50_000,
            max_health: 50_000,
            attack_range: 600_000,
            optimal_distance: 300_000,
            movement_speed: 150_000,
            shoot_cooldown: 2000,
            shoot_timer: 0,
            projectile_speed: 600_000,
            damage: 10_000,
            health_bar_timer: 0,
        }
    }

    pub fn ranger() -> (e: Enemy)
        ensures
            e == Enemy::ranger_spec(),
            e.wf(),
    {
        Enemy {
            enemy_type: EnemyType::Ranger,
            size: Vec2::new(32_000, 48_000),
            health: 50_000,
            max_health: 50_000,
            attack_range: 600_000,
            optimal_distance: 300_000,
            movement_speed: 150_000,
            shoot_cooldown: 2000,
            shoot_timer: 0,
            projectile_speed: 600_000,
            damage: 10_000,
            health_bar_timer: 0,
        }
    }

    pub fn can_shoot(&self) -> (r: bool)
        ensures
            r == (self.shoot_timer <= 0),
    {
        self.shoot_timer <= 0
    }

    pub fn reset_shoot_timer(&mut self)
        ensures
            *final(self) == (Enemy { shoot_timer: old(self).shoot_cooldown, ..*old(self) }),
    {
        self.shoot_timer = self.shoot_cooldown;
    }

    /// Counts the shot timer down while it is positive.
    pub fn update_timer(&mut self, delta_time: i64)
        requires
            -MAX_STEP_MS <= old(self).shoot_timer <= MAX_TIMER_MS,
            0 <= delta_time <= MAX_STEP_MS,
        ensures
            *final(self) == (Enemy {
                shoot_timer: if old(self).shoot_timer > 0 {
                    (old(self).shoot_timer - delta_time) as i64
                } else {
                    old(self).shoot_timer
                },
                ..*old(self)
            }),
    {
        if self.shoot_timer > 0 {
            self.shoot_timer = self.shoot_timer - delta_time;
        }
    }

    pub fn show_health_bar(&mut self)
        ensures
            *final(self) == (Enemy { health_bar_timer: HEALTH_BAR_MS, ..*old(self) }),
    {
        self.health_bar_timer = HEALTH_BAR_MS;
    }

    pub fn update_health_bar_timer(&mut self, delta_time: i64)
        requires
            -MAX_STEP_MS <= old(self).health_bar_timer <= MAX_TIMER_MS,
            0 <= delta_time <= MAX_STEP_MS,
        ensures
            *final(self) == (Enemy {
                health_bar_timer: if old(self).health_bar_timer > 0 {
                    (old(self).health_bar_timer - delta_time) as i64
                } else {
                    old(self).health_bar_timer
                },
                ..*old(self)
            }),
    {
        if self.health_bar_timer > 0 {
            self.health_bar_timer = self.health_bar_timer - delta_time;
        }
    }

    pub fn should_show_health_bar(&self) -> (r: bool)
        ensures
            r == (self.health_bar_timer > 0),
    {
        self.health_bar_timer > 0
    }
}

/// Per-enemy behaviour state, updated by the AI each tick. Directions are
/// vectors of length about one thousand; the strafe direction is 1 or -1.
#[derive(Clone, Copy, Debug)]
pub struct EnemyController {
    pub state: EnemyState,
    pub target_position: Option<Vec2>,
    pub facing_direction: Vec2,
    pub movement_direction: Vec2,
    pub strafe_timer: i64,
    pub strafe_direction: i64,
}

/// The controller after one steering update with the given strafe-reversal
/// draw (used only when the strafe timer runs out while strafing).
pub open spec fn steered(
    c: EnemyController,
    player_pos: Vec2,
    enemy_pos: Vec2,
    optimal_distance: int,
    attack_range: int,
    player_velocity: Option<Vec2>,
    projectile_speed: int,
    dt: int,
    roll: int,
) -> EnemyController {
    let to = Vec2 { x: (player_pos.x - enemy_pos.x) as i64, y: (player_pos.y - enemy_pos.y) as i64 };
    let d = sqrt_floor(to.len_sq());
    if d > MIN_STEER_DISTANCE {
        let dir = unit_toward(to, d);
        let st = state_for(d, optimal_distance, attack_range);
        let t = c.strafe_timer - dt;
        let timer = if st == EnemyState::Strafing {
            if t <= 0 {
                roll
            } else {
                t
            }
        } else {
            c.strafe_timer as int
        };
        let sd = if st == EnemyState::Strafing && t <= 0 {
            -c.strafe_direction
        } else {
            c.strafe_direction as int
        };
        let mv = match st {
            EnemyState::Retreating => Vec2 { x: -dir.x as i64, y: -dir.y as i64 },
            EnemyState::Strafing => Vec2 {
                x: tdiv(-dir.y * sd, 2) as i64,
                y: tdiv(dir.x * sd, 2) as i64,
            },
            _ => dir,
        };
        EnemyController {
            state: st,
            target_position: Some(lead_aim(player_pos, player_velocity, d, projectile_speed)),
            facing_direction: dir,
            movement_direction: mv,
            strafe_timer: timer as i64,
            strafe_direction: sd as i64,
        }
    } else {
        EnemyController { state: EnemyState::Idle, movement_direction: Vec2::zero_spec(), ..c }
    }
}

/// The behaviour state chosen by a steering update is a function of the
/// distance to the player, the optimal distance and the attack range alone:
/// it does not depend on the previous controller, the player's velocity,
/// the projectile speed, the time step or the strafe draw. Within a tenth of
/// a unit the enemy idles and stands still.
pub proof fn lemma_state_from_distance(
    c1: EnemyController,
    c2: EnemyController,
    player_pos: Vec2,
    enemy_pos: Vec2,
    optimal_distance: int,
    attack_range: int,
    v1: Option<Vec2>,
    v2: Option<Vec2>,
    speed1: int,
    speed2: int,
    dt1: int,
    dt2: int,
    roll1: int,
    roll2: int,
)
    ensures
        ({
            let d = sqrt_floor(
                Vec2 {
                    x: (player_pos.x - enemy_pos.x) as i64,
                    y: (player_pos.y - enemy_pos.y) as i64,
                }.len_sq(),
            );
            let a = steered(c1, player_pos, enemy_pos, optimal_distance, attack_range, v1, speed1, dt1, roll1);
            let b = steered(c2, player_pos, enemy_pos, optimal_distance, attack_range, v2, speed2, dt2, roll2);
            &&& a.state == b.state
            &&& d > MIN_STEER_DISTANCE ==> a.state == state_for(d, optimal_distance, attack_range)
            &&& d <= MIN_STEER_DISTANCE ==> a.state == EnemyState::Idle && a.movement_direction
                == Vec2::zero_spec()
        }),
{
}

/// A draw of the time until the next strafe reversal.
pub fn roll_strafe_time() -> (r: i64)
    ensures
        STRAFE_MIN_MS <= r < STRAFE_MAX_MS,
{
    random_in(STRAFE_MIN_MS, STRAFE_MAX_MS)
}

impl EnemyController {
    pub open spec fn wf(self) -> bool {
        &&& 0 <= self.strafe_timer <= MAX_TIMER_MS
        &&& (self.strafe_direction == 1 || self.strafe_direction == -1)
        &&& -1000 <= self.facing_direction.x <= 1000
        &&& -1000 <= self.facing_direction.y <= 1000
        &&& -1000 <= self.movement_direction.x <= 1000
        &&& -1000 <= self.movement_direction.y <= 1000
    }

    pub fn new() -> (c: EnemyController)
        ensures
            c == (EnemyController {
                state: EnemyState::Idle,
                target_position: None,
                facing_direction: Vec2 { x: -1000i64, y: 0 },
                movement_direction: Vec2 { x: 0, y: 0 },
                strafe_timer: 0,
                strafe_direction: 1,
            }),
            c.wf(),
    {
        EnemyController {
            state: EnemyState::Idle,
            target_position: None,
            facing_direction: Vec2::new(-1000, 0),
            movement_direction: Vec2::zero(),
            strafe_timer: 0,
            strafe_direction: 1,
        }
    }

    /// One steering update (see `steered`), with `roll` milliseconds as the
    /// next strafe period should the current one run out.
    pub fn steer(
        &mut self,
        player_pos: Vec2,
        enemy_pos: Vec2,
        optimal_distance: i64,
        attack_range: i64,
        player_velocity: Option<Vec2>,
        projectile_speed: i64,
        delta_time: i64,
        roll: i64,
    )
        requires
            old(self).wf(),
            player_pos.in_limit(),
            enemy_pos.in_limit(),
            in_limit(optimal_distance as int),
            player_velocity matches Some(v) ==> v.in_limit(),
            0 < projectile_speed <= COORD_LIMIT,
            0 <= delta_time <= MAX_STEP_MS,
            0 <= roll <= MAX_TIMER_MS,
        ensures
            *final(self) == steered(
                *old(self),
                player_pos,
                enemy_pos,
                optimal_distance as int,
                attack_range as int,
                player_velocity,
                projectile_speed as int,
                delta_time as int,
                roll as int,
            ),
            final(self).wf(),
    {
        let to = Vec2::new(player_pos.x - enemy_pos.x, player_pos.y - enemy_pos.y);
        let d = length(to.x, to.y);
        if d > MIN_STEER_DISTANCE as u64 {
            let dl = d as i64;
            proof {
                lemma_within_length(to, dl as int);
            }
            let dir = unit_exec(to, dl);
            let st = select_state(dl, optimal_distance, attack_range);
            let t = self.strafe_timer - delta_time;
            let mut sd = self.strafe_direction;
            match st {
                EnemyState::Strafing => {
                    if t <= 0 {
                        self.strafe_timer = roll;
                        sd = -sd;
                        self.strafe_direction = sd;
                    } else {
                        self.strafe_timer = t;
                    }
                },
                _ => {},
            }
            let mv = match st {
                EnemyState::Retreating => Vec2::new(-dir.x, -dir.y),
                EnemyState::Strafing => Vec2::new(div_trunc(-dir.y * sd, 2), div_trunc(dir.x * sd, 2)),
                _ => dir,
            };
            let aim = lead_aim_exec(player_pos, player_velocity, dl, projectile_speed);
            self.state = st;
            self.target_position = Some(aim);
            self.facing_direction = dir;
            self.movement_direction = mv;
        } else {
            self.state = EnemyState::Idle;
            self.movement_direction = Vec2::zero();
        }
    }

    /// One steering update with a freshly drawn strafe period.
    pub fn update_movement_and_targeting(
        &mut self,
        player_pos: Vec2,
        enemy_pos: Vec2,
        optimal_distance: i64,
        attack_range: i64,
        player_velocity: Option<Vec2>,
        projectile_speed: i64,
        delta_time: i64,
    )
        requires
            old(self).wf(),
            player_pos.in_limit(),
            enemy_pos.in_limit(),
            in_limit(optimal_distance as int),
            player_velocity matches Some(v) ==> v.in_limit(),
            0 < projectile_speed <= COORD_LIMIT,
            0 <= delta_time <= MAX_STEP_MS,
        ensures
            exists|roll: int|
                STRAFE_MIN_MS <= roll < STRAFE_MAX_MS && *final(self) == #[trigger] steered(
                    *old(self),
                    player_pos,
                    enemy_pos,
                    optimal_distance as int,
                    attack_range as int,
                    player_velocity,
                    projectile_speed as int,
                    delta_time as int,
                    roll,
                ),
            final(self).wf(),
    {
        let roll = roll_strafe_time();
        self.steer(
            player_pos,
            enemy_pos,
            optimal_distance,
            attack_range,
            player_velocity,
            projectile_speed,
            delta_time,
            roll,
        );
    }

    /// Direction the enemy shoots in: the way it faces.
    pub fn get_shoot_direction(&self) -> (r: Vec2)
        ensures
            r == self.facing_direction,
    {
        self.facing_direction
    }

    /// The launch velocity toward `target_pos` (see `ballistic_velocity`).
    pub fn calculate_projectile_velocity(
        &self,
        enemy_pos: Vec2,
        target_pos: Vec2,
        projectile_speed: i64,
    ) -> (r: Vec2)
        requires
            enemy_pos.in_limit(),
            -WIDE_LIMIT / 2 <= target_pos.x <= WIDE_LIMIT / 2,
            -WIDE_LIMIT / 2 <= target_pos.y <= WIDE_LIMIT / 2,
            0 <= projectile_speed <= COORD_LIMIT,
        ensures
            r == ballistic_velocity(
                Vec2 { x: (target_pos.x - enemy_pos.x) as i64, y: (target_pos.y - enemy_pos.y) as i64 },
                projectile_speed as int,
            ),
    {
        solve_launch(Vec2::new(target_pos.x - enemy_pos.x, target_pos.y - enemy_pos.y), projectile_speed)
    }
}

fn lead_aim_exec(player_pos: Vec2, player_velocity: Option<Vec2>, d: i64, projectile_speed: i64) -> (r: Vec2)
    requires
        player_pos.in_limit(),
        player_velocity matches Some(v) ==> v.in_limit(),
        0 <= d <= 2 * SPAN_LIMIT,
        0 < projectile_speed <= COORD_LIMIT,
    ensures
        r == lead_aim(player_pos, player_velocity, d as int, projectile_speed as int),
{
    match player_velocity {
        Some(v) => {
            let s = length_sq(v.x, v.y);
            if s > (LEAD_SPEED * LEAD_SPEED) as u64 {
                proof {
                    assert(-COORD_LIMIT * 2 * SPAN_LIMIT <= v.x * d <= COORD_LIMIT * 2 * SPAN_LIMIT) by (nonlinear_arith)
                        requires in_limit(v.x as int), 0 <= d <= 2 * SPAN_LIMIT;
                    assert(-COORD_LIMIT * 2 * SPAN_LIMIT <= v.y * d <= COORD_LIMIT * 2 * SPAN_LIMIT) by (nonlinear_arith)
                        requires in_limit(v.y as int), 0 <= d <= 2 * SPAN_LIMIT;
                }
                let ox = div_trunc(v.x * d, 2 * projectile_speed);
                let oy = div_trunc(v.y * d, 2 * projectile_speed);
                proof {
                    assert(-COORD_LIMIT * 2 * SPAN_LIMIT <= ox <= COORD_LIMIT * 2 * SPAN_LIMIT);
                }
                Vec2::new(player_pos.x + ox, player_pos.y + oy)
            } else {
                player_pos
            }
        },
        None => player_pos,
    }
}

/// The launch velocity for a target `delta` away (see `ballistic_velocity`).
pub fn solve_launch(delta: Vec2, speed: i64) -> (r: Vec2)
    requires
        in_wide(delta.x as int),
        in_wide(delta.y as int),
        0 <= speed <= COORD_LIMIT,
    ensures
        r == ballistic_velocity(delta, speed as int),
{
    let d = length_wide(delta.x, delta.y);
    if d < NEAR_RANGE as u64 {
        proof {
            lemma_within_length(delta, d as int);
        }
        let u = unit_exec(delta, d as i64);
        proof {
            assert(-1000 * COORD_LIMIT <= u.x * speed <= 1000 * COORD_LIMIT) by (nonlinear_arith)
                requires -1000 <= u.x <= 1000, 0 <= speed <= COORD_LIMIT;
            assert(-1000 * COORD_LIMIT <= u.y * speed <= 1000 * COORD_LIMIT) by (nonlinear_arith)
                requires -1000 <= u.y <= 1000, 0 <= speed <= COORD_LIMIT;
        }
        Vec2::new(div_trunc(u.x * speed, 1000), div_trunc(u.y * speed, 1000) - ARC_LIFT)
    } else {
        proof {
            assert(d * AIM_GRAVITY <= 2 * WIDE_LIMIT * AIM_GRAVITY) by (nonlinear_arith)
                requires d <= 2 * WIDE_LIMIT;
        }
        let needed = isqrt_wide(d as u128 * AIM_GRAVITY as u128);
        let cap = needed * 3 / 2;
        let s: i64 = if (speed as u128) < cap {
            speed
        } else {
            cap as i64
        };
        let c = s * COS_45_PPM / 1_000_000;
        let x = if delta.x > 0 {
            c
        } else if delta.x < 0 {
            -c
        } else {
            0
        };
        Vec2::new(x, -c)
    }
}

/// The shot an enemy at `pos` fires toward `aim`: it starts half a body
/// plus ten units ahead along the facing direction and flies with the
/// launch velocity toward `aim`.
pub open spec fn shot_for(e: Enemy, c: EnemyController, pos: Vec2, aim: Vec2) -> EnemyShot {
    let v = ballistic_velocity(
        Vec2 { x: (aim.x - pos.x) as i64, y: (aim.y - pos.y) as i64 },
        e.projectile_speed as int,
    );
    let speed = sqrt_floor(v.len_sq());
    let reach = e.size.x / 2 + 10_000;
    EnemyShot {
        position: Vec2 {
            x: (pos.x + tdiv(c.facing_direction.x * reach, 1000)) as i64,
            y: (pos.y + tdiv(c.facing_direction.y * reach, 1000)) as i64,
        },
        direction: unit_or_zero(v, speed),
        speed: speed as i64,
        damage: e.damage,
    }
}

/// Whether an enemy in state `s` may fire.
pub open spec fn may_fire(s: EnemyState) -> bool {
    s == EnemyState::Pursuing || s == EnemyState::Retreating || s == EnemyState::Strafing
}

/// One AI tick of an enemy: timers count down, the controller steers (with
/// `roll` as the next strafe period), the horizontal velocity follows the
/// movement direction at the enemy's speed, and where the state allows and
/// the shot timer has run out the enemy fires toward its new target
/// position (the player's position led along the player's velocity, see
/// `lead_aim`), resets its timer and enters `Shooting`.
pub fn enemy_ai_step(
    enemy: &mut Enemy,
    controller: &mut EnemyController,
    body: &mut RigidBody,
    pos: Vec2,
    player_pos: Vec2,
    player_velocity: Vec2,
    delta_time: i64,
    roll: i64,
) -> (r: Option<EnemyShot>)
    requires
        old(enemy).wf(),
        old(controller).wf(),
        pos.in_limit(),
        player_pos.in_limit(),
        player_velocity.in_limit(),
        0 <= delta_time <= MAX_STEP_MS,
        0 <= roll <= MAX_TIMER_MS,
    ensures
        ({
            let before = *old(enemy);
            let shot_timer = if before.shoot_timer > 0 {
                before.shoot_timer - delta_time
            } else {
                before.shoot_timer as int
            };
            let bar_timer = if before.health_bar_timer > 0 {
                before.health_bar_timer - delta_time
            } else {
                before.health_bar_timer as int
            };
            let cooled_c = steered(
                *old(controller),
                player_pos,
                pos,
                before.optimal_distance as int,
                before.attack_range as int,
                Some(player_velocity),
                before.projectile_speed as int,
                delta_time as int,
                roll as int,
            );
            let fires = may_fire(cooled_c.state) && shot_timer <= 0;
            &&& final(body).velocity.x == tdiv(
                cooled_c.movement_direction.x * before.movement_speed,
                1000,
            )
            &&& final(body).velocity.y == old(body).velocity.y
            &&& final(body).acceleration == old(body).acceleration
            &&& final(body).mass == old(body).mass
            &&& final(body).drag == old(body).drag
            &&& final(enemy).health_bar_timer == bar_timer
            &&& fires ==> {
                &&& cooled_c.target_position == Some(lead_aim(
                    player_pos,
                    Some(player_velocity),
                    sqrt_floor(
                        Vec2 {
                            x: (player_pos.x - pos.x) as i64,
                            y: (player_pos.y - pos.y) as i64,
                        }.len_sq(),
                    ),
                    before.projectile_speed as int,
                ))
                &&& r == Some(shot_for(before, cooled_c, pos, cooled_c.target_position.unwrap()))
                &&& final(enemy).shoot_timer == before.shoot_cooldown
                &&& *final(controller) == (EnemyController { state: EnemyState::Shooting, ..cooled_c })
            }
            &&& !fires ==> {
                &&& r is None
                &&& final(enemy).shoot_timer == shot_timer
                &&& *final(controller) == cooled_c
            }
            &&& *final(enemy) == (Enemy {
                shoot_timer: final(enemy).shoot_timer,
                health_bar_timer: final(enemy).health_bar_timer,
                ..before
            })
        }),
        final(enemy).wf(),
        final(controller).wf(),
{
    enemy.update_timer(delta_time);
    enemy.update_health_bar_timer(delta_time);
    controller.steer(
        player_pos,
        pos,
        enemy.optimal_distance,
        enemy.attack_range,
        Some(player_velocity),
        enemy.projectile_speed,
        delta_time,
        roll,
    );
    let mx = controller.movement_direction.x;
    proof {
        assert(-1000 * COORD_LIMIT <= mx * enemy.movement_speed <= 1000 * COORD_LIMIT) by (nonlinear_arith)
            requires -1000 <= mx <= 1000, 0 <= enemy.movement_speed <= COORD_LIMIT;
    }
    body.velocity.x = div_trunc(mx * enemy.movement_speed, 1000);
    let allowed = match controller.state {
        EnemyState::Pursuing | EnemyState::Retreating | EnemyState::Strafing => true,
        _ => false,
    };
    if allowed && enemy.can_shoot() {
        let dist = length(player_pos.x - pos.x, player_pos.y - pos.y);
        let aim = match controller.target_position {
            Some(a) => a,
            None => player_pos,
        };
        proof {
            lemma_lead_bounded(
                player_pos,
                player_velocity,
                dist as int,
                enemy.projectile_speed as int,
            );
        }
        let v = controller.calculate_projectile_velocity(pos, aim, enemy.projectile_speed);
        proof {
            lemma_launch_bounded(
                Vec2 { x: (aim.x - pos.x) as i64, y: (aim.y - pos.y) as i64 },
                enemy.projectile_speed as int,
            );
        }
        let speed = length(v.x, v.y);
        proof {
            lemma_within_length(v, speed as int);
        }
        let dir = unit_exec(v, speed as i64);
        let reach = enemy.size.x / 2 + 10_000;
        let f = controller.facing_direction;
        proof {
            assert(-1000 * COORD_LIMIT <= f.x * reach <= 1000 * COORD_LIMIT) by (nonlinear_arith)
                requires -1000 <= f.x <= 1000, 0 <= reach <= COORD_LIMIT;
            assert(-1000 * COORD_LIMIT <= f.y * reach <= 1000 * COORD_LIMIT) by (nonlinear_arith)
                requires -1000 <= f.y <= 1000, 0 <= reach <= COORD_LIMIT;
        }
        let start = Vec2::new(
            pos.x + div_trunc(f.x * reach, 1000),
            pos.y + div_trunc(f.y * reach, 1000),
        );
        let shot = EnemyShot { position: start, direction: dir, speed: speed as i64, damage: enemy.damage };
        enemy.reset_shoot_timer();
        controller.state = EnemyState::Shooting;
        Some(shot)
    } else {
        None
    }
}

/// A led aim point stays within half the wide limit.
proof fn lemma_lead_bounded(p: Vec2, v: Vec2, d: int, speed: int)
    requires
        p.in_limit(),
        v.in_limit(),
        0 <= d <= 2 * SPAN_LIMIT,
        0 < speed,
    ensures
        -WIDE_LIMIT / 2 <= lead_aim(p, Some(v), d, speed).x <= WIDE_LIMIT / 2,
        -WIDE_LIMIT / 2 <= lead_aim(p, Some(v), d, speed).y <= WIDE_LIMIT / 2,
{
    lemma_lead_offset(v.x as int, d, speed);
    lemma_lead_offset(v.y as int, d, speed);
}

proof fn lemma_lead_offset(c: int, d: int, speed: int)
    requires
        in_limit(c),
        0 <= d <= 2 * SPAN_LIMIT,
        0 < speed,
    ensures
        -COORD_LIMIT * SPAN_LIMIT <= tdiv(c * d, 2 * speed) <= COORD_LIMIT * SPAN_LIMIT,
{
    let a = if c * d >= 0 {
        c * d
    } else {
        -(c * d)
    };
    assert(a <= COORD_LIMIT * 2 * SPAN_LIMIT) by (nonlinear_arith)
        requires
            in_limit(c),
            0 <= d <= 2 * SPAN_LIMIT,
            a == c * d || a == -(c * d),
    ;
    assert(a / (2 * speed) <= a / 2) by (nonlinear_arith)
        requires
            a >= 0,
            speed >= 1,
    ;
    assert(a / (2 * speed) >= 0) by (nonlinear_arith)
        requires
            a >= 0,
            speed >= 1,
    ;
}

/// Every launch velocity has components within the span limit.
proof fn lemma_launch_bounded(delta: Vec2, speed: int)
    requires
        in_wide(delta.x as int),
        in_wide(delta.y as int),
        0 <= speed <= COORD_LIMIT,
    ensures
        in_span(ballistic_velocity(delta, speed).x as int),
        in_span(ballistic_velocity(delta, speed).y as int),
{
    assert(delta.len_sq() >= 0) by (nonlinear_arith)
        requires
            delta.len_sq() == delta.x * delta.x + delta.y * delta.y,
    ;
    let d = sqrt_floor(delta.len_sq());
    if d < NEAR_RANGE {
        let u = unit_or_zero(delta, d);
        lemma_sqrt_floor(delta.len_sq());
        if d != 0 {
            lemma_within_length(delta, d);
            lemma_component_le(delta.x as int, d);
            lemma_component_le(delta.y as int, d);
        }
        assert(-1000 * COORD_LIMIT <= u.x * speed <= 1000 * COORD_LIMIT) by (nonlinear_arith)
            requires -1000 <= u.x <= 1000, 0 <= speed <= COORD_LIMIT;
        assert(-1000 * COORD_LIMIT <= u.y * speed <= 1000 * COORD_LIMIT) by (nonlinear_arith)
            requires -1000 <= u.y <= 1000, 0 <= speed <= COORD_LIMIT;
    } else {
        lemma_sqrt_floor(delta.len_sq());
        lemma_sqrt_floor(d * AIM_GRAVITY);
        let needed = sqrt_floor(d * AIM_GRAVITY);
        let s = if speed < needed * 3 / 2 { speed } else { needed * 3 / 2 };
        assert(0 <= s * COS_45_PPM / 1_000_000 <= s) by (nonlinear_arith)
            requires 0 <= s;
    }
}

/// Gravity and the shared axis-separated resolution for an enemy body.
pub fn enemy_physics_step(
    level: &Level,
    enemy: &Enemy,
    pos: &mut Vec2,
    body: &mut RigidBody,
    delta_time: i64,
) -> (r: MoveOutcome)
    requires
        level.wf(),
        enemy.wf(),
        move_ok(*old(body), *old(pos), enemy.size, ENEMY_GRAVITY as int),
        0 <= delta_time <= MAX_STEP_MS,
    ensures
        (*final(pos), final(body).velocity, r) == resolved(
            *level,
            *old(pos),
            *old(body),
            enemy.size,
            ENEMY_GRAVITY as int,
            delta_time as int,
        ),
        final(body).acceleration == Vec2::zero_spec(),
{
    move_body(level, pos, body, enemy.size, ENEMY_GRAVITY, delta_time)
}

} // verus!
