//! The mech: its state, its weapons, and the protocol that moves a pilot in
//! and out of it.
use vstd::prelude::*;
use crate::geometry::{Color, Rect, Vec2, COORD_LIMIT};
use crate::level::{Level, TILE_SIZE};
use crate::movement::{clamp_x, clamp_x_exec, move_body, move_ok, resolved, MoveOutcome};
use crate::physics::{RigidBody, MAX_STEP_MS};
use crate::projectile::{Projectile, ProjectileOwner};

verus! {

/// Largest energy or health amount, in thousandths.
pub const MAX_AMOUNT: i64 = 1_000_000_000_000;

/// Energy needed to boost.
pub const BOOST_MIN_ENERGY: i64 = 10_000;

/// Horizontal offset at which a pilot reappears beside the mech.
pub const EXIT_OFFSET: i64 = 60_000;

/// Cooldown after a stomp, in milliseconds.
pub const STOMP_COOLDOWN_MS: i64 = 2000;

/// Downward speed of a stomp.
pub const STOMP_SPEED: i64 = 1_500_000;

/// Gravity on a mech, per unit of mass.
pub const MECH_GRAVITY: i64 = 2_000_000;

/// Heaviest mech body that the movement step accepts.
pub const MAX_MECH_MASS: i64 = 100;

/// Energy regained per second while not boosting.
pub const MECH_REGEN: i64 = 30_000;

/// Energy a boost costs per millisecond.
pub const BOOST_COST: i64 = 20;

/// How far below the body the ground probe looks.
pub const MECH_PROBE_DEPTH: i64 = 2000;

/// A mech. Lengths in thousandths of a unit, speeds per second, health and
/// energy in thousandths. It is occupied exactly when it names its pilot.
#[derive(Clone, Copy, Debug)]
pub struct Mech {
    pub size: Vec2,
    pub health: i64,
    pub max_health: i64,
    pub energy: i64,
    pub max_energy: i64,
    pub boost_speed: i64,
    pub normal_speed: i64,
    pub jump_power: i64,
    pub is_occupied: bool,
    /// Index of the pilot; a reference only, never ownership.
    pub pilot_entity: Option<usize>,
}

/// Tint of an occupied mech.
pub open spec fn active_tint() -> Color {
    Color { r: 100, g: 150, b: 255, a: 255 }
}

/// Tint of an empty mech.
pub open spec fn idle_tint() -> Color {
    Color { r: 80, g: 80, b: 100, a: 255 }
}

impl Mech {
    pub open spec fn wf(self) -> bool {
        &&& self.is_occupied == self.pilot_entity.is_some()
        &&& 0 <= self.size.x <= COORD_LIMIT
        &&& 0 <= self.size.y <= COORD_LIMIT
        &&& 0 <= self.health <= MAX_AMOUNT
        &&& 0 <= self.energy <= self.max_energy <= MAX_AMOUNT
        &&& 0 <= self.normal_speed <= COORD_LIMIT
        &&& 0 <= self.boost_speed <= COORD_LIMIT
        &&& 0 <= self.jump_power <= COORD_LIMIT
    }

    pub open spec fn new_spec() -> Mech {
        Mech {
            size: Vec2 { x: 80_000, y: 120_000 },
            health: 500_000,
            max_health: 500_000,
            energy: 200_000,
            max_energy: 200_000,
            boost_speed: 800_000,
            normal_speed: 400_000,
            jump_power: 1_200_000,
            is_occupied: false,
            pilot_entity: None,
        }
    }

    pub fn new() -> (m: Mech)
        ensures
            m == Mech::new_spec(),
            m.wf(),
    {
        Mech {
            size: Vec2::new(80_000, 120_000),
            health: 500_000,
            max_health: 500_000,
            energy: 200_000,
            max_energy: 200_000,
            boost_speed: 800_000,
            normal_speed: 400_000,
            jump_power: 1_200_000,
            is_occupied: false,
            pilot_entity: None,
        }
    }

    /// Health drops by `amount`, not below zero.
    pub fn take_damage(&mut self, amount: i64)
        requires
            0 <= old(self).health <= MAX_AMOUNT,
            0 <= amount <= MAX_AMOUNT,
        ensures
            *final(self) == (Mech {
                health: if old(self).health - amount > 0 {
                    (old(self).health - amount) as i64
                } else {
                    0
                },
                ..*old(self)
            }),
    {
        let h = self.health - amount;
        self.health = if h > 0 {
            h
        } else {
            0
        };
    }

    /// Spends `amount` energy if that much is left.
    pub fn use_energy(&mut self, amount: i64) -> (r: bool)
        requires
            0 <= old(self).energy <= MAX_AMOUNT,
            0 <= amount <= MAX_AMOUNT,
        ensures
            r == (old(self).energy >= amount),
            *final(self) == (Mech {
                energy: if r {
                    (old(self).energy - amount) as i64
                } else {
                    old(self).energy
                },
                ..*old(self)
            }),
    {
        if self.energy >= amount {
            self.energy = self.energy - amount;
            true
        } else {
            false
        }
    }

    /// Regains `amount` energy per second over `delta_time` milliseconds, up
    /// to the maximum.
    pub fn regenerate_energy(&mut self, amount: i64, delta_time: i64)
        requires
            0 <= old(self).energy <= old(self).max_energy <= MAX_AMOUNT,
            0 <= amount <= COORD_LIMIT,
            0 <= delta_time <= MAX_STEP_MS,
        ensures
            *final(self) == (Mech {
                energy: if old(self).energy + amount * delta_time / 1000 < old(self).max_energy {
                    (old(self).energy + amount * delta_time / 1000) as i64
                } else {
                    old(self).max_energy
                },
                ..*old(self)
            }),
    {
        assert(0 <= amount * delta_time <= COORD_LIMIT * MAX_STEP_MS) by (nonlinear_arith)
            requires
                0 <= amount <= COORD_LIMIT,
                0 <= delta_time <= MAX_STEP_MS,
        ;
        let e = self.energy + amount * delta_time / 1000;
        self.energy = if e < self.max_energy {
            e
        } else {
            self.max_energy
        };
    }

    pub fn is_destroyed(&self) -> (r: bool)
        ensures
            r == (self.health <= 0),
    {
        self.health <= 0
    }

    pub fn can_boost(&self) -> (r: bool)
        ensures
            r == (self.energy >= BOOST_MIN_ENERGY),
    {
        self.energy >= BOOST_MIN_ENERGY
    }

    /// The tint that shows whether the mech is occupied.
    pub fn get_color(&self) -> (c: Color)
        ensures
            c == if self.is_occupied {
                active_tint()
            } else {
                idle_tint()
            },
    {
        if self.is_occupied {
            Color::new(100, 150, 255, 255)
        } else {
            Color::new(80, 80, 100, 255)
        }
    }
}

/// Cooldowns of the mech's abilities, in milliseconds.
#[derive(Clone, Copy, Debug)]
pub struct MechController {
    pub is_boosting: bool,
    pub boost_cooldown: i64,
    pub stomp_cooldown: i64,
    pub weapon_cooldown: i64,
}

/// A cooldown after `dt` more milliseconds.
pub open spec fn cooled(c: int, dt: int) -> int {
    if c - dt > 0 {
        c - dt
    } else {
        0
    }
}

impl MechController {
    pub open spec fn wf(self) -> bool {
        &&& 0 <= self.boost_cooldown <= MAX_AMOUNT
        &&& 0 <= self.stomp_cooldown <= MAX_AMOUNT
        &&& 0 <= self.weapon_cooldown <= MAX_AMOUNT
    }

    pub fn new() -> (c: MechController)
        ensures
            c == (MechController {
                is_boosting: false,
                boost_cooldown: 0,
                stomp_cooldown: 0,
                weapon_cooldown: 0,
            }),
            c.wf(),
    {
        MechController { is_boosting: false, boost_cooldown: 0, stomp_cooldown: 0, weapon_cooldown: 0 }
    }

    /// Every cooldown counts down by `delta_time`, not below zero.
    pub fn update(&mut self, delta_time: i64)
        requires
            old(self).wf(),
            0 <= delta_time <= MAX_STEP_MS,
        ensures
            *final(self) == (MechController {
                boost_cooldown: cooled(old(self).boost_cooldown as int, delta_time as int) as i64,
                stomp_cooldown: cooled(old(self).stomp_cooldown as int, delta_time as int) as i64,
                weapon_cooldown: cooled(old(self).weapon_cooldown as int, delta_time as int) as i64,
                ..*old(self)
            }),
            final(self).wf(),
    {
        self.boost_cooldown = cool(self.boost_cooldown, delta_time);
        self.stomp_cooldown = cool(self.stomp_cooldown, delta_time);
        self.weapon_cooldown = cool(self.weapon_cooldown, delta_time);
    }

    pub fn can_stomp(&self) -> (r: bool)
        ensures
            r == (self.stomp_cooldown <= 0),
    {
        self.stomp_cooldown <= 0
    }

    pub fn do_stomp(&mut self)
        ensures
            *final(self) == (MechController { stomp_cooldown: STOMP_COOLDOWN_MS, ..*old(self) }),
    {
        self.stomp_cooldown = STOMP_COOLDOWN_MS;
    }
}

fn cool(c: i64, dt: i64) -> (r: i64)
    requires
        0 <= c <= MAX_AMOUNT,
        0 <= dt <= MAX_STEP_MS,
    ensures
        r == cooled(c as int, dt as int),
{
    if c - dt > 0 {
        c - dt
    } else {
        0
    }
}

#[derive(Clone, Copy, Debug, PartialEq, Eq, Structural)]
pub enum MechWeaponType {
    PlasmaCanon,
    MissileLauncher,
    Railgun,
    FlameThrower,
}

/// A mech weapon: damage and energy in thousandths, fire rate in thousandths
/// of a shot per second, lengths in thousandths of a unit.
#[derive(Clone, Copy, Debug)]
pub struct MechWeapon {
    pub weapon_type: MechWeaponType,
    pub damage: i64,
    pub fire_rate: i64,
    pub projectile_speed: i64,
    pub projectile_size: Vec2,
    pub energy_cost: i64,
    pub projectile_color: Color,
    pub splash_radius: Option<i64>,
}

/// The mech weapon catalog.
pub open spec fn mech_catalog(kind: MechWeaponType) -> MechWeapon {
    match kind {
        MechWeaponType::PlasmaCanon => MechWeapon {
            weapon_type: kind,
            damage: 50_000,
            fire_rate: 2000,
            projectile_speed: 800_000,
            projectile_size: Vec2 { x: 20_000, y: 20_000 },
            energy_cost: 10_000,
            projectile_color: Color { r: 100, g: 200, b: 255, a: 255 },
            splash_radius: Some(50_000),
        },
        MechWeaponType::MissileLauncher => MechWeapon {
            weapon_type: kind,
            damage: 100_000,
            fire_rate: 500,
            projectile_speed: 600_000,
            projectile_size: Vec2 { x: 16_000, y: 8000 },
            energy_cost: 25_000,
            projectile_color: Color { r: 255, g: 150, b: 50, a: 255 },
            splash_radius: Some(100_000),
        },
        MechWeaponType::Railgun => MechWeapon {
            weapon_type: kind,
            damage: 150_000,
            fire_rate: 330,
            projectile_speed: 2_000_000,
            projectile_size: Vec2 { x: 30_000, y: 4000 },
            energy_cost: 40_000,
            projectile_color: Color { r: 255, g: 255, b: 100, a: 255 },
            splash_radius: None,
        },
        MechWeaponType::FlameThrower => MechWeapon {
            weapon_type: kind,
            damage: 10_000,
            fire_rate: 10_000,
            projectile_speed: 400_000,
            projectile_size: Vec2 { x: 15_000, y: 15_000 },
            energy_cost: 2000,
            projectile_color: Color { r: 255, g: 100, b: 50, a: 255 },
            splash_radius: Some(30_000),
        },
    }
}

impl MechWeapon {
    pub open spec fn wf(self) -> bool {
        &&& self.fire_rate > 0
        &&& 0 <= self.projectile_size.x <= COORD_LIMIT
        &&& 0 <= self.projectile_size.y <= COORD_LIMIT
    }

    pub fn of_type(kind: MechWeaponType) -> (w: MechWeapon)
        ensures
            w == mech_catalog(kind),
            w.wf(),
    {
        match kind {
            MechWeaponType::PlasmaCanon => MechWeapon {
                weapon_type: kind,
                damage: 50_000,
                fire_rate: 2000,
                projectile_speed: 800_000,
                projectile_size: Vec2::new(20_000, 20_000),
                energy_cost: 10_000,
                projectile_color: Color::new(100, 200, 255, 255),
                splash_radius: Some(50_000),
            },
            MechWeaponType::MissileLauncher => MechWeapon {
                weapon_type: kind,
                damage: 100_000,
                fire_rate: 500,
                projectile_speed: 600_000,
                projectile_size: Vec2::new(16_000, 8000),
                energy_cost: 25_000,
                projectile_color: Color::new(255, 150, 50, 255),
                splash_radius: Some(100_000),
            },
            MechWeaponType::Railgun => MechWeapon {
                weapon_type: kind,
                damage: 150_000,
                fire_rate: 330,
                projectile_speed: 2_000_000,
                projectile_size: Vec2::new(30_000, 4000),
                energy_cost: 40_000,
                projectile_color: Color::new(255, 255, 100, 255),
                splash_radius: None,
            },
            MechWeaponType::FlameThrower => MechWeapon {
                weapon_type: kind,
                damage: 10_000,
                fire_rate: 10_000,
                projectile_speed: 400_000,
                projectile_size: Vec2::new(15_000, 15_000),
                energy_cost: 2000,
                projectile_color: Color::new(255, 100, 50, 255),
                splash_radius: Some(30_000),
            },
        }
    }

    pub fn plasma_canon() -> (w: MechWeapon)
        ensures
            w == mech_catalog(MechWeaponType::PlasmaCanon),
    {
        MechWeapon::of_type(MechWeaponType::PlasmaCanon)
    }

    pub fn missile_launcher() -> (w: MechWeapon)
        ensures
            w == mech_catalog(MechWeaponType::MissileLauncher),
    {
        MechWeapon::of_type(MechWeaponType::MissileLauncher)
    }

    pub fn railgun() -> (w: MechWeapon)
        ensures
            w == mech_catalog(MechWeaponType::Railgun),
    {
        MechWeapon::of_type(MechWeaponType::Railgun)
    }

    pub fn flamethrower() -> (w: MechWeapon)
        ensures
            w == mech_catalog(MechWeaponType::FlameThrower),
    {
        MechWeapon::of_type(MechWeaponType::FlameThrower)
    }

    /// Milliseconds between shots, rounded down.
    pub fn cooldown_time(&self) -> (r: i64)
        requires
            self.fire_rate > 0,
        ensures
            r == 1_000_000int / (self.fire_rate as int),
    {
        1_000_000 / self.fire_rate
    }

    /// A player-owned projectile with this weapon's damage, size and color,
    /// three seconds of life and the splash radius, if any.
    pub fn to_projectile(&self) -> (p: Projectile)
        requires
            self.wf(),
        ensures
            p == (Projectile {
                size: self.projectile_size,
                color: self.projectile_color,
                max_lifetime: 3000,
                explosion_radius: match self.splash_radius {
                    Some(r) => r,
                    None => 0,
                },
                ..Projectile::new_spec(self.damage, ProjectileOwner::Player)
            }),
            p.wf(),
    {
        let mut p = Projectile::new(self.damage, ProjectileOwner::Player);
        p.size = self.projectile_size;
        p.color = self.projectile_color;
        p.max_lifetime = 3000;
        if let Some(r) = self.splash_radius {
            p.explosion_radius = r;
        }
        p
    }
}

/// The mech's two weapons and their cooldowns, in milliseconds.
#[derive(Clone, Copy, Debug)]
pub struct MechWeaponInventory {
    pub primary: MechWeapon,
    pub secondary: MechWeapon,
    pub primary_cooldown: i64,
    pub secondary_cooldown: i64,
}

impl MechWeaponInventory {
    pub open spec fn wf(self) -> bool {
        &&& self.primary.wf()
        &&& self.secondary.wf()
        &&& 0 <= self.primary_cooldown <= MAX_AMOUNT
        &&& 0 <= self.secondary_cooldown <= MAX_AMOUNT
    }

    /// Plasma cannon as primary, missiles as secondary, both ready.
    pub fn new() -> (r: MechWeaponInventory)
        ensures
            r == (MechWeaponInventory {
                primary: mech_catalog(MechWeaponType::PlasmaCanon),
                secondary: mech_catalog(MechWeaponType::MissileLauncher),
                primary_cooldown: 0,
                secondary_cooldown: 0,
            }),
            r.wf(),
    {
        MechWeaponInventory {
            primary: MechWeapon::of_type(MechWeaponType::PlasmaCanon),
            secondary: MechWeapon::of_type(MechWeaponType::MissileLauncher),
            primary_cooldown: 0,
            secondary_cooldown: 0,
        }
    }

    pub fn update(&mut self, delta_time: i64)
        requires
            old(self).wf(),
            0 <= delta_time <= MAX_STEP_MS,
        ensures
            *final(self) == (MechWeaponInventory {
                primary_cooldown: cooled(old(self).primary_cooldown as int, delta_time as int) as i64,
                secondary_cooldown: cooled(old(self).secondary_cooldown as int, delta_time as int)
                    as i64,
                ..*old(self)
            }),
            final(self).wf(),
    {
        self.primary_cooldown = cool(self.primary_cooldown, delta_time);
        self.secondary_cooldown = cool(self.secondary_cooldown, delta_time);
    }

    pub fn can_fire_primary(&self) -> (r: bool)
        ensures
            r == (self.primary_cooldown <= 0),
    {
        self.primary_cooldown <= 0
    }

    pub fn can_fire_secondary(&self) -> (r: bool)
        ensures
            r == (self.secondary_cooldown <= 0),
    {
        self.secondary_cooldown <= 0
    }

    pub fn fire_primary(&mut self)
        requires
            old(self).wf(),
        ensures
            *final(self) == (MechWeaponInventory {
                primary_cooldown: (1_000_000int / (old(self).primary.fire_rate as int)) as i64,
                ..*old(self)
            }),
            final(self).wf(),
    {
        self.primary_cooldown = self.primary.cooldown_time();
    }

    pub fn fire_secondary(&mut self)
        requires
            old(self).wf(),
        ensures
            *final(self) == (MechWeaponInventory {
                secondary_cooldown: (1_000_000int / (old(self).secondary.fire_rate as int)) as i64,
                ..*old(self)
            }),
            final(self).wf(),
    {
        self.secondary_cooldown = self.secondary.cooldown_time();
    }
}

/// The pilot's input to an occupied mech for one tick.
#[derive(Clone, Copy, Debug)]
pub struct MechInput {
    /// -1 for left, 1 for right, 0 for neither.
    pub move_x: i64,
    pub boost: bool,
    pub jump: bool,
    /// Down held while jump is pressed.
    pub stomp: bool,
}

/// Energy and boost state after the energy rules of one tick: energy
/// regenerates unless the mech was boosting, and a boost with enough energy
/// and a direction costs energy for this tick.
pub open spec fn energy_after(m: Mech, was_boosting: bool, input: MechInput, dt: int) -> (Mech, bool) {
    let regen = m.energy + MECH_REGEN * dt / 1000;
    let charged = if !was_boosting {
        Mech {
            energy: if regen < m.max_energy {
                regen as i64
            } else {
                m.max_energy
            },
            ..m
        }
    } else {
        m
    };
    let boosting = input.boost && charged.energy >= BOOST_MIN_ENERGY && input.move_x != 0;
    let cost = BOOST_COST * dt;
    if boosting {
        (
            Mech {
                energy: if charged.energy >= cost {
                    (charged.energy - cost) as i64
                } else {
                    charged.energy
                },
                ..charged
            },
            true,
        )
    } else {
        (charged, false)
    }
}

/// One tick of an occupied mech: cooldowns run down, energy regenerates or
/// pays for a boost, horizontal velocity follows the input at normal or
/// boost speed, a grounded mech may jump and an airborne one may stomp, the
/// body moves through the grid under the mech's gravity, and the position is
/// clamped to the level's width. An empty mech does not move (`None`).
pub fn mech_movement_step(
    level: &Level,
    mech: &mut Mech,
    controller: &mut MechController,
    pos: &mut Vec2,
    body: &mut RigidBody,
    input: MechInput,
    delta_time: i64,
) -> (r: Option<MoveOutcome>)
    requires
        level.wf(),
        old(mech).wf(),
        old(controller).wf(),
        -1 <= input.move_x <= 1,
        0 < old(body).mass <= MAX_MECH_MASS,
        move_ok(*old(body), *old(pos), old(mech).size, old(body).mass * MECH_GRAVITY),
        0 <= delta_time <= MAX_STEP_MS,
    ensures
        !old(mech).is_occupied ==> r is None && *final(mech) == *old(mech) && *final(controller)
            == *old(controller) && *final(pos) == *old(pos) && *final(body) == *old(body),
        old(mech).is_occupied ==> ({
            let cooled_c = MechController {
                boost_cooldown: cooled(old(controller).boost_cooldown as int, delta_time as int) as i64,
                stomp_cooldown: cooled(old(controller).stomp_cooldown as int, delta_time as int) as i64,
                weapon_cooldown: cooled(old(controller).weapon_cooldown as int, delta_time as int) as i64,
                ..*old(controller)
            };
            let (charged, boosting) = energy_after(*old(mech), cooled_c.is_boosting, input, delta_time as int);
            let speed = if boosting {
                charged.boost_speed
            } else {
                charged.normal_speed
            };
            let probe = Rect::centered_spec(
                Vec2 { x: old(pos).x, y: (old(pos).y + MECH_PROBE_DEPTH) as i64 },
                charged.size,
            );
            let on_ground = level.collides(probe);
            let can_stomp = !on_ground && cooled_c.stomp_cooldown <= 0 && input.stomp;
            let vy = if can_stomp {
                STOMP_SPEED as int
            } else if on_ground && input.jump {
                -charged.jump_power
            } else {
                old(body).velocity.y as int
            };
            let launched = RigidBody {
                velocity: Vec2 { x: (input.move_x * speed) as i64, y: vy as i64 },
                ..*old(body)
            };
            let (np, nv, out) = resolved(
                *level,
                *old(pos),
                launched,
                charged.size,
                old(body).mass * MECH_GRAVITY,
                delta_time as int,
            );
            &&& r == Some(out)
            &&& *final(mech) == charged
            &&& *final(controller) == MechController {
                is_boosting: boosting,
                stomp_cooldown: if can_stomp {
                    STOMP_COOLDOWN_MS
                } else {
                    cooled_c.stomp_cooldown
                },
                ..cooled_c
            }
            &&& final(body).velocity == nv
            &&& final(pos).y == np.y
            &&& final(pos).x == clamp_x(np.x as int, charged.size.x / 2, level.width * TILE_SIZE)
        }),
        final(mech).wf(),
        final(controller).wf(),
{
    if !mech.is_occupied {
        return None;
    }
    controller.update(delta_time);
    if !controller.is_boosting {
        mech.regenerate_energy(MECH_REGEN, delta_time);
    }
    controller.is_boosting = false;
    let mut speed = mech.normal_speed;
    if input.boost && mech.can_boost() && input.move_x != 0 {
        controller.is_boosting = true;
        speed = mech.boost_speed;
        mech.use_energy(BOOST_COST * delta_time);
    }
    assert(-speed <= input.move_x * speed <= speed) by (nonlinear_arith)
        requires
            -1 <= input.move_x <= 1,
            0 <= speed,
    ;
    let probe = Rect::new(
        pos.x - mech.size.x / 2,
        pos.y + MECH_PROBE_DEPTH - mech.size.y / 2,
        mech.size.x,
        mech.size.y,
    );
    let on_ground = level.check_collision(probe);
    let mut vy = body.velocity.y;
    if on_ground && input.jump {
        vy = -mech.jump_power;
    }
    if !on_ground && controller.can_stomp() && input.stomp {
        vy = STOMP_SPEED;
        controller.do_stomp();
    }
    body.velocity = Vec2::new(input.move_x * speed, vy);
    let out = move_body(level, pos, body, mech.size, body.mass * MECH_GRAVITY, delta_time);
    pos.x = clamp_x_exec(pos.x, mech.size.x / 2, level.width as i64 * TILE_SIZE);
    Some(out)
}

} // verus!
