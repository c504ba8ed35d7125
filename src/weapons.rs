//! Weapon definitions, ammunition and the inventory that holds them.
use vstd::prelude::*;
use crate::geometry::{Color, Vec2, COORD_LIMIT};
use crate::random::random_in;
use vstd::arithmetic::div_mod::{lemma_mod_self_0, lemma_small_mod};

verus! {

#[derive(Clone, Copy, Debug, PartialEq, Eq, Structural)]
pub enum WeaponType {
    Pistol,
    Shotgun,
    RocketLauncher,
    LaserRifle,
    PlasmaGun,
}

/// An immutable catalog entry. Damage is in thousandths of a hit point,
/// speeds in thousandths of a unit per second, the fire rate in thousandths
/// of a shot per second, the spread in thousandths of a radian, the lifetime
/// in milliseconds and the gravity scale in thousandths.
#[derive(Clone, Copy, Debug)]
pub struct Weapon {
    pub weapon_type: WeaponType,
    pub damage: i64,
    pub projectile_speed: i64,
    pub projectile_force: i64,
    pub fire_rate: i64,
    pub spread: i64,
    pub projectile_count: u32,
    pub projectile_size: Vec2,
    pub projectile_color: Color,
    pub projectile_lifetime: i64,
    pub gravity_scale: i64,
    pub explosion_radius: i64,
    pub pierce_count: u32,
    /// `None` for infinite ammunition.
    pub ammo: Option<u32>,
    pub max_ammo: Option<u32>,
}

/// The catalog: the full entry of each kind, with a full magazine.
pub open spec fn catalog(kind: WeaponType) -> Weapon {
    match kind {
        WeaponType::Pistol => Weapon {
            weapon_type: kind,
            damage: 20_000,
            projectile_speed: 1_200_000,
            projectile_force: 1_200_000,
            fire_rate: 4000,
            spread: 50,
            projectile_count: 1,
            projectile_size: Vec2 { x: 6000, y: 6000 },
            projectile_color: Color { r: 255, g: 255, b: 100, a: 255 },
            projectile_lifetime: 2000,
            gravity_scale: 300,
            explosion_radius: 0,
            pierce_count: 0,
            ammo: None,
            max_ammo: None,
        },
        WeaponType::Shotgun => Weapon {
            weapon_type: kind,
            damage: 15_000,
            projectile_speed: 1_500_000,
            projectile_force: 1_800_000,
            fire_rate: 1500,
            spread: 300,
            projectile_count: 8,
            projectile_size: Vec2 { x: 4000, y: 4000 },
            projectile_color: Color { r: 255, g: 200, b: 50, a: 255 },
            projectile_lifetime: 500,
            gravity_scale: 100,
            explosion_radius: 0,
            pierce_count: 0,
            ammo: Some(50),
            max_ammo: Some(50),
        },
        WeaponType::RocketLauncher => Weapon {
            weapon_type: kind,
            damage: 100_000,
            projectile_speed: 800_000,
            projectile_force: 1_000_000,
            fire_rate: 800,
            spread: 20,
            projectile_count: 1,
            projectile_size: Vec2 { x: 12_000, y: 8000 },
            projectile_color: Color { r: 255, g: 100, b: 50, a: 255 },
            projectile_lifetime: 5000,
            gravity_scale: 200,
            explosion_radius: 100_000,
            pierce_count: 0,
            ammo: Some(20),
            max_ammo: Some(20),
        },
        WeaponType::LaserRifle => Weapon {
            weapon_type: kind,
            damage: 30_000,
            projectile_speed: 3_000_000,
            projectile_force: 3_000_000,
            fire_rate: 10_000,
            spread: 10,
            projectile_count: 1,
            projectile_size: Vec2 { x: 20_000, y: 3000 },
            projectile_color: Color { r: 255, g: 50, b: 255, a: 255 },
            projectile_lifetime: 1000,
            gravity_scale: 0,
            explosion_radius: 0,
            pierce_count: 3,
            ammo: Some(200),
            max_ammo: Some(200),
        },
        WeaponType::PlasmaGun => Weapon {
            weapon_type: kind,
            damage: 50_000,
            projectile_speed: 1_000_000,
            projectile_force: 1_200_000,
            fire_rate: 2000,
            spread: 80,
            projectile_count: 1,
            projectile_size: Vec2 { x: 16_000, y: 16_000 },
            projectile_color: Color { r: 100, g: 255, b: 255, a: 255 },
            projectile_lifetime: 3000,
            gravity_scale: 150,
            explosion_radius: 50_000,
            pierce_count: 1,
            ammo: Some(100),
            max_ammo: Some(100),
        },
    }
}

impl Weapon {
    /// Fields that the firing and projectile logic rely on.
    pub open spec fn wf(self) -> bool {
        &&& self.fire_rate > 0
        &&& 0 <= self.spread <= 1_000_000
        &&& 0 <= self.damage <= 1_000_000_000
        &&& 0 <= self.projectile_lifetime <= 1_000_000_000
        &&& 0 <= self.projectile_size.x <= COORD_LIMIT
        &&& 0 <= self.projectile_size.y <= COORD_LIMIT
        &&& 0 <= self.gravity_scale <= 1000
        &&& 0 <= self.explosion_radius
    }

    /// The catalog entry of `kind`.
    pub fn of_type(kind: WeaponType) -> (w: Weapon)
        ensures
            w == catalog(kind),
            w.wf(),
    {
        match kind {
            WeaponType::Pistol => Weapon {
                weapon_type: kind,
                damage: 20_000,
                projectile_speed: 1_200_000,
                projectile_force: 1_200_000,
                fire_rate: 4000,
                spread: 50,
                projectile_count: 1,
                projectile_size: Vec2::new(6000, 6000),
                projectile_color: Color::new(255, 255, 100, 255),
                projectile_lifetime: 2000,
                gravity_scale: 300,
                explosion_radius: 0,
                pierce_count: 0,
                ammo: None,
                max_ammo: None,
            },
            WeaponType::Shotgun => Weapon {
                weapon_type: kind,
                damage: 15_000,
                projectile_speed: 1_500_000,
                projectile_force: 1_800_000,
                fire_rate: 1500,
                spread: 300,
                projectile_count: 8,
                projectile_size: Vec2::new(4000, 4000),
                projectile_color: Color::new(255, 200, 50, 255),
                projectile_lifetime: 500,
                gravity_scale: 100,
                explosion_radius: 0,
                pierce_count: 0,
                ammo: Some(50),
                max_ammo: Some(50),
            },
            WeaponType::RocketLauncher => Weapon {
                weapon_type: kind,
                damage: 100_000,
                projectile_speed: 800_000,
                projectile_force: 1_000_000,
                fire_rate: 800,
                spread: 20,
                projectile_count: 1,
                projectile_size: Vec2::new(12_000, 8000),
                projectile_color: Color::new(255, 100, 50, 255),
                projectile_lifetime: 5000,
                gravity_scale: 200,
                explosion_radius: 100_000,
                pierce_count: 0,
                ammo: Some(20),
                max_ammo: Some(20),
            },
            WeaponType::LaserRifle => Weapon {
                weapon_type: kind,
                damage: 30_000,
                projectile_speed: 3_000_000,
                projectile_force: 3_000_000,
                fire_rate: 10_000,
                spread: 10,
                projectile_count: 1,
                projectile_size: Vec2::new(20_000, 3000),
                projectile_color: Color::new(255, 50, 255, 255),
                projectile_lifetime: 1000,
                gravity_scale: 0,
                explosion_radius: 0,
                pierce_count: 3,
                ammo: Some(200),
                max_ammo: Some(200),
            },
            WeaponType::PlasmaGun => Weapon {
                weapon_type: kind,
                damage: 50_000,
                projectile_speed: 1_000_000,
                projectile_force: 1_200_000,
                fire_rate: 2000,
                spread: 80,
                projectile_count: 1,
                projectile_size: Vec2::new(16_000, 16_000),
                projectile_color: Color::new(100, 255, 255, 255),
                projectile_lifetime: 3000,
                gravity_scale: 150,
                explosion_radius: 50_000,
                pierce_count: 1,
                ammo: Some(100),
                max_ammo: Some(100),
            },
        }
    }

    pub fn pistol() -> (w: Weapon)
        ensures
            w == catalog(WeaponType::Pistol),
    {
        Weapon::of_type(WeaponType::Pistol)
    }

    pub fn shotgun() -> (w: Weapon)
        ensures
            w == catalog(WeaponType::Shotgun),
    {
        Weapon::of_type(WeaponType::Shotgun)
    }

    pub fn rocket_launcher() -> (w: Weapon)
        ensures
            w == catalog(WeaponType::RocketLauncher),
    {
        Weapon::of_type(WeaponType::RocketLauncher)
    }

    pub fn laser_rifle() -> (w: Weapon)
        ensures
            w == catalog(WeaponType::LaserRifle),
    {
        Weapon::of_type(WeaponType::LaserRifle)
    }

    pub fn plasma_gun() -> (w: Weapon)
        ensures
            w == catalog(WeaponType::PlasmaGun),
    {
        Weapon::of_type(WeaponType::PlasmaGun)
    }

    /// Milliseconds between shots: `1 / fire_rate`, rounded down.
    pub fn get_cooldown(&self) -> (r: i64)
        requires
            self.fire_rate > 0,
        ensures
            r == 1_000_000int / (self.fire_rate as int),
    {
        1_000_000 / self.fire_rate
    }

    /// Takes one round: false, with nothing changed, when a finite magazine
    /// is empty; otherwise true, and a finite magazine loses one round.
    pub fn consume_ammo(&mut self) -> (r: bool)
        ensures
            r == match old(self).ammo {
                Some(n) => n > 0,
                None => true,
            },
            final(self).ammo == match old(self).ammo {
                Some(n) => if n > 0 {
                    Some((n - 1) as u32)
                } else {
                    Some(0u32)
                },
                None => None,
            },
            *final(self) == (Weapon { ammo: final(self).ammo, ..*old(self) }),
    {
        match self.ammo {
            Some(n) => {
                if n > 0 {
                    self.ammo = Some(n - 1);
                    true
                } else {
                    false
                }
            },
            None => true,
        }
    }

    /// Refills a finite magazine to its maximum.
    pub fn reload(&mut self)
        ensures
            final(self).ammo == match old(self).max_ammo {
                Some(m) => Some(m),
                None => old(self).ammo,
            },
            *final(self) == (Weapon { ammo: final(self).ammo, ..*old(self) }),
    {
        if let Some(m) = self.max_ammo {
            self.ammo = Some(m);
        }
    }

    /// One spread offset per projectile of a shot, each drawn uniformly from
    /// `[-spread, spread)` thousandths of a radian (zero without spread).
    pub fn sample_spread(&self) -> (r: Vec<i64>)
        requires
            0 <= self.spread <= 1_000_000,
        ensures
            r@.len() == self.projectile_count,
            forall|i: int|
                0 <= i < r@.len() ==> -self.spread <= #[trigger] r@[i] && (r@[i] < self.spread
                    || (self.spread == 0 && r@[i] == 0)),
    {
        let mut out: Vec<i64> = Vec::new();
        let mut i: u32 = 0;
        while i < self.projectile_count
            invariant
                i <= self.projectile_count,
                out@.len() == i,
                0 <= self.spread <= 1_000_000,
                forall|j: int|
                    0 <= j < out@.len() ==> -self.spread <= #[trigger] out@[j] && (out@[j]
                        < self.spread || (self.spread == 0 && out@[j] == 0)),
            decreases self.projectile_count - i,
        {
            let a = if self.spread > 0 {
                random_in(-self.spread, self.spread)
            } else {
                0
            };
            out.push(a);
            i += 1;
        }
        out
    }
}

/// The player's weapons, in catalog order.
pub open spec fn player_loadout() -> Seq<Weapon> {
    seq![
        catalog(WeaponType::Pistol),
        catalog(WeaponType::Shotgun),
        catalog(WeaponType::RocketLauncher),
        catalog(WeaponType::LaserRifle),
        catalog(WeaponType::PlasmaGun),
    ]
}

/// An ordered list of weapons and the one in hand.
#[derive(Clone, Debug)]
pub struct WeaponInventory {
    pub weapons: Vec<Weapon>,
    pub current_weapon_index: usize,
}

impl WeaponInventory {
    pub open spec fn wf(self) -> bool {
        &&& 0 < self.weapons@.len()
        &&& self.current_weapon_index < self.weapons@.len()
        &&& forall|i: int| 0 <= i < self.weapons@.len() ==> (#[trigger] self.weapons@[i]).wf()
    }

    /// The five player weapons in catalog order, the pistol in hand.
    pub fn new() -> (r: WeaponInventory)
        ensures
            r.wf(),
            r.current_weapon_index == 0,
            r.weapons@ == player_loadout(),
    {
        let weapons = vec![
            Weapon::of_type(WeaponType::Pistol),
            Weapon::of_type(WeaponType::Shotgun),
            Weapon::of_type(WeaponType::RocketLauncher),
            Weapon::of_type(WeaponType::LaserRifle),
            Weapon::of_type(WeaponType::PlasmaGun),
        ];
        let r = WeaponInventory { weapons, current_weapon_index: 0 };
        assert(r.weapons@ =~= player_loadout());
        r
    }

    pub fn current_weapon(&self) -> (w: &Weapon)
        requires
            self.wf(),
        ensures
            *w == self.weapons@[self.current_weapon_index as int],
    {
        &self.weapons[self.current_weapon_index]
    }

    /// Takes one round from the weapon in hand (see `Weapon::consume_ammo`).
    pub fn consume_current_ammo(&mut self) -> (r: bool)
        requires
            old(self).wf(),
        ensures
            final(self).wf(),
            final(self).current_weapon_index == old(self).current_weapon_index,
            ({
                let i = old(self).current_weapon_index as int;
                let w = old(self).weapons@[i];
                &&& r == match w.ammo {
                    Some(n) => n > 0,
                    None => true,
                }
                &&& final(self).weapons@ == old(self).weapons@.update(
                    i,
                    Weapon {
                        ammo: match w.ammo {
                            Some(n) => if n > 0 {
                                Some((n - 1) as u32)
                            } else {
                                Some(0u32)
                            },
                            None => None,
                        },
                        ..w
                    },
                )
            }),
    {
        let i = self.current_weapon_index;
        let mut w = self.weapons[i];
        let r = w.consume_ammo();
        self.weapons.set(i, w);
        r
    }

    /// Refills the weapon in hand (see `Weapon::reload`).
    pub fn reload_current(&mut self)
        requires
            old(self).wf(),
        ensures
            final(self).wf(),
            final(self).current_weapon_index == old(self).current_weapon_index,
            ({
                let i = old(self).current_weapon_index as int;
                let w = old(self).weapons@[i];
                final(self).weapons@ == old(self).weapons@.update(
                    i,
                    Weapon {
                        ammo: match w.max_ammo {
                            Some(m) => Some(m),
                            None => w.ammo,
                        },
                        ..w
                    },
                )
            }),
    {
        let i = self.current_weapon_index;
        let mut w = self.weapons[i];
        w.reload();
        self.weapons.set(i, w);
    }

    /// Selects the weapon at `index`; an index past the end is ignored.
    pub fn switch_weapon(&mut self, index: usize)
        requires
            old(self).wf(),
        ensures
            final(self).wf(),
            final(self).weapons == old(self).weapons,
            final(self).current_weapon_index == if index < old(self).weapons@.len() {
                index
            } else {
                old(self).current_weapon_index
            },
    {
        if index < self.weapons.len() {
            self.current_weapon_index = index;
        }
    }

    /// Selects the following weapon, wrapping to the first.
    pub fn next_weapon(&mut self)
        requires
            old(self).wf(),
        ensures
            final(self).wf(),
            final(self).weapons == old(self).weapons,
            final(self).current_weapon_index == (old(self).current_weapon_index + 1) % (old(
                self,
            ).weapons@.len() as int),
    {
        let n = self.weapons.len();
        if self.current_weapon_index < n - 1 {
            proof {
                lemma_small_mod((self.current_weapon_index + 1) as nat, n as nat);
            }
            self.current_weapon_index = self.current_weapon_index + 1;
        } else {
            proof {
                lemma_mod_self_0(n as int);
            }
            self.current_weapon_index = 0;
        }
    }

    /// Selects the preceding weapon, wrapping to the last.
    pub fn previous_weapon(&mut self)
        requires
            old(self).wf(),
        ensures
            final(self).wf(),
            final(self).weapons == old(self).weapons,
            final(self).current_weapon_index == if old(self).current_weapon_index == 0 {
                old(self).weapons@.len() - 1
            } else {
                old(self).current_weapon_index - 1
            },
    {
        if self.current_weapon_index == 0 {
            self.current_weapon_index = self.weapons.len() - 1;
        } else {
            self.current_weapon_index -= 1;
        }
    }
}

} // verus!
