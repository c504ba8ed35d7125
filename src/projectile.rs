//! Projectile flight, expiry, and hits against walls and opposing entities.
use vstd::prelude::*;
use crate::geometry::{Color, Rect, Vec2, COORD_LIMIT};
use crate::level::Level;
use crate::movement::{displacement, velocity_after};
use crate::physics::{RigidBody, MAX_STEP_MS};
use crate::weapons::{Weapon, WeaponType};

verus! {

/// Gravity on a projectile with a gravity scale of one, in thousandths of a
/// unit per second squared.
pub const PROJECTILE_GRAVITY: i64 = 500_000;

/// Age, in milliseconds, after which a trailing projectile leaves a trail.
pub const TRAIL_DELAY_MS: i64 = 50;

/// Longest lifetime a projectile may have, in milliseconds.
pub const MAX_LIFETIME_MS: i64 = 1_000_000_000;

/// Faction that fired a projectile; it damages only the other one.
#[derive(Clone, Copy, Debug, PartialEq, Eq, Structural)]
pub enum ProjectileOwner {
    Enemy,
    Player,
}

/// A projectile in flight. Damage is in thousandths of a hit point, times in
/// milliseconds, the gravity scale in thousandths.
#[derive(Clone, Copy, Debug)]
pub struct Projectile {
    pub damage: i64,
    pub lifetime: i64,
    pub max_lifetime: i64,
    pub size: Vec2,
    pub owner_type: ProjectileOwner,
    pub weapon_type: Option<WeaponType>,
    pub gravity_scale: i64,
    pub explosion_radius: i64,
    pub pierce_count: u32,
    pub has_trail: bool,
    pub color: Color,
}

/// The box of an entity that a projectile can hit.
#[derive(Clone, Copy, Debug)]
pub struct Hitbox {
    pub position: Vec2,
    pub size: Vec2,
}

impl Hitbox {
    pub open spec fn wf(self) -> bool {
        self.position.in_limit() && 0 <= self.size.x <= COORD_LIMIT && 0 <= self.size.y
            <= COORD_LIMIT
    }

    pub open spec fn rect(self) -> Rect {
        Rect::centered_spec(self.position, self.size)
    }
}

/// Hits of a projectile whose box is `rect`, sweeping `targets` from index
/// `i` with `pierce` piercings left: the indices hit in order, the piercings
/// left, and whether the projectile is spent. Every overlapped target is
/// hit; a hit with no piercing left spends the projectile and ends the sweep.
pub open spec fn sweep(rect: Rect, targets: Seq<Hitbox>, i: int, pierce: nat) -> (
    Seq<usize>,
    nat,
    bool,
)
    decreases targets.len() - i,
{
    if i < 0 || i >= targets.len() {
        (Seq::empty(), pierce, false)
    } else if rect.overlaps(targets[i].rect()) {
        if pierce > 0 {
            let rest = sweep(rect, targets, i + 1, (pierce - 1) as nat);
            (seq![i as usize] + rest.0, rest.1, rest.2)
        } else {
            (seq![i as usize], 0, true)
        }
    } else {
        sweep(rect, targets, i + 1, pierce)
    }
}

/// What one tick did to a projectile.
#[derive(Clone, Debug)]
pub struct ProjectileStep {
    /// The projectile is to be removed.
    pub expired: bool,
    /// It struck a solid tile.
    pub hit_wall: bool,
    /// It struck a solid tile with a splash radius: an explosion is due at
    /// its position.
    pub splash: bool,
    /// It leaves a trail this tick.
    pub trail: bool,
    /// Indices of the targets hit, in the order met.
    pub hits: Vec<usize>,
}

impl Projectile {
    pub open spec fn wf(self) -> bool {
        &&& 0 <= self.lifetime <= self.max_lifetime <= MAX_LIFETIME_MS
        &&& 0 <= self.size.x <= COORD_LIMIT
        &&& 0 <= self.size.y <= COORD_LIMIT
        &&& 0 <= self.gravity_scale <= 1000
    }

    pub open spec fn new_spec(damage: i64, owner: ProjectileOwner) -> Projectile {
        Projectile {
            damage,
            lifetime: 0,
            max_lifetime: 5000,
            size: Vec2 { x: 8000, y: 8000 },
            owner_type: owner,
            weapon_type: None,
            gravity_scale: 1000,
            explosion_radius: 0,
            pierce_count: 0,
            has_trail: false,
            color: Color { r: 255, g: 200, b: 0, a: 255 },
        }
    }

    /// A plain projectile: five seconds of life, an 8 by 8 box, full gravity.
    pub fn new(damage: i64, owner: ProjectileOwner) -> (p: Projectile)
        ensures
            p == Projectile::new_spec(damage, owner),
            p.wf(),
    {
        Projectile {
            damage,
            lifetime: 0,
            max_lifetime: 5000,
            size: Vec2::new(8000, 8000),
            owner_type: owner,
            weapon_type: None,
            gravity_scale: 1000,
            explosion_radius: 0,
            pierce_count: 0,
            has_trail: false,
            color: Color::new(255, 200, 0, 255),
        }
    }

    /// A fresh projectile carrying the weapon's parameters; rockets, lasers
    /// and plasma leave trails.
    pub fn from_weapon(weapon: &Weapon, owner: ProjectileOwner) -> (p: Projectile)
        requires
            weapon.wf(),
        ensures
            p == (Projectile {
                damage: weapon.damage,
                lifetime: 0,
                max_lifetime: weapon.projectile_lifetime,
                size: weapon.projectile_size,
                owner_type: owner,
                weapon_type: Some(weapon.weapon_type),
                gravity_scale: weapon.gravity_scale,
                explosion_radius: weapon.explosion_radius,
                pierce_count: weapon.pierce_count,
                has_trail: weapon.weapon_type == WeaponType::RocketLauncher || weapon.weapon_type
                    == WeaponType::LaserRifle || weapon.weapon_type == WeaponType::PlasmaGun,
                color: weapon.projectile_color,
            }),
            p.wf(),
    {
        let has_trail = match weapon.weapon_type {
            WeaponType::RocketLauncher | WeaponType::LaserRifle | WeaponType::PlasmaGun => true,
            _ => false,
        };
        Projectile {
            damage: weapon.damage,
            lifetime: 0,
            max_lifetime: weapon.projectile_lifetime,
            size: weapon.projectile_size,
            owner_type: owner,
            weapon_type: Some(weapon.weapon_type),
            gravity_scale: weapon.gravity_scale,
            explosion_radius: weapon.explosion_radius,
            pierce_count: weapon.pierce_count,
            has_trail,
            color: weapon.projectile_color,
        }
    }

    pub open spec fn expired_spec(self) -> bool {
        self.lifetime >= self.max_lifetime
    }

    pub fn is_expired(&self) -> (r: bool)
        ensures
            r == self.expired_spec(),
    {
        self.lifetime >= self.max_lifetime
    }

    /// Ages the projectile by `dt` milliseconds; true when it is now expired.
    pub fn tick_lifetime(&mut self, dt: i64) -> (r: bool)
        requires
            old(self).wf(),
            0 <= dt <= MAX_STEP_MS,
        ensures
            final(self).lifetime == old(self).lifetime + dt,
            *final(self) == (Projectile { lifetime: final(self).lifetime, ..*old(self) }),
            r == final(self).expired_spec(),
            r == (old(self).lifetime + dt >= old(self).max_lifetime),
    {
        self.lifetime = self.lifetime + dt;
        self.is_expired()
    }

    /// Gravity force on this projectile's body.
    pub open spec fn gravity_force(self) -> int {
        PROJECTILE_GRAVITY * self.gravity_scale / 1000
    }
}

/// Box of a projectile at `pos`.
pub open spec fn projectile_rect(p: Projectile, pos: Vec2) -> Rect {
    Rect::centered_spec(pos, p.size)
}

/// Bounds under which one tick of a projectile is computed exactly.
pub open spec fn flight_ok(p: Projectile, pos: Vec2, body: RigidBody) -> bool {
    &&& p.wf()
    &&& pos.in_limit()
    &&& body.wf()
    &&& -COORD_LIMIT / 2 <= body.acceleration.x <= COORD_LIMIT / 2
    &&& -COORD_LIMIT / 2 <= body.acceleration.y <= COORD_LIMIT / 2
}

/// One tick of a projectile. It ages by `dt`; if its lifetime is reached it
/// expires and hits nothing. Otherwise gravity (scaled) is applied, the body
/// is integrated, and the box at the new position is tested: against the
/// grid first (a solid tile expires it where it stood, with a splash if it
/// has a splash radius), else the projectile moves there and is swept
/// against `targets` (see `sweep`), losing one piercing per pass-through.
pub fn advance_projectile(
    proj: &mut Projectile,
    pos: &mut Vec2,
    body: &mut RigidBody,
    level: &Level,
    targets: &Vec<Hitbox>,
    dt: i64,
) -> (r: ProjectileStep)
    requires
        flight_ok(*old(proj), *old(pos), *old(body)),
        level.wf(),
        forall|i: int| 0 <= i < targets@.len() ==> (#[trigger] targets@[i]).wf(),
        0 <= dt <= MAX_STEP_MS,
    ensures
        final(proj).lifetime == old(proj).lifetime + dt,
        old(proj).lifetime + dt >= old(proj).max_lifetime ==> {
            &&& r.expired
            &&& !r.hit_wall
            &&& !r.splash
            &&& !r.trail
            &&& r.hits@.len() == 0
            &&& *final(pos) == *old(pos)
            &&& *final(body) == *old(body)
            &&& final(proj).pierce_count == old(proj).pierce_count
        },
        old(proj).lifetime + dt < old(proj).max_lifetime ==> {
            let v = velocity_after(*old(body), old(proj).gravity_force(), dt as int);
            let np = Vec2 {
                x: (old(pos).x + displacement(v.x as int, dt as int)) as i64,
                y: (old(pos).y + displacement(v.y as int, dt as int)) as i64,
            };
            let rect = projectile_rect(*old(proj), np);
            let wall = level.collides(rect);
            let s = sweep(rect, targets@, 0, old(proj).pierce_count as nat);
            &&& final(body).velocity == v
            &&& final(body).acceleration == Vec2::zero_spec()
            &&& r.trail == (old(proj).has_trail && final(proj).lifetime > TRAIL_DELAY_MS)
            &&& r.hit_wall == wall
            &&& r.splash == (wall && old(proj).explosion_radius > 0)
            &&& wall ==> {
                &&& r.expired
                &&& r.hits@.len() == 0
                &&& *final(pos) == *old(pos)
                &&& final(proj).pierce_count == old(proj).pierce_count
            }
            &&& !wall ==> {
                &&& *final(pos) == np
                &&& r.hits@ == s.0
                &&& final(proj).pierce_count == s.1
                &&& r.expired == s.2
            }
        },
        final(proj).pierce_count <= old(proj).pierce_count,
        final(proj).damage == old(proj).damage,
        final(proj).max_lifetime == old(proj).max_lifetime,
        final(proj).size == old(proj).size,
        final(proj).owner_type == old(proj).owner_type,
        final(proj).explosion_radius == old(proj).explosion_radius,
{
    let expired = proj.tick_lifetime(dt);
    if expired {
        return ProjectileStep {
            expired: true,
            hit_wall: false,
            splash: false,
            trail: false,
            hits: Vec::new(),
        };
    }
    let force = PROJECTILE_GRAVITY * proj.gravity_scale / 1000;
    body.apply_force(Vec2::new(0, force));
    body.update(dt);
    proof {
        crate::movement::velocity_bound(
            old(body).velocity.x as int,
            old(body).acceleration.x as int,
            old(body).drag as int,
            dt as int,
        );
        crate::movement::velocity_bound(
            old(body).velocity.y as int,
            old(body).acceleration.y + crate::geometry::tdiv(force as int, old(body).mass as int),
            old(body).drag as int,
            dt as int,
        );
    }
    let trail = proj.has_trail && proj.lifetime > TRAIL_DELAY_MS;
    let nx = crate::movement::step(pos.x, body.velocity.x, dt);
    let ny = crate::movement::step(pos.y, body.velocity.y, dt);
    let rect = Rect::new(nx - proj.size.x / 2, ny - proj.size.y / 2, proj.size.x, proj.size.y);
    if level.check_collision(rect) {
        return ProjectileStep {
            expired: true,
            hit_wall: true,
            splash: proj.explosion_radius > 0,
            trail,
            hits: Vec::new(),
        };
    }
    *pos = Vec2::new(nx, ny);
    let (hits, pierce, spent) = sweep_targets(rect, targets, proj.pierce_count);
    proj.pierce_count = pierce;
    ProjectileStep { expired: spent, hit_wall: false, splash: false, trail, hits }
}

/// Sweeps `targets` in order (see `sweep`).
pub fn sweep_targets(rect: Rect, targets: &Vec<Hitbox>, pierce: u32) -> (r: (Vec<usize>, u32, bool))
    requires
        rect.in_limit(),
        forall|i: int| 0 <= i < targets@.len() ==> (#[trigger] targets@[i]).wf(),
    ensures
        (r.0@, r.1 as nat, r.2) == sweep(rect, targets@, 0, pierce as nat),
        r.1 <= pierce,
{
    let mut hits: Vec<usize> = Vec::new();
    let mut left: u32 = pierce;
    let mut i: usize = 0;
    while i < targets.len()
        invariant
            rect.in_limit(),
            forall|k: int| 0 <= k < targets@.len() ==> (#[trigger] targets@[k]).wf(),
            i <= targets@.len(),
            left <= pierce,
            ({
                let rest = sweep(rect, targets@, i as int, left as nat);
                sweep(rect, targets@, 0, pierce as nat) == (hits@ + rest.0, rest.1, rest.2)
            }),
        decreases targets.len() - i,
    {
        let t = targets[i];
        let tr = Rect::centered(t.position, t.size);
        if rect.intersects(&tr) {
            proof {
                let rest = sweep(rect, targets@, i + 1, (left - 1) as nat);
                if left > 0 {
                    assert(hits@ + (seq![i as usize] + rest.0) == hits@.push(i) + rest.0);
                }
            }
            hits.push(i);
            if left > 0 {
                left = left - 1;
            } else {
                proof {
                    assert(hits@ == hits@ + Seq::<usize>::empty());
                }
                return (hits, 0, true);
            }
        }
        i += 1;
    }
    proof {
        assert(hits@ + Seq::<usize>::empty() == hits@);
    }
    (hits, left, false)
}

/// The hitboxes a projectile may strike: a player's shot strikes enemies,
/// an enemy's shot strikes the player.
pub fn opposing<'a>(
    owner: ProjectileOwner,
    player: &'a Vec<Hitbox>,
    enemies: &'a Vec<Hitbox>,
) -> (r: &'a Vec<Hitbox>)
    ensures
        *r == if owner == ProjectileOwner::Player {
            *enemies
        } else {
            *player
        },
{
    match owner {
        ProjectileOwner::Player => enemies,
        ProjectileOwner::Enemy => player,
    }
}

/// One damage event per hit, each dealing `damage` to the entity hit.
pub fn damage_events(hits: &Vec<usize>, damage: i64) -> (r: Vec<DamageEvent>)
    ensures
        r@ == hit_events(hits@, damage),
{
    let mut out: Vec<DamageEvent> = Vec::new();
    let mut k: usize = 0;
    while k < hits.len()
        invariant
            k <= hits@.len(),
            out@.len() == k,
            forall|j: int| 0 <= j < k ==> #[trigger] out@[j] == (hits@[j], damage),
        decreases hits.len() - k,
    {
        out.push((hits[k], damage));
        k += 1;
    }
    assert(out@ =~= hit_events(hits@, damage));
    out
}

/// The damage events of a list of hits, each dealing `damage`.
pub open spec fn hit_events(hits: Seq<usize>, damage: i64) -> Seq<DamageEvent> {
    Seq::new(hits.len(), |k: int| (hits[k], damage))
}

/// Against targets that all overlap it, a projectile with `pierce`
/// piercings hits them in order until it has passed through `pierce` of
/// them: it hits `min(n, pierce + 1)` of the `n` targets and is spent exactly
/// when there are more than `pierce`, its last piercing used on the way.
pub proof fn lemma_pierce_through_row(rect: Rect, targets: Seq<Hitbox>, i: int, pierce: nat)
    requires
        0 <= i <= targets.len(),
        forall|j: int| i <= j < targets.len() ==> rect.overlaps(#[trigger] targets[j].rect()),
    ensures
        ({
            let n = targets.len() - i;
            let s = sweep(rect, targets, i, pierce);
            &&& s.0 == Seq::new(
                if n <= pierce {
                    n as nat
                } else {
                    pierce + 1
                },
                |j: int| (i + j) as usize,
            )
            &&& s.1 == if n <= pierce {
                (pierce - n) as nat
            } else {
                0
            }
            &&& s.2 == (n > pierce)
        }),
    decreases targets.len() - i,
{
    let n = targets.len() - i;
    if i < targets.len() {
        assert(rect.overlaps(targets[i].rect()));
        if pierce > 0 {
            lemma_pierce_through_row(rect, targets, i + 1, (pierce - 1) as nat);
            let rest = sweep(rect, targets, i + 1, (pierce - 1) as nat);
            let len = if n <= pierce {
                n as nat
            } else {
                pierce + 1
            };
            assert(seq![i as usize] + rest.0 =~= Seq::new(len, |j: int| (i + j) as usize));
        } else {
            assert(seq![i as usize] =~= Seq::new(1, |j: int| (i + j) as usize));
        }
    } else {
        assert(Seq::<usize>::empty() =~= Seq::new(0, |j: int| (i + j) as usize));
    }
}

/// When the first `pierce + 1` targets all overlap, the projectile hits
/// exactly those, in order, and is spent on the last of them; targets after
/// them are not hit, whether they overlap or not.
pub proof fn lemma_pierce_prefix(rect: Rect, targets: Seq<Hitbox>, i: int, pierce: nat)
    requires
        0 <= i,
        i + pierce + 1 <= targets.len(),
        forall|j: int| i <= j <= i + pierce ==> rect.overlaps(#[trigger] targets[j].rect()),
    ensures
        sweep(rect, targets, i, pierce) == (
            Seq::new(pierce + 1, |j: int| (i + j) as usize),
            0nat,
            true,
        ),
    decreases pierce,
{
    assert(rect.overlaps(targets[i].rect()));
    if pierce > 0 {
        lemma_pierce_prefix(rect, targets, i + 1, (pierce - 1) as nat);
        let rest = sweep(rect, targets, i + 1, (pierce - 1) as nat);
        assert(seq![i as usize] + rest.0 =~= Seq::new(pierce + 1, |j: int| (i + j) as usize));
    } else {
        assert(seq![i as usize] =~= Seq::new(1, |j: int| (i + j) as usize));
    }
}

/// Total damage to `t` from one event per entity `0..n`, each dealing `damage`.
proof fn lemma_damage_to_prefix(n: nat, damage: i64, t: int)
    requires
        n <= u32::MAX + 1,
    ensures
        damage_to(hit_events(Seq::new(n, |j: int| j as usize), damage), t) == if 0 <= t < n {
            damage as int
        } else {
            0
        },
    decreases n,
{
    let events = hit_events(Seq::new(n, |j: int| j as usize), damage);
    if n > 0 {
        lemma_damage_to_prefix((n - 1) as nat, damage, t);
        assert(events.drop_last() =~= hit_events(
            Seq::new((n - 1) as nat, |j: int| j as usize),
            damage,
        ));
    } else {
        assert(events.len() == 0);
    }
}

/// A projectile with `pierce` piercings whose box overlaps the first
/// `pierce + 1` targets is spent, and once its damage events are applied
/// each of those targets has lost `damage` health (not below zero) while
/// every later target keeps its health.
pub proof fn lemma_pierce_damage(
    rect: Rect,
    targets: Seq<Hitbox>,
    pierce: u32,
    healths: Seq<i64>,
    damage: i64,
)
    requires
        pierce + 1 <= targets.len(),
        forall|j: int| 0 <= j <= pierce ==> rect.overlaps(#[trigger] targets[j].rect()),
        forall|t: int| 0 <= t < healths.len() ==> 0 <= #[trigger] healths[t],
    ensures
        ({
            let s = sweep(rect, targets, 0, pierce as nat);
            let events = hit_events(s.0, damage);
            &&& s.2
            &&& s.1 == 0
            &&& forall|t: int|
                0 <= t < healths.len() ==> #[trigger] damaged(
                    healths[t] as int,
                    damage_to(events, t),
                ) == if t <= pierce {
                    if healths[t] - damage > 0 {
                        healths[t] - damage
                    } else {
                        0
                    }
                } else {
                    healths[t] as int
                }
        }),
{
    lemma_pierce_prefix(rect, targets, 0, pierce as nat);
    assert(Seq::new(pierce as nat + 1, |j: int| (0 + j) as usize) =~= Seq::new(
        pierce as nat + 1,
        |j: int| j as usize,
    ));
    assert forall|t: int| 0 <= t < healths.len() implies #[trigger] damaged(
        healths[t] as int,
        damage_to(hit_events(sweep(rect, targets, 0, pierce as nat).0, damage), t),
    ) == if t <= pierce {
        if healths[t] - damage > 0 {
            healths[t] - damage
        } else {
            0
        }
    } else {
        healths[t] as int
    } by {
        lemma_damage_to_prefix(pierce as nat + 1, damage, t);
    }
}

/// A damage event: the index of the entity hit and the damage dealt.
pub type DamageEvent = (usize, i64);

/// Total damage that `events` deal to entity `t`.
pub open spec fn damage_to(events: Seq<DamageEvent>, t: int) -> int
    decreases events.len(),
{
    if events.len() == 0 {
        0
    } else {
        damage_to(events.drop_last(), t) + if events.last().0 == t {
            events.last().1 as int
        } else {
            0
        }
    }
}

/// Health after damage, which never drops below zero.
pub open spec fn damaged(health: int, damage: int) -> int {
    if health - damage > 0 {
        health - damage
    } else {
        0
    }
}

/// Applies the damage events collected during a sweep, after the sweep:
/// each entity's health drops by the total aimed at it, clamped at zero.
/// Events naming no entity are ignored.
pub fn apply_damage(healths: &mut Vec<i64>, events: &Vec<DamageEvent>)
    requires
        forall|i: int| 0 <= i < old(healths)@.len() ==> 0 <= #[trigger] old(healths)@[i],
        forall|k: int| 0 <= k < events@.len() ==> 0 <= (#[trigger] events@[k]).1,
    ensures
        final(healths)@.len() == old(healths)@.len(),
        forall|i: int|
            0 <= i < final(healths)@.len() ==> #[trigger] final(healths)@[i] == damaged(
                old(healths)@[i] as int,
                damage_to(events@, i),
            ),
{
    let mut k: usize = 0;
    while k < events.len()
        invariant
            k <= events@.len(),
            healths@.len() == old(healths)@.len(),
            forall|j: int| 0 <= j < events@.len() ==> 0 <= (#[trigger] events@[j]).1,
            forall|i: int|
                0 <= i < healths@.len() ==> #[trigger] healths@[i] == damaged(
                    old(healths)@[i] as int,
                    damage_to(events@.take(k as int), i),
                ),
            forall|i: int| 0 <= i < healths@.len() ==> 0 <= #[trigger] old(healths)@[i],
        decreases events.len() - k,
    {
        let (t, d) = events[k];
        proof {
            assert(events@.take(k + 1).drop_last() == events@.take(k as int));
            assert forall|i: int| 0 <= i < healths@.len() implies 0 <= damage_to(
                events@.take(k as int),
                i,
            ) by {
                lemma_damage_nonneg(events@.take(k as int), i);
            }
        }
        if t < healths.len() {
            let h = healths[t];
            let nh = if h - d > 0 {
                h - d
            } else {
                0
            };
            healths.set(t, nh);
        }
        k += 1;
    }
    proof {
        assert(events@.take(events@.len() as int) == events@);
    }
}

proof fn lemma_damage_nonneg(events: Seq<DamageEvent>, t: int)
    requires
        forall|k: int| 0 <= k < events.len() ==> 0 <= (#[trigger] events[k]).1,
    ensures
        damage_to(events, t) >= 0,
    decreases events.len(),
{
    if events.len() > 0 {
        lemma_damage_nonneg(events.drop_last(), t);
    }
}

/// Indices, in increasing order, of the entities whose health is gone.
pub fn dead_entities(healths: &Vec<i64>) -> (r: Vec<usize>)
    ensures
        forall|k: int| 0 <= k < r@.len() ==> #[trigger] r@[k] < healths@.len(),
        forall|k: int| 0 <= k < r@.len() ==> healths@[#[trigger] r@[k] as int] <= 0,
        forall|a: int, b: int| 0 <= a < b < r@.len() ==> r@[a] < r@[b],
        forall|i: int|
            0 <= i < healths@.len() && #[trigger] healths@[i] <= 0 ==> r@.contains(i as usize),
{
    let mut out: Vec<usize> = Vec::new();
    let mut i: usize = 0;
    while i < healths.len()
        invariant
            i <= healths@.len(),
            forall|k: int| 0 <= k < out@.len() ==> #[trigger] out@[k] < i,
            forall|k: int| 0 <= k < out@.len() ==> healths@[#[trigger] out@[k] as int] <= 0,
            forall|a: int, b: int| 0 <= a < b < out@.len() ==> out@[a] < out@[b],
            forall|j: int| 0 <= j < i && #[trigger] healths@[j] <= 0 ==> out@.contains(j as usize),
        decreases healths.len() - i,
    {
        if healths[i] <= 0 {
            let ghost prev = out@;
            out.push(i);
            proof {
                assert forall|j: int| 0 <= j < i + 1 && #[trigger] healths@[j] <= 0 implies out@.contains(
                    j as usize,
                ) by {
                    if j == i {
                        assert(out@[out@.len() - 1] == j as usize);
                    } else {
                        assert(prev.contains(j as usize));
                        let w = choose|w: int| 0 <= w < prev.len() && prev[w] == j as usize;
                        assert(out@[w] == j as usize);
                    }
                }
            }
        }
        i += 1;
    }
    out
}

/// Total of the time steps `dts`.
pub open spec fn elapsed(dts: Seq<int>) -> int
    decreases dts.len(),
{
    if dts.len() == 0 {
        0
    } else {
        elapsed(dts.drop_last()) + dts.last()
    }
}

/// The projectile after `tick_lifetime` with each step of `dts` in turn.
pub open spec fn aged(p: Projectile, dts: Seq<int>) -> Projectile
    decreases dts.len(),
{
    if dts.len() == 0 {
        p
    } else {
        let q = aged(p, dts.drop_last());
        Projectile { lifetime: (q.lifetime + dts.last()) as i64, ..q }
    }
}

/// Spawned with age zero and advanced by non-negative steps, a projectile is
/// expired after the first `k` steps exactly when their total reaches its
/// maximum lifetime; so it is marked expired at the first step at which the
/// elapsed time reaches that maximum, never earlier, and stays expired.
pub proof fn lemma_expiry_when_elapsed_reaches_max(p: Projectile, dts: Seq<int>, j: int, k: int)
    requires
        p.lifetime == 0,
        forall|i: int| 0 <= i < dts.len() ==> 0 <= #[trigger] dts[i],
        elapsed(dts) <= i64::MAX,
        0 <= j <= k <= dts.len(),
    ensures
        aged(p, dts.take(k)).lifetime == elapsed(dts.take(k)),
        aged(p, dts.take(k)).max_lifetime == p.max_lifetime,
        aged(p, dts.take(k)).expired_spec() == (elapsed(dts.take(k)) >= p.max_lifetime),
        elapsed(dts.take(j)) <= elapsed(dts.take(k)),
        aged(p, dts.take(j)).expired_spec() ==> aged(p, dts.take(k)).expired_spec(),
    decreases k,
{
    lemma_elapsed_mono(dts, j, k);
    lemma_elapsed_mono(dts, 0, k);
    lemma_elapsed_mono(dts, k, dts.len() as int);
    assert(dts.take(dts.len() as int) == dts);
    assert(dts.take(0).len() == 0);
    if k > 0 {
        lemma_elapsed_step(dts, k);
        lemma_expiry_when_elapsed_reaches_max(p, dts, 0, k - 1);
        if j < k {
            lemma_expiry_when_elapsed_reaches_max(p, dts, j, j);
        }
    }
}

proof fn lemma_elapsed_step(dts: Seq<int>, k: int)
    requires
        0 < k <= dts.len(),
    ensures
        elapsed(dts.take(k)) == elapsed(dts.take(k - 1)) + dts[k - 1],
        dts.take(k).drop_last() == dts.take(k - 1),
{
    assert(dts.take(k).drop_last() == dts.take(k - 1));
}

/// Prefix totals of non-negative steps never decrease.
proof fn lemma_elapsed_mono(dts: Seq<int>, j: int, k: int)
    requires
        forall|i: int| 0 <= i < dts.len() ==> 0 <= #[trigger] dts[i],
        0 <= j <= k <= dts.len(),
    ensures
        elapsed(dts.take(j)) <= elapsed(dts.take(k)),
        j == 0 ==> elapsed(dts.take(j)) == 0,
    decreases k - j,
{
    assert(dts.take(0).len() == 0);
    if j < k {
        lemma_elapsed_mono(dts, j, k - 1);
        lemma_elapsed_step(dts, k);
    }
}

} // verus!
