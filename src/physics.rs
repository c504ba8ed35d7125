//! Rigid-body integration with drag, and collider overlap tests.
use vstd::prelude::*;
use crate::geometry::{
    abs, in_limit, length_sq, tdiv, div_trunc, Rect, Vec2, COORD_LIMIT,
};

verus! {

/// Parts per million in one whole.
pub const PPM: i64 = 1_000_000;

/// Largest time step, in milliseconds, that one integration accepts.
pub const MAX_STEP_MS: i64 = 1000;

/// Largest drag, in thousandths per second.
pub const MAX_DRAG: i64 = 1000;

/// Per-entity physical state. Velocity is in thousandths of a unit per
/// second, acceleration in thousandths of a unit per second squared, drag in
/// thousandths per second.
#[derive(Clone, Copy, Debug)]
pub struct RigidBody {
    pub velocity: Vec2,
    pub acceleration: Vec2,
    pub mass: i64,
    pub drag: i64,
}

/// Velocity component after one step: acceleration applied, then damped.
pub open spec fn integrated(v: int, a: int, drag: int, dt: int) -> int {
    tdiv((v + tdiv(a * dt, 1000)) * (PPM - drag * dt), PPM as int)
}

impl RigidBody {
    pub open spec fn wf(self) -> bool {
        &&& self.mass > 0
        &&& 0 <= self.drag <= MAX_DRAG
        &&& self.velocity.in_limit()
        &&& self.acceleration.in_limit()
    }

    pub fn new(mass: i64) -> (r: RigidBody)
        requires
            mass > 0,
        ensures
            r.velocity == Vec2::zero_spec(),
            r.acceleration == Vec2::zero_spec(),
            r.mass == mass,
            r.drag == 100,
            r.wf(),
    {
        RigidBody { velocity: Vec2::zero(), acceleration: Vec2::zero(), mass, drag: 100 }
    }

    /// Adds `force / mass` to the acceleration.
    pub fn apply_force(&mut self, force: Vec2)
        requires
            old(self).mass > 0,
            old(self).acceleration.in_limit(),
            force.in_limit(),
        ensures
            final(self).acceleration.x == old(self).acceleration.x + tdiv(
                force.x as int,
                old(self).mass as int,
            ),
            final(self).acceleration.y == old(self).acceleration.y + tdiv(
                force.y as int,
                old(self).mass as int,
            ),
            final(self).velocity == old(self).velocity,
            final(self).mass == old(self).mass,
            final(self).drag == old(self).drag,
    {
        let ax = div_trunc(force.x, self.mass);
        let ay = div_trunc(force.y, self.mass);
        self.acceleration = Vec2 { x: self.acceleration.x + ax, y: self.acceleration.y + ay };
    }

    /// One integration step of `dt` milliseconds: the acceleration is added
    /// to the velocity, the velocity is damped by `1 - drag * dt`, and the
    /// acceleration is cleared.
    pub fn update(&mut self, dt: i64)
        requires
            old(self).wf(),
            0 <= dt <= MAX_STEP_MS,
        ensures
            final(self).velocity.x == integrated(
                old(self).velocity.x as int,
                old(self).acceleration.x as int,
                old(self).drag as int,
                dt as int,
            ),
            final(self).velocity.y == integrated(
                old(self).velocity.y as int,
                old(self).acceleration.y as int,
                old(self).drag as int,
                dt as int,
            ),
            final(self).acceleration == Vec2::zero_spec(),
            final(self).mass == old(self).mass,
            final(self).drag == old(self).drag,
    {
        let vx = integrate_component(self.velocity.x, self.acceleration.x, self.drag, dt);
        let vy = integrate_component(self.velocity.y, self.acceleration.y, self.drag, dt);
        self.velocity = Vec2 { x: vx, y: vy };
        self.acceleration = Vec2::zero();
    }
}

impl Default for RigidBody {
    /// A body of unit mass at rest.
    fn default() -> (r: RigidBody)
        ensures
            r.velocity == Vec2::zero_spec(),
            r.acceleration == Vec2::zero_spec(),
            r.mass == 1,
            r.drag == 100,
    {
        RigidBody::new(1)
    }
}

fn integrate_component(v: i64, a: i64, drag: i64, dt: i64) -> (r: i64)
    requires
        in_limit(v as int),
        in_limit(a as int),
        0 <= drag <= MAX_DRAG,
        0 <= dt <= MAX_STEP_MS,
    ensures
        r == integrated(v as int, a as int, drag as int, dt as int),
{
    assert(-COORD_LIMIT * MAX_STEP_MS <= a * dt <= COORD_LIMIT * MAX_STEP_MS) by (nonlinear_arith)
        requires
            in_limit(a as int),
            0 <= dt <= MAX_STEP_MS,
    ;
    let dv = div_trunc(a * dt, 1000);
    assert(abs(dv as int) <= COORD_LIMIT);
    let v1 = v + dv;
    assert(0 <= drag * dt <= MAX_DRAG * MAX_STEP_MS) by (nonlinear_arith)
        requires
            0 <= drag <= MAX_DRAG,
            0 <= dt <= MAX_STEP_MS,
    ;
    let k = PPM - drag * dt;
    assert(-2 * COORD_LIMIT * PPM <= v1 * k <= 2 * COORD_LIMIT * PPM) by (nonlinear_arith)
        requires
            -2 * COORD_LIMIT <= v1 <= 2 * COORD_LIMIT,
            0 <= k <= PPM,
    ;
    div_trunc(v1 * k, PPM)
}

/// With no accumulated force, one step scales each velocity component's
/// magnitude by `1 - drag * dt`, rounded down, for any step whose damping
/// factor `1 - drag * dt` is not negative.
pub proof fn lemma_drag_scales_speed(v: int, drag: int, dt: int)
    requires
        0 <= drag,
        0 <= dt,
        drag * dt <= PPM,
    ensures
        abs(integrated(v, 0, drag, dt)) == abs(v) * (PPM - drag * dt) / PPM as int,
{
    let k = PPM - drag * dt;
    assert(tdiv(0 * dt, 1000) == 0);
    if v >= 0 {
        assert(v * k >= 0) by (nonlinear_arith)
            requires
                v >= 0,
                k >= 0,
        ;
    } else {
        assert(v * k <= 0) by (nonlinear_arith)
            requires
                v < 0,
                k >= 0,
        ;
        assert(-(v * k) == (-v) * k) by (nonlinear_arith);
        if v * k == 0 {
            assert((-v) * k == 0);
        }
    }
}

/// With no accumulated force, one step scales the speed by `1 - drag * dt`
/// up to rounding: each component's magnitude times one million lies within
/// one million below the old magnitude times `1000000 - drag * dt` (in
/// millionths), and the squared length never grows beyond the scaled one.
/// So the speed after is the speed before times `1 - drag * dt`, within
/// rounding of one thousandth of a unit per second per component.
pub proof fn lemma_drag_scales_velocity(v: Vec2, drag: int, dt: int)
    requires
        0 <= drag,
        0 <= dt,
        drag * dt <= PPM,
    ensures
        ({
            let k = PPM - drag * dt;
            let ax = integrated(v.x as int, 0, drag, dt);
            let ay = integrated(v.y as int, 0, drag, dt);
            &&& PPM * abs(integrated(v.x as int, 0, drag, dt)) <= abs(v.x as int) * k
            &&& abs(v.x as int) * k < PPM * (abs(integrated(v.x as int, 0, drag, dt)) + 1)
            &&& PPM * abs(integrated(v.y as int, 0, drag, dt)) <= abs(v.y as int) * k
            &&& abs(v.y as int) * k < PPM * (abs(integrated(v.y as int, 0, drag, dt)) + 1)
            &&& PPM * PPM * (ax * ax + ay * ay) <= k * k * v.len_sq()
        }),
{
    let k = PPM - drag * dt;
    lemma_drag_scales_speed(v.x as int, drag, dt);
    lemma_drag_scales_speed(v.y as int, drag, dt);
    let ax = abs(v.x as int);
    let ay = abs(v.y as int);
    let bx = abs(integrated(v.x as int, 0, drag, dt));
    let by = abs(integrated(v.y as int, 0, drag, dt));
    assert(ax * k >= 0 && ay * k >= 0) by (nonlinear_arith)
        requires
            ax >= 0,
            ay >= 0,
            k >= 0,
    ;
    assert(PPM * bx <= ax * k < PPM * (bx + 1)) by (nonlinear_arith)
        requires
            bx == ax * k / PPM as int,
            ax * k >= 0,
    ;
    assert(PPM * by <= ay * k < PPM * (by + 1)) by (nonlinear_arith)
        requires
            by == ay * k / PPM as int,
            ay * k >= 0,
    ;
    assert(bx <= ax && by <= ay) by (nonlinear_arith)
        requires
            PPM * bx <= ax * k,
            PPM * by <= ay * k,
            0 <= k <= PPM,
            ax >= 0,
            ay >= 0,
    ;
    assert(PPM * PPM * (bx * bx + by * by) <= k * k * (ax * ax + ay * ay)) by (nonlinear_arith)
        requires
            0 <= PPM * bx <= ax * k,
            0 <= PPM * by <= ay * k,
            bx >= 0,
            by >= 0,
    ;
    let ix = integrated(v.x as int, 0, drag, dt);
    let iy = integrated(v.y as int, 0, drag, dt);
    assert(ix * ix + iy * iy == bx * bx + by * by) by (nonlinear_arith)
        requires
            bx == abs(ix),
            by == abs(iy),
    ;
    assert(v.len_sq() == ax * ax + ay * ay) by (nonlinear_arith)
        requires
            v.len_sq() == v.x * v.x + v.y * v.y,
            ax == abs(v.x as int),
            ay == abs(v.y as int),
    ;
}

/// Shape used for overlap testing, centred on the owner's position.
#[derive(Clone, Copy, Debug)]
pub enum Collider {
    Box { size: Vec2 },
    Circle { radius: i64 },
}

pub open spec fn clamp(v: int, lo: int, hi: int) -> int {
    if v < lo {
        lo
    } else if v > hi {
        hi
    } else {
        v
    }
}

/// A box and a circle overlap: the point of the box nearest the circle's
/// centre lies strictly inside the circle.
pub open spec fn box_circle_touch(box_pos: Vec2, size: Vec2, circle_pos: Vec2, radius: int) -> bool {
    let rect = Rect::centered_spec(box_pos, size);
    let dx = circle_pos.x - clamp(circle_pos.x as int, rect.x as int, rect.right());
    let dy = circle_pos.y - clamp(circle_pos.y as int, rect.y as int, rect.bottom());
    dx * dx + dy * dy < radius * radius
}

impl Collider {
    pub open spec fn wf(self) -> bool {
        match self {
            Collider::Box { size } => 0 <= size.x <= COORD_LIMIT && 0 <= size.y <= COORD_LIMIT,
            Collider::Circle { radius } => 0 <= radius <= COORD_LIMIT,
        }
    }

    /// Overlap of two placed colliders.
    pub open spec fn touches(self, pos1: Vec2, other: Collider, pos2: Vec2) -> bool {
        match (self, other) {
            (Collider::Box { size: s1 }, Collider::Box { size: s2 }) => Rect::centered_spec(
                pos1,
                s1,
            ).overlaps(Rect::centered_spec(pos2, s2)),
            (Collider::Circle { radius: r1 }, Collider::Circle { radius: r2 }) => {
                let dx = pos2.x - pos1.x;
                let dy = pos2.y - pos1.y;
                dx * dx + dy * dy < (r1 + r2) * (r1 + r2)
            },
            (Collider::Box { size }, Collider::Circle { radius }) => box_circle_touch(
                pos1,
                size,
                pos2,
                radius as int,
            ),
            (Collider::Circle { radius }, Collider::Box { size }) => box_circle_touch(
                pos2,
                size,
                pos1,
                radius as int,
            ),
        }
    }

    pub fn check_collision(&self, pos1: Vec2, other: &Collider, pos2: Vec2) -> (r: bool)
        requires
            self.wf(),
            other.wf(),
            pos1.in_limit(),
            pos2.in_limit(),
        ensures
            r == self.touches(pos1, *other, pos2),
    {
        match (self, other) {
            (Collider::Box { size: s1 }, Collider::Box { size: s2 }) => {
                let r1 = Rect::centered(pos1, *s1);
                let r2 = Rect::centered(pos2, *s2);
                r1.intersects(&r2)
            },
            (Collider::Circle { radius: r1 }, Collider::Circle { radius: r2 }) => {
                let d = length_sq(pos2.x - pos1.x, pos2.y - pos1.y);
                let sum = (*r1 + *r2) as u64;
                assert(sum * sum <= 4 * COORD_LIMIT * COORD_LIMIT) by (nonlinear_arith)
                    requires
                        sum <= 2 * COORD_LIMIT,
                ;
                d < sum * sum
            },
            (Collider::Box { size }, Collider::Circle { radius }) => {
                box_circle(pos1, *size, pos2, *radius)
            },
            (Collider::Circle { radius }, Collider::Box { size }) => {
                box_circle(pos2, *size, pos1, *radius)
            },
        }
    }
}

fn clamp_exec(v: i64, lo: i64, hi: i64) -> (r: i64)
    ensures
        r == clamp(v as int, lo as int, hi as int),
{
    if v < lo {
        lo
    } else if v > hi {
        hi
    } else {
        v
    }
}

fn box_circle(box_pos: Vec2, size: Vec2, circle_pos: Vec2, radius: i64) -> (r: bool)
    requires
        box_pos.in_limit(),
        circle_pos.in_limit(),
        0 <= size.x <= COORD_LIMIT,
        0 <= size.y <= COORD_LIMIT,
        0 <= radius <= COORD_LIMIT,
    ensures
        r == box_circle_touch(box_pos, size, circle_pos, radius as int),
{
    let rect = Rect::centered(box_pos, size);
    let cx = clamp_exec(circle_pos.x, rect.x, rect.x + rect.width);
    let cy = clamp_exec(circle_pos.y, rect.y, rect.y + rect.height);
    let d = length_sq(circle_pos.x - cx, circle_pos.y - cy);
    let r = radius as u64;
    assert(r * r <= COORD_LIMIT * COORD_LIMIT) by (nonlinear_arith)
        requires
            r <= COORD_LIMIT,
    ;
    d < r * r
}

} // verus!
