//! Axis-separated movement of a body against the tile grid, shared by the
//! player, the enemies and the mech.
use vstd::prelude::*;
use crate::geometry::{div_trunc, in_limit, tdiv, Rect, Vec2, COORD_LIMIT};
use crate::level::{Level, MAX_TILES, TILE_SIZE};
use crate::physics::{integrated, RigidBody, MAX_STEP_MS};

verus! {

/// Distance moved in `dt` milliseconds at velocity `v` (per second).
pub open spec fn displacement(v: int, dt: int) -> int {
    tdiv(v * dt, 1000)
}

/// What happened on each axis during one resolved move.
#[derive(Clone, Copy, Debug, PartialEq, Eq, Structural)]
pub struct MoveOutcome {
    pub blocked_x: bool,
    pub blocked_y: bool,
    /// Blocked vertically while falling.
    pub landed: bool,
}

/// Size of a body that moves through the grid.
pub open spec fn size_ok(size: Vec2) -> bool {
    0 <= size.x <= COORD_LIMIT && 0 <= size.y <= COORD_LIMIT
}

/// Bounds under which one move of a body is computed exactly.
pub open spec fn move_ok(body: RigidBody, pos: Vec2, size: Vec2, gravity: int) -> bool {
    &&& body.wf()
    &&& pos.in_limit()
    &&& size_ok(size)
    &&& -COORD_LIMIT / 2 <= body.acceleration.x <= COORD_LIMIT / 2
    &&& -COORD_LIMIT / 2 <= body.acceleration.y <= COORD_LIMIT / 2
    &&& -COORD_LIMIT / 2 <= gravity <= COORD_LIMIT / 2
}

/// Velocity after the gravity force is applied and the body integrated.
pub open spec fn velocity_after(body: RigidBody, gravity: int, dt: int) -> Vec2 {
    Vec2 {
        x: integrated(
            body.velocity.x as int,
            body.acceleration.x as int,
            body.drag as int,
            dt,
        ) as i64,
        y: integrated(
            body.velocity.y as int,
            body.acceleration.y + tdiv(gravity, body.mass as int),
            body.drag as int,
            dt,
        ) as i64,
    }
}

/// Resulting position, velocity and outcome of one axis-separated move: the
/// horizontal step is tried first, then the vertical one from the
/// (possibly updated) horizontal position.
pub open spec fn resolved(
    level: Level,
    pos: Vec2,
    body: RigidBody,
    size: Vec2,
    gravity: int,
    dt: int,
) -> (Vec2, Vec2, MoveOutcome) {
    let v = velocity_after(body, gravity, dt);
    let nx = pos.x + displacement(v.x as int, dt);
    let bx = level.collides(Rect::centered_spec(Vec2 { x: nx as i64, y: pos.y }, size));
    let x = if bx {
        pos.x as int
    } else {
        nx
    };
    let ny = pos.y + displacement(v.y as int, dt);
    let by = level.collides(Rect::centered_spec(Vec2 { x: x as i64, y: ny as i64 }, size));
    let y = if by {
        pos.y as int
    } else {
        ny
    };
    (
        Vec2 { x: x as i64, y: y as i64 },
        Vec2 {
            x: if bx {
                0
            } else {
                v.x
            },
            y: if by {
                0
            } else {
                v.y
            },
        },
        MoveOutcome { blocked_x: bx, blocked_y: by, landed: by && v.y > 0 },
    )
}

pub(crate) fn step(p: i64, v: i64, dt: i64) -> (r: i64)
    requires
        in_limit(p as int),
        -2 * COORD_LIMIT <= v <= 2 * COORD_LIMIT,
        0 <= dt <= MAX_STEP_MS,
    ensures
        r == p + displacement(v as int, dt as int),
        -3 * COORD_LIMIT <= r <= 3 * COORD_LIMIT,
{
    assert(-2 * COORD_LIMIT * MAX_STEP_MS <= v * dt <= 2 * COORD_LIMIT * MAX_STEP_MS)
        by (nonlinear_arith)
        requires
            -2 * COORD_LIMIT <= v <= 2 * COORD_LIMIT,
            0 <= dt <= MAX_STEP_MS,
    ;
    p + div_trunc(v * dt, 1000)
}

/// One tick of movement: gravity is applied and the body integrated, then
/// the horizontal and the vertical step are each committed only where the
/// displaced rectangle hits no solid tile; a blocked axis loses its velocity.
pub fn move_body(
    level: &Level,
    pos: &mut Vec2,
    body: &mut RigidBody,
    size: Vec2,
    gravity: i64,
    dt: i64,
) -> (r: MoveOutcome)
    requires
        level.wf(),
        move_ok(*old(body), *old(pos), size, gravity as int),
        0 <= dt <= MAX_STEP_MS,
    ensures
        (*final(pos), final(body).velocity, r) == resolved(
            *level,
            *old(pos),
            *old(body),
            size,
            gravity as int,
            dt as int,
        ),
        final(body).acceleration == Vec2::zero_spec(),
        final(body).mass == old(body).mass,
        final(body).drag == old(body).drag,
        -3 * COORD_LIMIT <= final(pos).x <= 3 * COORD_LIMIT,
        -3 * COORD_LIMIT <= final(pos).y <= 3 * COORD_LIMIT,
        -2 * COORD_LIMIT <= final(body).velocity.x <= 2 * COORD_LIMIT,
        -2 * COORD_LIMIT <= final(body).velocity.y <= 2 * COORD_LIMIT,
{
    body.apply_force(Vec2::new(0, gravity));
    body.update(dt);
    proof {
        velocity_bound(old(body).velocity.x as int, old(body).acceleration.x as int, old(body).drag as int, dt as int);
        velocity_bound(
            old(body).velocity.y as int,
            old(body).acceleration.y + tdiv(gravity as int, old(body).mass as int),
            old(body).drag as int,
            dt as int,
        );
    }
    let nx = step(pos.x, body.velocity.x, dt);
    let rect_x = Rect::new(nx - size.x / 2, pos.y - size.y / 2, size.x, size.y);
    let bx = level.check_collision(rect_x);
    if bx {
        body.velocity.x = 0;
    } else {
        pos.x = nx;
    }
    let ny = step(pos.y, body.velocity.y, dt);
    let rect_y = Rect::new(pos.x - size.x / 2, ny - size.y / 2, size.x, size.y);
    let by = level.check_collision(rect_y);
    let landed = by && body.velocity.y > 0;
    if by {
        body.velocity.y = 0;
    } else {
        pos.y = ny;
    }
    MoveOutcome { blocked_x: bx, blocked_y: by, landed }
}

pub(crate) proof fn velocity_bound(v: int, a: int, drag: int, dt: int)
    requires
        in_limit(v),
        in_limit(a),
        0 <= drag <= 1000,
        0 <= dt <= MAX_STEP_MS,
    ensures
        -2 * COORD_LIMIT <= integrated(v, a, drag, dt) <= 2 * COORD_LIMIT,
{
    assert(-COORD_LIMIT * MAX_STEP_MS <= a * dt <= COORD_LIMIT * MAX_STEP_MS) by (nonlinear_arith)
        requires
            in_limit(a),
            0 <= dt <= MAX_STEP_MS,
    ;
    let v1 = v + tdiv(a * dt, 1000);
    let k = 1_000_000 - drag * dt;
    assert(0 <= drag * dt <= 1_000_000) by (nonlinear_arith)
        requires
            0 <= drag <= 1000,
            0 <= dt <= MAX_STEP_MS,
    ;
    assert(-2 * COORD_LIMIT * 1_000_000 <= v1 * k <= 2 * COORD_LIMIT * 1_000_000) by (nonlinear_arith)
        requires
            -2 * COORD_LIMIT <= v1 <= 2 * COORD_LIMIT,
            0 <= k <= 1_000_000,
    ;
}

/// Clamps a horizontal position so a body of half-width `half` stays
/// inside a level `width` wide.
pub open spec fn clamp_x(x: int, half: int, width: int) -> int {
    let lo = if x > half {
        x
    } else {
        half
    };
    if lo < width - half {
        lo
    } else {
        width - half
    }
}

pub(crate) fn clamp_x_exec(x: i64, half: i64, width: i64) -> (r: i64)
    requires
        -3 * COORD_LIMIT <= x <= 3 * COORD_LIMIT,
        0 <= half <= COORD_LIMIT,
        0 <= width <= MAX_TILES * TILE_SIZE,
    ensures
        r == clamp_x(x as int, half as int, width as int),
        -COORD_LIMIT <= r <= COORD_LIMIT,
{
    let lo = if x > half {
        x
    } else {
        half
    };
    if lo < width - half {
        lo
    } else {
        width - half
    }
}

} // verus!
