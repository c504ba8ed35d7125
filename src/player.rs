//! The on-foot player: jumping, the double-jump spin, movement and firing.
use vstd::prelude::*;
use crate::geometry::{Rect, Vec2, COORD_LIMIT};
use crate::level::{Level, TILE_SIZE};
use crate::movement::{clamp_x, clamp_x_exec, move_body, move_ok, resolved, MoveOutcome};
use crate::physics::{RigidBody, MAX_STEP_MS};
use crate::weapons::{player_loadout, WeaponInventory};

verus! {

/// Gravity force on the player's body.
pub const PLAYER_GRAVITY: i64 = 800_000;

/// Energy a double jump costs.
pub const DOUBLE_JUMP_ENERGY: i64 = 20_000;

/// Energy regained per second while grounded.
pub const ENERGY_REGEN: i64 = 30;

/// One full turn, in thousandths of a degree.
pub const FULL_TURN: i64 = 360_000;

/// How far below the body the ground probe looks.
pub const PROBE_DEPTH: i64 = 2000;

/// The player's body and resources, in thousandths.
#[derive(Clone, Copy, Debug)]
pub struct Player {
    pub size: Vec2,
    pub health: i64,
    pub max_health: i64,
    pub energy: i64,
    pub max_energy: i64,
}

impl Player {
    pub open spec fn wf(self) -> bool {
        &&& 0 <= self.size.x <= COORD_LIMIT
        &&& 0 <= self.size.y <= COORD_LIMIT
        &&& 0 <= self.energy <= self.max_energy <= COORD_LIMIT
    }

    pub fn new() -> (p: Player)
        ensures
            p == (Player {
                size: Vec2 { x: 24_000, y: 40_000 },
                health: 100_000,
                max_health: 100_000,
                energy: 100_000,
                max_energy: 100_000,
            }),
            p.wf(),
    {
        Player {
            size: Vec2::new(24_000, 40_000),
            health: 100_000,
            max_health: 100_000,
            energy: 100_000,
            max_energy: 100_000,
        }
    }
}

/// Movement parameters and state of the player. Speeds per second in
/// thousandths of a unit, rotations in thousandths of a degree, the shot
/// timer in milliseconds.
#[derive(Clone, Debug)]
pub struct PlayerController {
    pub speed: i64,
    pub jump_force: i64,
    pub double_jump_force: i64,
    pub is_grounded: bool,
    pub jump_count: u32,
    pub max_jumps: u32,
    pub is_spinning: bool,
    pub spin_rotation: i64,
    pub spin_speed: i64,
    pub shoot_timer: i64,
    pub weapon_inventory: WeaponInventory,
}

/// The player's input for one tick.
#[derive(Clone, Copy, Debug)]
pub struct PlayerInput {
    /// -1 for left, 1 for right, 0 for neither or both.
    pub move_x: i64,
    pub jump: bool,
}

impl PlayerController {
    pub open spec fn wf(self) -> bool {
        &&& 0 <= self.speed <= COORD_LIMIT
        &&& 0 <= self.jump_force <= COORD_LIMIT
        &&& 0 <= self.double_jump_force <= COORD_LIMIT
        &&& 0 <= self.spin_rotation < FULL_TURN
        &&& 0 <= self.spin_speed <= 10 * FULL_TURN
        &&& -MAX_STEP_MS <= self.shoot_timer <= 1_000_000
        &&& self.weapon_inventory.wf()
    }

    pub fn new() -> (c: PlayerController)
        ensures
            c.wf(),
            c.speed == 400_000,
            c.jump_force == 600_000,
            c.double_jump_force == 500_000,
            !c.is_grounded,
            c.jump_count == 0,
            c.max_jumps == 2,
            !c.is_spinning,
            c.spin_rotation == 0,
            c.spin_speed == 720_000,
            c.shoot_timer == 0,
            c.weapon_inventory.current_weapon_index == 0,
            c.weapon_inventory.weapons@ == player_loadout(),
    {
        PlayerController {
            speed: 400_000,
            jump_force: 600_000,
            double_jump_force: 500_000,
            is_grounded: false,
            jump_count: 0,
            max_jumps: 2,
            is_spinning: false,
            spin_rotation: 0,
            spin_speed: 720_000,
            shoot_timer: 0,
            weapon_inventory: WeaponInventory::new(),
        }
    }

    pub fn can_shoot(&self) -> (r: bool)
        ensures
            r == (self.shoot_timer <= 0),
    {
        self.shoot_timer <= 0
    }

    /// The shot timer restarts at the cooldown of the weapon in hand.
    pub fn reset_shoot_timer(&mut self)
        requires
            old(self).wf(),
        ensures
            final(self).wf(),
            final(self).shoot_timer == 1_000_000int / (old(
                self,
            ).weapon_inventory.weapons@[old(self).weapon_inventory.current_weapon_index as int].fire_rate as int),
            final(self).weapon_inventory == old(self).weapon_inventory,
    {
        let c = self.weapon_inventory.current_weapon().get_cooldown();
        self.shoot_timer = c;
    }

    /// Counts the shot timer down while it is positive.
    pub fn update_timer(&mut self, delta_time: i64)
        requires
            old(self).wf(),
            0 <= delta_time <= MAX_STEP_MS,
        ensures
            final(self).wf(),
            final(self).shoot_timer == if old(self).shoot_timer > 0 {
                old(self).shoot_timer - delta_time
            } else {
                old(self).shoot_timer as int
            },
            final(self).weapon_inventory == old(self).weapon_inventory,
    {
        if self.shoot_timer > 0 {
            self.shoot_timer = self.shoot_timer - delta_time;
        }
    }

    /// A pull of the trigger. Nothing happens while the shot timer runs.
    /// Otherwise one round is taken from the weapon in hand; with none left
    /// nothing is fired. Without an aim direction the round is spent but
    /// nothing is fired. Else the timer restarts and the weapon's projectile
    /// count is returned: that many projectiles are to be spawned.
    pub fn trigger(&mut self, has_aim: bool) -> (shots: u32)
        requires
            old(self).wf(),
        ensures
            final(self).wf(),
            ({
                let inv = old(self).weapon_inventory;
                let w = inv.weapons@[inv.current_weapon_index as int];
                let has_round = match w.ammo {
                    Some(n) => n > 0,
                    None => true,
                };
                &&& old(self).shoot_timer > 0 ==> shots == 0 && final(self).shoot_timer == old(
                    self,
                ).shoot_timer && final(self).weapon_inventory == inv
                &&& old(self).shoot_timer <= 0 ==> {
                    &&& final(self).weapon_inventory.current_weapon_index == inv.current_weapon_index
                    &&& has_round && has_aim ==> shots == w.projectile_count
                        && final(self).shoot_timer == 1_000_000int / (w.fire_rate as int)
                    &&& !(has_round && has_aim) ==> shots == 0 && final(self).shoot_timer == old(
                        self,
                    ).shoot_timer
                    &&& has_round ==> final(self).weapon_inventory.weapons@[inv.current_weapon_index as int].ammo
                        == match w.ammo {
                        Some(n) => Some((n - 1) as u32),
                        None => None,
                    }
                    &&& !has_round ==> final(self).weapon_inventory.weapons@ == inv.weapons@
                }
            }),
    {
        if !self.can_shoot() {
            return 0;
        }
        let fired = self.weapon_inventory.consume_current_ammo();
        if !fired || !has_aim {
            proof {
                if !fired {
                    assert(self.weapon_inventory.weapons@ =~= old(self).weapon_inventory.weapons@);
                }
            }
            return 0;
        }
        let count = self.weapon_inventory.current_weapon().projectile_count;
        self.reset_shoot_timer();
        count
    }
}

/// The player's state after the jump input: a grounded jump, or a double
/// jump in the air that costs energy and starts a spin.
pub open spec fn after_jump(p: Player, c: PlayerController, vy: int, jump: bool) -> (Player, PlayerController, int) {
    if jump && c.is_grounded {
        (p, PlayerController { is_grounded: false, jump_count: 1, ..c }, -c.jump_force)
    } else if jump && c.jump_count < c.max_jumps && p.energy >= DOUBLE_JUMP_ENERGY {
        (
            Player {
                energy: if p.energy - DOUBLE_JUMP_ENERGY > 0 {
                    (p.energy - DOUBLE_JUMP_ENERGY) as i64
                } else {
                    0
                },
                ..p
            },
            PlayerController {
                jump_count: (c.jump_count + 1) as u32,
                is_spinning: true,
                spin_rotation: 0,
                ..c
            },
            -c.double_jump_force,
        )
    } else {
        (p, c, vy)
    }
}

/// The spin advanced by `dt`; a full turn ends it.
pub open spec fn after_spin(c: PlayerController, dt: int) -> PlayerController {
    if c.is_spinning {
        let r = c.spin_rotation + c.spin_speed * dt / 1000;
        if r >= FULL_TURN {
            PlayerController { is_spinning: false, spin_rotation: 0, ..c }
        } else {
            PlayerController { spin_rotation: r as i64, ..c }
        }
    } else {
        c
    }
}

/// Landing: grounded, jumps restored, spin ended.
pub open spec fn landed(c: PlayerController) -> PlayerController {
    PlayerController { is_grounded: true, jump_count: 0, is_spinning: false, spin_rotation: 0, ..c }
}

/// Body rotation shown for a controller state, in thousandths of a degree.
pub open spec fn shown_rotation(c: PlayerController) -> int {
    if c.is_spinning {
        c.spin_rotation as int
    } else {
        0
    }
}

/// One tick of on-foot movement: the jump input is handled, horizontal
/// velocity follows the input at the player's speed, the spin advances,
/// the body moves through the grid under gravity (a blocked fall lands the
/// player; a free vertical step leaves the ground), the position is clamped
/// to the level's width, and a probe just below the body re-grounds a
/// player that is not rising, restoring energy.
/// `rotation` receives the body's displayed rotation.
pub fn player_movement_step(
    level: &Level,
    player: &mut Player,
    controller: &mut PlayerController,
    pos: &mut Vec2,
    body: &mut RigidBody,
    rotation: &mut i64,
    input: PlayerInput,
    delta_time: i64,
) -> (r: MoveOutcome)
    requires
        level.wf(),
        old(player).wf(),
        old(controller).wf(),
        -1 <= input.move_x <= 1,
        move_ok(*old(body), *old(pos), old(player).size, PLAYER_GRAVITY as int),
        0 <= delta_time <= MAX_STEP_MS,
    ensures
        final(player).wf(),
        final(controller).wf(),
        ({
            let (pj, cj, vy) = after_jump(*old(player), *old(controller), old(body).velocity.y as int, input.jump);
            let bj = RigidBody {
                velocity: Vec2 { x: (input.move_x * old(controller).speed) as i64, y: vy as i64 },
                ..*old(body)
            };
            let cs = after_spin(cj, delta_time as int);
            let (np, nv, out) = resolved(*level, *old(pos), bj, pj.size, PLAYER_GRAVITY as int, delta_time as int);
            let cl = if !out.blocked_y {
                PlayerController { is_grounded: false, ..cs }
            } else if out.landed {
                landed(cs)
            } else {
                cs
            };
            let x = clamp_x(np.x as int, pj.size.x / 2, level.width * TILE_SIZE);
            let probe = Rect::centered_spec(Vec2 { x: x as i64, y: (np.y + PROBE_DEPTH) as i64 }, pj.size);
            let on_ground = level.collides(probe) && nv.y >= 0;
            let regen = pj.energy + ENERGY_REGEN * delta_time;
            &&& r == out
            &&& *final(pos) == Vec2 { x: x as i64, y: np.y }
            &&& final(body).velocity == nv
            &&& *final(controller) == if on_ground {
                landed(cl)
            } else {
                cl
            }
            &&& *final(player) == if on_ground && pj.energy < pj.max_energy {
                Player {
                    energy: if regen < pj.max_energy {
                        regen as i64
                    } else {
                        pj.max_energy
                    },
                    ..pj
                }
            } else {
                pj
            }
            &&& *final(rotation) == shown_rotation(*final(controller))
        }),
{
    if input.jump {
        if controller.is_grounded {
            body.velocity.y = -controller.jump_force;
            controller.is_grounded = false;
            controller.jump_count = 1;
        } else if controller.jump_count < controller.max_jumps && player.energy >= DOUBLE_JUMP_ENERGY {
            body.velocity.y = -controller.double_jump_force;
            controller.jump_count = controller.jump_count + 1;
            controller.is_spinning = true;
            controller.spin_rotation = 0;
            let e = player.energy - DOUBLE_JUMP_ENERGY;
            player.energy = if e > 0 {
                e
            } else {
                0
            };
        }
    }
    assert(-controller.speed <= input.move_x * controller.speed <= controller.speed) by (nonlinear_arith)
        requires
            -1 <= input.move_x <= 1,
            0 <= controller.speed,
    ;
    body.velocity.x = input.move_x * controller.speed;
    if controller.is_spinning {
        assert(0 <= controller.spin_speed * delta_time <= 10 * FULL_TURN * MAX_STEP_MS) by (nonlinear_arith)
            requires
                0 <= controller.spin_speed <= 10 * FULL_TURN,
                0 <= delta_time <= MAX_STEP_MS,
        ;
        let r = controller.spin_rotation + controller.spin_speed * delta_time / 1000;
        if r >= FULL_TURN {
            controller.is_spinning = false;
            controller.spin_rotation = 0;
        } else {
            controller.spin_rotation = r;
        }
    }
    let out = move_body(level, pos, body, player.size, PLAYER_GRAVITY, delta_time);
    if !out.blocked_y {
        controller.is_grounded = false;
    } else if out.landed {
        controller.is_grounded = true;
        controller.jump_count = 0;
        controller.is_spinning = false;
        controller.spin_rotation = 0;
    }
    pos.x = clamp_x_exec(pos.x, player.size.x / 2, level.width as i64 * TILE_SIZE);
    let probe = Rect::new(
        pos.x - player.size.x / 2,
        pos.y + PROBE_DEPTH - player.size.y / 2,
        player.size.x,
        player.size.y,
    );
    if level.check_collision(probe) && body.velocity.y >= 0 {
        controller.is_grounded = true;
        controller.jump_count = 0;
        controller.is_spinning = false;
        controller.spin_rotation = 0;
        if player.energy < player.max_energy {
            let e = player.energy + ENERGY_REGEN * delta_time;
            player.energy = if e < player.max_energy {
                e
            } else {
                player.max_energy
            };
        }
    }
    *rotation = if controller.is_spinning {
        controller.spin_rotation
    } else {
        0
    };
    out
}

} // verus!
