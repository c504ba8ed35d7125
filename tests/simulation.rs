use legends_of_legend::enemy::{
    enemy_ai_step, select_state, solve_launch, Enemy, EnemyController, EnemyShot, EnemyState,
    EnemyType,
};
use legends_of_legend::geometry::{isqrt, Color, Rect, Vec2};
use legends_of_legend::layers::RenderLayer;
use legends_of_legend::level::{Level, Tile, TileType, TILE_SIZE};
use legends_of_legend::mech::{
    mech_movement_step, Mech, MechController, MechInput, MechWeapon, MechWeaponInventory,
};
use legends_of_legend::movement::move_body;
use legends_of_legend::physics::{Collider, RigidBody};
use legends_of_legend::player::{player_movement_step, Player, PlayerController, PlayerInput};
use legends_of_legend::projectile::{
    advance_projectile, apply_damage, damage_events, dead_entities, opposing, sweep_targets, Hitbox,
    Projectile, ProjectileOwner,
};
use legends_of_legend::spawner::EnemySpawner;
use legends_of_legend::states::{GameState, PlayState};
use legends_of_legend::timer::Timer;
use legends_of_legend::transform::Transform;
use legends_of_legend::transformation::{
    enter_mech, exit_mech, find_nearest_mech, spawn_mech, Pilot,
};
use legends_of_legend::weapons::{Weapon, WeaponInventory, WeaponType};

/// A level of `w` by `h` tiles whose bottom row is ground.
fn floor_level(w: usize, h: usize) -> Level {
    let mut level = Level::new(w, h);
    for x in 0..w {
        level.tiles[h - 1][x] = Tile::new(TileType::Ground);
    }
    level
}

#[test]
fn drag_scales_velocity_without_force() {
    let mut body = RigidBody::new(1);
    body.velocity = Vec2::new(1_000_000, -500_000);
    body.update(16);
    assert_eq!(body.velocity.x, 998_400);
    assert_eq!(body.velocity.y, -499_200);
    assert_eq!(body.acceleration, Vec2::zero());
}

#[test]
fn force_accumulates_over_mass_and_clears() {
    let mut body = RigidBody::new(10);
    body.drag = 0;
    body.apply_force(Vec2::new(0, 8_000_000));
    assert_eq!(body.acceleration.y, 800_000);
    body.update(1000);
    assert_eq!(body.velocity.y, 800_000);
    assert_eq!(body.acceleration.y, 0);
}

#[test]
fn rect_intersection_is_symmetric() {
    let a = Rect::new(0, 0, 10_000, 10_000);
    let b = Rect::new(5_000, 5_000, 10_000, 10_000);
    let c = Rect::new(10_000, 0, 10_000, 10_000);
    assert!(a.intersects(&b) && b.intersects(&a));
    assert!(!a.intersects(&c) && !c.intersects(&a));
}

#[test]
fn rect_outside_grid_never_collides() {
    let level = floor_level(10, 10);
    assert!(!level.check_collision(Rect::new(-100_000, 9 * TILE_SIZE, 50_000, 50_000)));
    assert!(!level.check_collision(Rect::new(10 * TILE_SIZE, 9 * TILE_SIZE, 50_000, 50_000)));
    assert!(level.check_collision(Rect::new(0, 9 * TILE_SIZE, 1000, 1000)));
}

#[test]
fn out_of_bounds_tiles_are_open() {
    let level = floor_level(4, 4);
    assert!(level.is_solid(0, 3));
    assert!(!level.is_solid(0, 2));
    assert!(!level.is_solid(-1, 3));
    assert!(!level.is_solid(4, 3));
    assert!(level.get_tile(4, 0).is_none());
}

#[test]
fn tiles_know_their_solidity() {
    assert!(!Tile::new(TileType::Empty).solid);
    let wall = Tile::new(TileType::Wall);
    assert!(wall.solid);
    assert_eq!(wall.color, Color::new(100, 100, 100, 255));
}

#[test]
fn falling_body_lands_on_ground() {
    let level = floor_level(10, 10);
    let mut body = RigidBody::new(1);
    body.velocity = Vec2::new(0, 600_000);
    let mut pos = Vec2::new(160_000, 9 * TILE_SIZE - 20_500);
    let out = move_body(&level, &mut pos, &mut body, Vec2::new(24_000, 40_000), 800_000, 16);
    assert!(out.blocked_y);
    assert!(out.landed);
    assert_eq!(body.velocity.y, 0);
    assert_eq!(pos.y, 9 * TILE_SIZE - 20_500);
}

#[test]
fn blocked_axis_keeps_sliding_on_the_other() {
    let mut level = floor_level(10, 10);
    level.tiles[8][6] = Tile::new(TileType::Wall);
    let mut body = RigidBody::new(1);
    body.drag = 0;
    body.velocity = Vec2::new(1_000_000, 0);
    let mut pos = Vec2::new(6 * TILE_SIZE - 12_500, 8 * TILE_SIZE + 12_000);
    let out = move_body(&level, &mut pos, &mut body, Vec2::new(24_000, 16_000), 0, 10);
    assert!(out.blocked_x);
    assert_eq!(body.velocity.x, 0);
    assert_eq!(pos.x, 6 * TILE_SIZE - 12_500);
}

#[test]
fn circle_and_box_colliders() {
    let a = Collider::Circle { radius: 5_000 };
    let b = Collider::Circle { radius: 5_000 };
    assert!(a.check_collision(Vec2::new(0, 0), &b, Vec2::new(9_000, 0)));
    assert!(!a.check_collision(Vec2::new(0, 0), &b, Vec2::new(10_000, 0)));
    let bx = Collider::Box { size: Vec2::new(10_000, 10_000) };
    assert!(bx.check_collision(Vec2::new(0, 0), &a, Vec2::new(9_000, 0)));
    assert!(!a.check_collision(Vec2::new(11_000, 0), &bx, Vec2::new(0, 0)));
}

#[test]
fn projectile_expires_exactly_at_max_lifetime() {
    let mut p = Projectile::new(10_000, ProjectileOwner::Enemy);
    for _ in 0..4 {
        assert!(!p.tick_lifetime(1000));
    }
    assert!(p.tick_lifetime(1000));
    assert_eq!(p.lifetime, 5000);

    let mut q = Projectile::new(10_000, ProjectileOwner::Enemy);
    let mut ticks = 0;
    while !q.tick_lifetime(16) {
        ticks += 1;
    }
    assert_eq!(ticks, 312);
    assert_eq!(q.lifetime, 5008);
}

#[test]
fn expired_projectile_hits_nothing() {
    let level = Level::new(10, 10);
    let mut p = Projectile::new(10_000, ProjectileOwner::Player);
    p.lifetime = 4990;
    let mut pos = Vec2::new(100_000, 100_000);
    let mut body = RigidBody::new(1);
    let targets = vec![Hitbox { position: pos, size: Vec2::new(50_000, 50_000) }];
    let step = advance_projectile(&mut p, &mut pos, &mut body, &level, &targets, 16);
    assert!(step.expired);
    assert!(step.hits.is_empty());
}

#[test]
fn enemy_state_bands() {
    assert_eq!(select_state(700_000, 300_000, 600_000), EnemyState::Idle);
    assert_eq!(select_state(450_000, 300_000, 600_000), EnemyState::Pursuing);
    assert_eq!(select_state(200_000, 300_000, 600_000), EnemyState::Retreating);
    assert_eq!(select_state(300_000, 300_000, 600_000), EnemyState::Strafing);
    assert_eq!(select_state(350_000, 300_000, 600_000), EnemyState::Strafing);
    assert_eq!(select_state(250_000, 300_000, 600_000), EnemyState::Strafing);
}

#[test]
fn enemy_steers_toward_far_player() {
    let mut c = EnemyController::new();
    c.steer(
        Vec2::new(1_000_000, 0),
        Vec2::new(0, 0),
        300_000,
        600_000,
        None,
        600_000,
        16,
        3000,
    );
    assert_eq!(c.state, EnemyState::Idle);
    assert_eq!(c.facing_direction, Vec2::new(1000, 0));
    assert_eq!(c.movement_direction, Vec2::new(1000, 0));
    assert_eq!(c.target_position, Some(Vec2::new(1_000_000, 0)));
}

#[test]
fn enemy_retreats_and_strafes() {
    let mut c = EnemyController::new();
    c.steer(Vec2::new(100_000, 0), Vec2::new(0, 0), 300_000, 600_000, None, 600_000, 16, 3000);
    assert_eq!(c.state, EnemyState::Retreating);
    assert_eq!(c.movement_direction, Vec2::new(-1000, 0));
    c.steer(Vec2::new(300_000, 0), Vec2::new(0, 0), 300_000, 600_000, None, 600_000, 16, 3000);
    assert_eq!(c.state, EnemyState::Strafing);
    assert_eq!(c.strafe_direction, -1);
    assert_eq!(c.strafe_timer, 3000);
    assert_eq!(c.movement_direction, Vec2::new(0, -500));
}

#[test]
fn aim_leads_a_fast_player() {
    let mut c = EnemyController::new();
    c.steer(
        Vec2::new(600_000, 0),
        Vec2::new(0, 0),
        300_000,
        600_000,
        Some(Vec2::new(0, 200_000)),
        600_000,
        16,
        3000,
    );
    assert_eq!(c.target_position, Some(Vec2::new(600_000, 100_000)));
}

#[test]
fn ballistic_solver_range_boundary() {
    let near = solve_launch(Vec2::new(149_999, 0), 600_000);
    assert_eq!(near, Vec2::new(600_000, -50_000));
    let far = solve_launch(Vec2::new(150_000, 0), 600_000);
    assert_eq!(far, Vec2::new(290_473, -290_473));
    let left = solve_launch(Vec2::new(-150_000, 0), 600_000);
    assert_eq!(left, Vec2::new(-290_473, -290_473));
}

#[test]
fn enemy_timers_and_health_bar() {
    let mut e = Enemy::new();
    assert_eq!(e.enemy_type, EnemyType::Ranger);
    assert!(e.can_shoot());
    e.reset_shoot_timer();
    assert_eq!(e.shoot_timer, 2000);
    e.update_timer(500);
    assert_eq!(e.shoot_timer, 1500);
    e.show_health_bar();
    assert!(e.should_show_health_bar());
    e.update_health_bar_timer(1000);
    e.update_health_bar_timer(1000);
    e.update_health_bar_timer(1000);
    assert!(!e.should_show_health_bar());
}

#[test]
fn mech_round_trip_restores_pilot() {
    let mut mechs = Vec::new();
    let m = spawn_mech(&mut mechs, Vec2::new(500_000, 100_000));
    let mut pilots = vec![Pilot {
        position: Vec2::new(480_000, 100_000),
        has_sprite: true,
        has_collider: true,
    }];
    let r = enter_mech(&mut mechs, &mut pilots, 0, m);
    assert!(r.success);
    assert_eq!(r.message, "Entered Titan mech");
    assert!(mechs[m].mech.is_occupied);
    assert_eq!(mechs[m].mech.pilot_entity, Some(0));
    assert!(!pilots[0].has_sprite && !pilots[0].has_collider);
    assert_eq!(mechs[m].tint, Color::new(100, 150, 255, 255));
    let again = enter_mech(&mut mechs, &mut pilots, 0, m);
    assert!(!again.success);
    assert_eq!(again.message, "Mech is already occupied");
    let out = exit_mech(&mut mechs, &mut pilots, m);
    assert!(out.success);
    assert!(!mechs[m].mech.is_occupied);
    assert_eq!(mechs[m].mech.pilot_entity, None);
    assert!(pilots[0].has_sprite && pilots[0].has_collider);
    assert_eq!(pilots[0].position, Vec2::new(560_000, 100_000));
    let none = exit_mech(&mut mechs, &mut pilots, m);
    assert_eq!(none.message, "Mech is not occupied");
    let bad = enter_mech(&mut mechs, &mut pilots, 0, 7);
    assert_eq!(bad.message, "Invalid mech entity");
    let nobody = enter_mech(&mut mechs, &mut pilots, 3, m);
    assert_eq!(nobody.message, "Player has no transform");
}

#[test]
fn nearest_empty_mech_within_range() {
    let mut mechs = Vec::new();
    spawn_mech(&mut mechs, Vec2::new(300_000, 0));
    spawn_mech(&mut mechs, Vec2::new(100_000, 0));
    spawn_mech(&mut mechs, Vec2::new(50_000, 0));
    mechs[2].mech.is_occupied = true;
    mechs[2].mech.pilot_entity = Some(0);
    assert_eq!(find_nearest_mech(&mechs, Vec2::new(0, 0), 200_000), Some(1));
    assert_eq!(find_nearest_mech(&mechs, Vec2::new(0, 0), 100_000), None);
}

#[test]
fn spawner_scaling_over_time() {
    let mut s = EnemySpawner::new(vec![Vec2::new(0, 0), Vec2::new(800_000, 0)]);
    assert_eq!(s.get_spawn_wave_info(), (5000, 10, 1000));
    for _ in 0..90 {
        s.update(50, 1000);
    }
    assert_eq!(s.time_elapsed, 90_000);
    assert_eq!(s.get_spawn_wave_info(), (3500, 16, 1600));
}

#[test]
fn spawner_spawns_scaled_enemy_when_due() {
    let mut s = EnemySpawner::new(vec![Vec2::new(100_000, 50_000)]);
    for _ in 0..4 {
        assert!(s.update(0, 1000).is_none());
    }
    let spawn = s.update(0, 1000).expect("due after five seconds");
    assert_eq!(s.spawn_timer, 0);
    assert_eq!(spawn.enemy.health, 50_000);
    assert!(spawn.position.x >= 50_000 && spawn.position.x < 150_000);
    assert_eq!(spawn.position.y, 50_000);
    assert!(spawn.body_size.x >= 28_800 && spawn.body_size.x < 35_200);
    assert!(spawn.color.r >= 200 && spawn.color.g >= 30 && spawn.color.g < 80);
    assert!(s.update(10, 5000).is_none());
}

#[test]
fn piercing_projectile_hits_three_in_a_row() {
    let rect = Rect::new(0, 0, 400_000, 8000);
    let targets = vec![
        Hitbox { position: Vec2::new(50_000, 4000), size: Vec2::new(32_000, 48_000) },
        Hitbox { position: Vec2::new(150_000, 4000), size: Vec2::new(32_000, 48_000) },
        Hitbox { position: Vec2::new(250_000, 4000), size: Vec2::new(32_000, 48_000) },
    ];
    let (hits, left, spent) = sweep_targets(rect, &targets, 2);
    assert_eq!(hits, vec![0, 1, 2]);
    assert_eq!(left, 0);
    assert!(spent);
    let (hits1, left1, spent1) = sweep_targets(rect, &targets, 3);
    assert_eq!(hits1, vec![0, 1, 2]);
    assert_eq!(left1, 0);
    assert!(!spent1);
    let (hits0, _, spent0) = sweep_targets(rect, &targets, 0);
    assert_eq!(hits0, vec![0]);
    assert!(spent0);
}

#[test]
fn projectile_tick_applies_pierce_and_moves() {
    let level = Level::new(40, 10);
    let mut p = Projectile::from_weapon(&Weapon::laser_rifle(), ProjectileOwner::Player);
    p.pierce_count = 2;
    p.size = Vec2::new(400_000, 8000);
    let mut pos = Vec2::new(200_000, 100_000);
    let mut body = RigidBody::new(1);
    body.drag = 0;
    let targets = vec![
        Hitbox { position: Vec2::new(100_000, 100_000), size: Vec2::new(32_000, 48_000) },
        Hitbox { position: Vec2::new(200_000, 100_000), size: Vec2::new(32_000, 48_000) },
        Hitbox { position: Vec2::new(300_000, 100_000), size: Vec2::new(32_000, 48_000) },
    ];
    let step = advance_projectile(&mut p, &mut pos, &mut body, &level, &targets, 10);
    assert_eq!(step.hits, vec![0, 1, 2]);
    assert!(step.expired);
    assert!(!step.hit_wall);
    assert_eq!(p.pierce_count, 0);
    assert_eq!(p.lifetime, 10);
}

#[test]
fn projectile_hitting_wall_splashes() {
    let mut level = Level::new(10, 10);
    level.tiles[3][4] = Tile::new(TileType::Wall);
    let mut p = Projectile::from_weapon(&Weapon::rocket_launcher(), ProjectileOwner::Player);
    assert!(p.has_trail);
    let mut pos = Vec2::new(4 * TILE_SIZE - 10_000, 3 * TILE_SIZE + 16_000);
    let mut body = RigidBody::new(1);
    body.velocity = Vec2::new(800_000, 0);
    let start = pos;
    let step = advance_projectile(&mut p, &mut pos, &mut body, &level, &vec![], 16);
    assert!(step.hit_wall && step.splash && step.expired);
    assert_eq!(pos, start);
}

#[test]
fn damage_is_applied_after_the_sweep() {
    let mut healths = vec![50_000, 20_000, 5_000];
    let events = vec![(0, 30_000), (1, 20_000), (0, 30_000), (2, 1_000), (9, 100)];
    apply_damage(&mut healths, &events);
    assert_eq!(healths, vec![0, 0, 4_000]);
    assert_eq!(dead_entities(&healths), vec![0, 1]);
}

#[test]
fn weapon_ammo_and_reload() {
    let mut shotgun = Weapon::shotgun();
    assert_eq!(shotgun.get_cooldown(), 666);
    shotgun.ammo = Some(1);
    assert!(shotgun.consume_ammo());
    assert!(!shotgun.consume_ammo());
    assert_eq!(shotgun.ammo, Some(0));
    shotgun.reload();
    assert_eq!(shotgun.ammo, Some(50));
    let mut pistol = Weapon::pistol();
    assert!(pistol.consume_ammo());
    assert_eq!(pistol.ammo, None);
    assert_eq!(pistol.get_cooldown(), 250);
}

#[test]
fn spread_offsets_stay_within_spread() {
    let shotgun = Weapon::shotgun();
    let offsets = shotgun.sample_spread();
    assert_eq!(offsets.len(), 8);
    assert!(offsets.iter().all(|a| *a >= -300 && *a < 300));
    assert!(offsets.iter().any(|a| *a != -300));
}

#[test]
fn inventory_cycles_weapons() {
    let mut inv = WeaponInventory::new();
    assert_eq!(inv.current_weapon().weapon_type, WeaponType::Pistol);
    inv.previous_weapon();
    assert_eq!(inv.current_weapon().weapon_type, WeaponType::PlasmaGun);
    inv.next_weapon();
    assert_eq!(inv.current_weapon_index, 0);
    inv.switch_weapon(3);
    assert_eq!(inv.current_weapon().weapon_type, WeaponType::LaserRifle);
    inv.switch_weapon(9);
    assert_eq!(inv.current_weapon_index, 3);
    assert!(inv.consume_current_ammo());
    assert_eq!(inv.current_weapon().ammo, Some(199));
    inv.reload_current();
    assert_eq!(inv.current_weapon().ammo, Some(200));
}

#[test]
fn mech_energy_and_damage() {
    let mut m = Mech::new();
    assert!(m.use_energy(150_000));
    assert!(!m.use_energy(60_000));
    assert_eq!(m.energy, 50_000);
    m.regenerate_energy(30_000, 1000);
    assert_eq!(m.energy, 80_000);
    m.take_damage(600_000);
    assert!(m.is_destroyed());
    let mut c = MechController::new();
    c.do_stomp();
    assert!(!c.can_stomp());
    c.update(2500);
    assert!(c.can_stomp());
    let w = MechWeapon::railgun();
    assert_eq!(w.cooldown_time(), 3030);
    let p = MechWeapon::missile_launcher().to_projectile();
    assert_eq!(p.explosion_radius, 100_000);
    assert_eq!(p.max_lifetime, 3000);
    let mut inv = MechWeaponInventory::new();
    inv.fire_primary();
    assert!(!inv.can_fire_primary());
    inv.update(500);
    assert!(inv.can_fire_primary());
}

#[test]
fn atmosphere_tint_by_layer() {
    let base = Color::new(100, 100, 100, 255);
    assert_eq!(
        RenderLayer::FarBackground.get_atmosphere_tint(base),
        Color::new(120, 130, 150, 204)
    );
    assert_eq!(
        RenderLayer::MidBackground.get_atmosphere_tint(Color::new(255, 255, 255, 255)),
        Color::new(236, 241, 255, 229)
    );
    assert_eq!(RenderLayer::Gameplay.get_atmosphere_tint(base), base);
}

#[test]
fn timer_counts_frames() {
    let mut t = Timer::new();
    t.tick_at(16);
    t.tick_at(40);
    t.tick_at(30);
    assert_eq!(t.delta_millis(), 0);
    assert_eq!(t.elapsed_millis(), 40);
    assert_eq!(t.frame_count, 3);
    t.tick();
    assert_eq!(t.frame_count, 4);
}

#[test]
fn integer_square_root() {
    assert_eq!(isqrt(0), 0);
    assert_eq!(isqrt(15), 3);
    assert_eq!(isqrt(16), 4);
    assert_eq!(isqrt(u64::MAX), 4_294_967_295);
}

#[test]
fn play_starts_on_foot() {
    assert_eq!(GameState::default(), GameState::Playing(PlayState::OnFoot));
}

#[test]
fn level_map_builds_tiles_and_spawn() {
    let rows: Vec<Vec<u8>> = vec![b"..S.".to_vec(), b"#=|D".to_vec(), b"##".to_vec()];
    let level = Level::from_rows(&rows);
    assert_eq!(level.width, 4);
    assert_eq!(level.height, 3);
    assert_eq!(level.spawn_point, Vec2::new(2 * TILE_SIZE, 0));
    assert_eq!(level.tiles[1][1].tile_type, TileType::Platform);
    assert_eq!(level.tiles[1][2].tile_type, TileType::Wall);
    assert_eq!(level.tiles[1][3].tile_type, TileType::Destructible);
    assert_eq!(level.tiles[2][3].tile_type, TileType::Empty);
    assert_eq!(level.tiles[0][2].tile_type, TileType::Empty);
    let plain = Level::from_rows(&vec![b"#".to_vec()]);
    assert_eq!(plain.spawn_point, Vec2::new(100_000, 100_000));
}

#[test]
fn tile_lookup_by_world_position() {
    let level = floor_level(4, 4);
    let t = level.get_tile_at_position(Vec2::new(40_000, 3 * TILE_SIZE + 1)).unwrap();
    assert_eq!(t.tile_type, TileType::Ground);
    assert!(level.get_tile_at_position(Vec2::new(-1, 0)).is_none());
    assert!(level.get_tile_at_position(Vec2::new(4 * TILE_SIZE, 0)).is_none());
}

#[test]
fn spawner_without_points_never_spawns() {
    let mut s = EnemySpawner::new(vec![]);
    for _ in 0..20 {
        assert!(s.update(0, 1000).is_none());
    }
    assert_eq!(s.spawn_timer, 20_000);
}

#[test]
fn spawner_caps_difficulty() {
    let mut s = EnemySpawner::new(vec![Vec2::new(0, 0)]);
    for _ in 0..400 {
        s.update(100, 1000);
    }
    assert_eq!(s.get_spawn_wave_info(), (1500, 20, 3600));
}

#[test]
fn player_jumps_then_double_jumps() {
    let level = floor_level(20, 10);
    let mut player = Player::new();
    let mut c = PlayerController::new();
    let mut body = RigidBody::new(1);
    let mut pos = Vec2::new(160_000, 9 * TILE_SIZE - 20_000);
    let mut rotation = 0;
    let idle = PlayerInput { move_x: 0, jump: false };
    player_movement_step(&level, &mut player, &mut c, &mut pos, &mut body, &mut rotation, idle, 16);
    assert!(c.is_grounded);
    let jump = PlayerInput { move_x: 1, jump: true };
    player_movement_step(&level, &mut player, &mut c, &mut pos, &mut body, &mut rotation, jump, 16);
    assert!(!c.is_grounded);
    assert_eq!(c.jump_count, 1);
    assert!(body.velocity.y < 0);
    assert!(pos.x > 160_000);
    player_movement_step(&level, &mut player, &mut c, &mut pos, &mut body, &mut rotation, jump, 16);
    assert_eq!(c.jump_count, 2);
    assert!(c.is_spinning);
    assert_eq!(player.energy, 80_000);
    assert_eq!(rotation, c.spin_rotation);
    player_movement_step(&level, &mut player, &mut c, &mut pos, &mut body, &mut rotation, jump, 16);
    assert_eq!(c.jump_count, 2);
    assert_eq!(player.energy, 80_000);
}

#[test]
fn player_trigger_respects_timer_and_ammo() {
    let mut c = PlayerController::new();
    assert_eq!(c.trigger(true), 1);
    assert_eq!(c.shoot_timer, 250);
    assert_eq!(c.trigger(true), 0);
    c.update_timer(250);
    c.weapon_inventory.switch_weapon(1);
    assert_eq!(c.trigger(true), 8);
    assert_eq!(c.weapon_inventory.current_weapon().ammo, Some(49));
    c.shoot_timer = 0;
    assert_eq!(c.trigger(false), 0);
    assert_eq!(c.weapon_inventory.current_weapon().ammo, Some(48));
    assert_eq!(c.shoot_timer, 0);
}

#[test]
fn enemy_fires_when_in_band_and_ready() {
    let mut e = Enemy::new();
    let mut c = EnemyController::new();
    let mut body = RigidBody::new(1);
    let shot = enemy_ai_step(
        &mut e,
        &mut c,
        &mut body,
        Vec2::new(0, 0),
        Vec2::new(450_000, 0),
        Vec2::zero(),
        16,
        3000,
    )
    .expect("pursuing enemy with a ready timer fires");
    assert_eq!(c.state, EnemyState::Shooting);
    assert_eq!(e.shoot_timer, 2000);
    assert_eq!(body.velocity.x, 150_000);
    assert_eq!(shot.position, Vec2::new(26_000, 0));
    assert_eq!(shot.damage, 10_000);
    assert!(shot.direction.x > 0 && shot.direction.y < 0);
    let again = enemy_ai_step(
        &mut e,
        &mut c,
        &mut body,
        Vec2::new(0, 0),
        Vec2::new(450_000, 0),
        Vec2::zero(),
        16,
        3000,
    );
    assert!(again.is_none());
    assert_eq!(c.state, EnemyState::Pursuing);
    let far = enemy_ai_step(
        &mut Enemy::new(),
        &mut EnemyController::new(),
        &mut body,
        Vec2::new(0, 0),
        Vec2::new(900_000, 0),
        Vec2::zero(),
        16,
        3000,
    );
    assert!(far.is_none());
}

#[test]
fn empty_mech_does_not_move_and_occupied_one_boosts() {
    let level = floor_level(40, 10);
    let mut m = Mech::new();
    let mut c = MechController::new();
    let mut body = RigidBody::new(10);
    let mut pos = Vec2::new(600_000, 9 * TILE_SIZE - 60_000);
    let input = MechInput { move_x: 1, boost: true, jump: false, stomp: false };
    assert!(mech_movement_step(&level, &mut m, &mut c, &mut pos, &mut body, input, 16).is_none());
    assert_eq!(pos, Vec2::new(600_000, 9 * TILE_SIZE - 60_000));
    m.is_occupied = true;
    m.pilot_entity = Some(0);
    let out = mech_movement_step(&level, &mut m, &mut c, &mut pos, &mut body, input, 16);
    assert!(out.is_some());
    assert!(c.is_boosting);
    assert_eq!(m.energy, 200_000 - 320);
    assert!(pos.x > 600_000);
    let mut left = Vec2::new(10_000, 9 * TILE_SIZE - 60_000);
    let back = MechInput { move_x: -1, boost: false, jump: false, stomp: false };
    mech_movement_step(&level, &mut m, &mut c, &mut left, &mut body, back, 16);
    assert_eq!(left.x, 40_000);
}

#[test]
fn transform_moves_and_turns() {
    let mut t = Transform::new(Vec2::new(1000, 2000)).with_scale(Vec2::new(2000, 2000));
    t.translate(Vec2::new(500, -500));
    t.rotate(1571);
    assert_eq!(t.position, Vec2::new(1500, 1500));
    assert_eq!(t.rotation, 1571);
    assert_eq!(t.scale, Vec2::new(2000, 2000));
    assert_eq!(Transform::default().scale, Vec2::new(1000, 1000));
}

#[test]
fn shots_strike_the_other_faction() {
    let player = vec![Hitbox { position: Vec2::new(0, 0), size: Vec2::new(24_000, 40_000) }];
    let enemies = vec![
        Hitbox { position: Vec2::new(100_000, 0), size: Vec2::new(32_000, 48_000) },
        Hitbox { position: Vec2::new(200_000, 0), size: Vec2::new(32_000, 48_000) },
    ];
    assert_eq!(opposing(ProjectileOwner::Player, &player, &enemies).len(), 2);
    assert_eq!(opposing(ProjectileOwner::Enemy, &player, &enemies).len(), 1);
    assert_eq!(damage_events(&vec![1, 0], 15_000), vec![(1, 15_000), (0, 15_000)]);
}

#[test]
fn enemy_shot_velocity_scales_direction() {
    let shot = EnemyShot {
        position: Vec2::zero(),
        direction: Vec2::new(600, -800),
        speed: 500_000,
        damage: 10_000,
    };
    assert_eq!(shot.launch_velocity(), Vec2::new(300_000, -400_000));
}

#[test]
fn enemy_shot_aims_at_the_led_target() {
    let mut e = Enemy::new();
    let mut c = EnemyController::new();
    let mut body = RigidBody::new(1);
    let shot = enemy_ai_step(
        &mut e,
        &mut c,
        &mut body,
        Vec2::new(0, 0),
        Vec2::new(120_000, 0),
        Vec2::new(0, 1_600_000),
        16,
        3000,
    )
    .expect("retreating enemy with a ready timer fires");
    assert_eq!(c.target_position, Some(Vec2::new(120_000, 160_000)));
    assert_eq!(shot.speed, 474_339);
    assert_eq!(shot.direction, Vec2::new(707, -707));
    assert_eq!(shot.position, Vec2::new(26_000, 0));
}

#[test]
fn spawner_scaling_after_one_long_update() {
    let mut s = EnemySpawner::new(vec![Vec2::new(0, 0)]);
    s.update(0, 90_000);
    assert_eq!(s.get_spawn_wave_info(), (3500, 16, 1600));
}

#[test]
fn pierce_spares_targets_after_the_last_piercing() {
    let rect = Rect::new(0, 0, 500_000, 8000);
    let targets: Vec<Hitbox> = (0..4)
        .map(|i| Hitbox { position: Vec2::new(50_000 + 100_000 * i, 4000), size: Vec2::new(32_000, 48_000) })
        .collect();
    let (hits, left, spent) = sweep_targets(rect, &targets, 2);
    assert_eq!(hits, vec![0, 1, 2]);
    assert_eq!(left, 0);
    assert!(spent);
    let mut healths = vec![50_000, 20_000, 60_000, 50_000];
    apply_damage(&mut healths, &damage_events(&hits, 30_000));
    assert_eq!(healths, vec![20_000, 0, 30_000, 50_000]);
    assert_eq!(dead_entities(&healths), vec![1]);
}
