use td_core::effects::{has_effect_collision, spawn_effect, EffectKind, Effects, LavaDrop, LavaSplash};
use td_core::enemy::{Enemy, Facing};
use td_core::level::{Level, LevelConfig, TowerSettings};
use td_core::rect::Rect;
use td_core::spawner::{spawn, spawn_at, SpawnSpanSerialized};
use td_core::tile::{BaseTile, TileType};
use td_core::tower::{Tower, TowerType, Towers};
use td_core::wrld::World;

fn make_world(width: usize, height: usize, specials: &[(usize, usize, TileType)]) -> World {
    let mut tiles: Vec<BaseTile> = Vec::new();
    for i in 0..width * height {
        let (x, y) = (i % width, i / width);
        let mut kind = TileType::Empty;
        for &(sx, sy, k) in specials {
            if sx == x && sy == y {
                kind = k;
            }
        }
        tiles.push(BaseTile { kind, size: (1, 1), grid_pos: (x, y), index: i });
    }
    let cfg = LevelConfig {
        enemies: Vec::new(),
        health: None,
        towers: TowerSettings { collector: None, block_down: None, block_up: None, lava: None },
    };
    World::new(Level::new(width, tiles, cfg))
}

fn enemy_at(pos: (usize, usize)) -> Enemy {
    Enemy::new(pos, Rect::new(3, 12, 27, 32), Rect::new(3, 12, 27, 32))
}

#[test]
fn actor_settles_exactly_at_tile_boundary() {
    // An impassable tile at grid (1, 2): its rectangle starts at pixel row 64.
    let mut wrld = make_world(
        3,
        4,
        &[(0, 0, TileType::Spawn), (1, 2, TileType::TerrainCenter)],
    );
    wrld.gravity_mpx = 15_000;  // fifteen pixels per tick
    let towers = Towers::new(&wrld);
    let mut e = enemy_at((32, 20));
    let (falling, keep) = e.move_y(&mut wrld, &towers);
    assert!(keep);
    assert!(!falling);
    // the post-tick bottom edge rests exactly against the tile's top edge
    assert_eq!(e.pos, (32, 31));
    assert_eq!(e.pos.1 + e.hitbox.bottom + 1, 64);
    assert_eq!(e.sub_y, 31_000);
    assert_eq!(wrld.health, 100);
}

#[test]
fn actor_keeps_falling_through_empty_space() {
    let mut wrld = make_world(3, 8, &[(0, 0, TileType::Spawn)]);
    wrld.gravity_mpx = 5_000;
    let towers = Towers::new(&wrld);
    let mut e = enemy_at((32, 20));
    let (falling, keep) = e.move_y(&mut wrld, &towers);
    assert!(keep);
    assert!(falling);
    assert_eq!(e.pos, (32, 24));
}

#[test]
fn goal_step_costs_health_and_removes_actor() {
    // A goal tile at grid (0, 1); the actor stands just right of it, facing
    // left, grounded.
    let mut wrld = make_world(
        3,
        3,
        &[(0, 0, TileType::Spawn), (0, 1, TileType::Goal)],
    );
    wrld.dt_ms = 100;  // walking accumulates 3.2 pixels per tick
    let towers = Towers::new(&wrld);
    let mut e = enemy_at((30, 40));
    assert_eq!(e.facing, Facing::Left);
    let keep = e.move_x(&mut wrld, &towers);
    assert!(!keep);
    assert_eq!(wrld.health, 99);
    // no partial movement into the goal tile is retained
    assert_eq!(e.pos, (30, 40));
}

#[test]
fn blocking_structure_reverses_facing_once() {
    let mut wrld = make_world(3, 4, &[(0, 0, TileType::Spawn)]);
    wrld.dt_ms = 100;
    let mut towers = Towers::new(&wrld);
    // a blocker anchored at grid (0, 0) occupies pixel rows 32..96 of column 0
    let placed = towers.try_place(&TileType::BuildDown, 0, (0, 0), TowerType::BlockerDown);
    assert!(placed);
    let mut e = enemy_at((30, 40));
    assert_eq!(e.facing, Facing::Left);
    let keep = e.move_x(&mut wrld, &towers);
    assert!(keep);
    assert_eq!(e.facing, Facing::Right);
    assert_eq!(e.pos, (30, 40));
    assert_eq!(e.sub_x, 30_000);
    assert_eq!(wrld.health, 100);
}

#[test]
fn grounded_actor_walks_left() {
    let mut wrld = make_world(4, 3, &[(0, 0, TileType::Spawn)]);
    wrld.dt_ms = 100;
    let towers = Towers::new(&wrld);
    let mut e = enemy_at((100, 40));
    let keep = e.move_x(&mut wrld, &towers);
    assert!(keep);
    assert_eq!(e.facing, Facing::Left);
    // 3.2 pixels accumulated; the stepper walks while more than one pixel remains
    assert_eq!(e.pos, (97, 40));
}

#[test]
fn update_runs_fall_then_walk() {
    // Ground at grid row 2 (pixel row 64) across the whole width.
    let mut wrld = make_world(
        4,
        4,
        &[
            (0, 0, TileType::Spawn),
            (0, 2, TileType::TerrainCenter),
            (1, 2, TileType::TerrainCenter),
            (2, 2, TileType::TerrainCenter),
            (3, 2, TileType::TerrainCenter),
        ],
    );
    wrld.gravity_mpx = 15_000;
    wrld.dt_ms = 100;
    let towers = Towers::new(&wrld);
    let mut e = enemy_at((64, 25));
    // first tick: settles on the ground, then walks left
    let keep = e.update(&mut wrld, &towers);
    assert!(keep);
    assert_eq!(e.pos.1, 31);
    assert!(e.pos.0 < 64);
    assert_eq!(e.rect, Rect::new(e.pos.0 + 3, e.pos.1 + 12, e.pos.0 + 27, e.pos.1 + 32));
}

#[test]
fn landing_drop_spawns_one_splash_at_its_grid_cell() {
    // An impassable tile at grid (1, 2): a drop released at (1, 0) lands on it.
    let mut wrld = make_world(
        3,
        4,
        &[(0, 0, TileType::Spawn), (1, 2, TileType::TerrainCenter)],
    );
    wrld.gravity_mpx = 20_000;
    let mut d = LavaDrop::new((1, 0));
    let first = d.update(&wrld);
    assert!(first.keep);
    assert!(first.spawn.is_none());
    let second = d.update(&wrld);
    assert!(!second.keep);
    assert_eq!(second.spawn, Some((EffectKind::LavaSplash, (1, 0))));
    // it stopped with its bottom edge against the tile top
    assert_eq!(d.pos.1 + 32 + 1, 64);
}

#[test]
fn drop_keeps_sub_pixel_fall_across_ticks() {
    // Gravity of 0.6 pixels per tick: the accumulator must persist, so the
    // drop starts moving on the second tick and keeps pace thereafter.
    let mut wrld = make_world(2, 8, &[(0, 0, TileType::Spawn)]);
    wrld.gravity_mpx = 600;
    let mut d = LavaDrop::new((0, 0));
    let r1 = d.update(&wrld);
    assert!(r1.keep);
    assert_eq!(d.pos.1, 0);
    assert_eq!(d.sub_y, 600);
    let r2 = d.update(&wrld);
    assert!(r2.keep);
    assert_eq!(d.sub_y, 1200);
    let r3 = d.update(&wrld);
    assert!(r3.keep);
    // 1.8 pixels accumulated: one pixel of movement has happened
    assert_eq!(d.pos.1, 1);
    assert_eq!(d.sub_y, 1800);
}

#[test]
fn splash_lives_until_its_last_frame() {
    let mut wrld = make_world(2, 2, &[(0, 0, TileType::Spawn)]);
    wrld.dt_ms = 100;
    let mut s = LavaSplash::new((0, 0));
    let r1 = s.update(&wrld);
    assert!(r1.keep);
    let r2 = s.update(&wrld);
    assert!(r2.keep);
    let r3 = s.update(&wrld);
    assert!(!r3.keep);
    assert!(r3.spawn.is_none());
}

#[test]
fn effect_set_building_and_collision() {
    let mut effects: Vec<Effects> = Vec::new();
    spawn_effect(&mut effects, EffectKind::LavaDrop, (1, 1));
    spawn_effect(&mut effects, EffectKind::LavaSplash, (3, 1));
    assert_eq!(effects.len(), 2);
    assert_eq!(*effects[0].get_kind(), EffectKind::LavaDrop);
    assert_eq!(*effects[0].get_pos(), (32, 32));
    assert_eq!(*effects[1].get_kind(), EffectKind::LavaSplash);
    assert!(has_effect_collision(&effects, Rect::new(40, 40, 50, 50)));
    assert!(!has_effect_collision(&effects, Rect::new(200, 200, 210, 210)));
}

#[test]
fn spawn_picks_a_level_spawn_hole() {
    let wrld = make_world(3, 3, &[(2, 1, TileType::Spawn)]);
    assert_eq!(wrld.get_spawns(), &vec![(64, 32)]);
    for _ in 0..10 {
        let e = spawn(&wrld);
        assert_eq!(e.pos, (64, 32));
        assert_eq!(e.hitbox, Rect::new(3, 12, 27, 32));
    }
    let e2 = spawn_at((10, 20));
    assert_eq!(e2.pos, (10, 20));
    assert_eq!(e2.facing, Facing::Left);
}

#[test]
fn world_grid_queries() {
    let wrld = make_world(3, 2, &[(0, 0, TileType::Spawn), (2, 1, TileType::Goal)]);
    assert!(wrld.get_tile(&3, &0).is_none());
    assert!(wrld.get_tile(&0, &2).is_none());
    let t = wrld.get_tile(&2, &1).unwrap();
    assert_eq!(*t.kind(), TileType::Goal);
    assert_eq!(t.grid_pos(), (2, 1));
    assert_eq!(t.pos(), (64, 32));
    assert_eq!(wrld.get_tile_index(&2, &1), 5);
    assert_eq!(wrld.px_to_grid((-1, 0)), None);
    assert_eq!(wrld.px_to_grid((0, 100)), None);
    assert_eq!(wrld.px_to_grid((70, 40)), Some((2, 1)));
}

#[test]
fn world_speed_and_selection() {
    let mut wrld = make_world(2, 2, &[(0, 0, TileType::Spawn)]);
    assert_eq!(wrld.speed_milli, 1000);
    wrld.speed_down();
    assert_eq!(wrld.speed_milli, 500);
    wrld.speed_down();
    assert_eq!(wrld.speed_milli, 500);
    wrld.speed_up();
    assert_eq!(wrld.speed_milli, 1000);
    for _ in 0..10 {
        wrld.speed_up();
    }
    assert_eq!(wrld.speed_milli, 5000);
    let towers = Towers::new(&wrld);
    // the empty config grants no structures, so selection is refused
    wrld.select_tower_kind(&towers, &TowerType::Lava);
    assert_eq!(wrld.selected_tower_type, None);
}

#[test]
fn orchestrator_spawns_from_the_scheduler() {
    let mut tiles: Vec<BaseTile> = Vec::new();
    for i in 0..4 {
        let (x, y) = (i % 2, i / 2);
        let kind = if i == 0 { TileType::Spawn } else { TileType::Empty };
        tiles.push(BaseTile { kind, size: (1, 1), grid_pos: (x, y), index: i });
    }
    let cfg = LevelConfig {
        enemies: vec![SpawnSpanSerialized { time_ms: 1000, count: 1 }],
        health: Some(50),
        towers: TowerSettings { collector: None, block_down: None, block_up: None, lava: None },
    };
    let lvl = Level::new(2, tiles, cfg);
    let mut wrld = World::new(lvl);
    let mut towers = Towers::new(&wrld);
    let mut enemies: Vec<Enemy> = Vec::new();
    let mut effects: Vec<Effects> = Vec::new();
    assert_eq!(*wrld.get_lvl().spawner.get_total_to_spawn(), 1);
    wrld.update(&mut enemies, &mut towers, &mut effects, 1000);
    assert_eq!(enemies.len(), 1);
    assert_eq!(enemies[0].pos.0, 0);
    assert_eq!(wrld.frame, 1);
    assert_eq!(wrld.dt_ms, 1000);
    assert_eq!(wrld.gravity_mpx, 157_920);
    wrld.update(&mut enemies, &mut towers, &mut effects, 1000);
    assert_eq!(wrld.frame, 2);
    assert_eq!(*wrld.get_lvl().spawner.get_spawned_count(), 1);
}

#[test]
fn orchestrator_collects_tower_emissions() {
    let mut wrld = make_world(2, 4, &[(0, 0, TileType::Spawn)]);
    let mut towers = Towers::new(&wrld);
    towers.towers[2] = Some(Tower::new(TowerType::Lava, (0, 1)));
    let mut enemies: Vec<Enemy> = Vec::new();
    let mut effects: Vec<Effects> = Vec::new();
    // the emitter starts with a one-second countdown
    wrld.update(&mut enemies, &mut towers, &mut effects, 1000);
    assert_eq!(effects.len(), 1);
    assert_eq!(*effects[0].get_kind(), EffectKind::LavaDrop);
    assert_eq!(*effects[0].get_pos(), (0, 64));
}
