use td_core::effects::EffectKind;
use td_core::level::{as_usize, get_valid_spawn_spans, Level, LevelConfig, Levels, TowerSettings};
use td_core::spawner::{SpawnSpan, SpawnSpanSerialized, Spawner};
use td_core::tile::{BaseTile, TileType};
use td_core::tower::{Dir, FrameDrawing, Tower, TowerType, Towers};

fn empty_config() -> LevelConfig {
    LevelConfig {
        enemies: Vec::new(),
        health: None,
        towers: TowerSettings { collector: None, block_down: None, block_up: None, lava: None },
    }
}

fn make_level(width: usize, height: usize, specials: &[(usize, usize, TileType)]) -> Level {
    let mut tiles: Vec<BaseTile> = Vec::new();
    for i in 0..width * height {
        let (x, y) = (i % width, i / width);
        let mut kind = TileType::Empty;
        for &(sx, sy, k) in specials {
            if sx == x && sy == y {
                kind = k;
            }
        }
        tiles.push(BaseTile { kind, size: (1, 1), grid_pos: (x, y), index: i });
    }
    Level::new(width, tiles, empty_config())
}

#[test]
fn span_interval_is_duration_over_count() {
    let s = SpawnSpan::new(2000, 4);
    assert_eq!(s.time_between_spawns_ms, 500);
    assert_eq!(s.spawned, 0);
    assert_eq!(s.timer_ms, 0);
}

#[test]
fn span_scenario_four_half_second_steps() {
    let mut s = SpawnSpan::new(2000, 4);
    let (spawn1, fin1) = s.spawn(500);
    let (spawn2, fin2) = s.spawn(500);
    let (spawn3, fin3) = s.spawn(500);
    let (spawn4, fin4) = s.spawn(500);
    assert!(spawn1 && spawn2 && spawn3 && spawn4);
    assert!(!fin1 && !fin2 && !fin3);
    assert!(fin4);
    let (spawn5, fin5) = s.spawn(500);
    assert!(!spawn5);
    assert!(fin5);
}

#[test]
fn span_accumulates_short_steps() {
    let mut s = SpawnSpan::new(1000, 2);
    assert_eq!(s.spawn(200), (false, false));
    assert_eq!(s.spawn(200), (false, false));
    assert_eq!(s.spawn(200), (true, false));
    assert_eq!(s.timer_ms, 0);
}

#[test]
fn span_rate_in_milli_spawns_per_second() {
    let s = SpawnSpan::new(2000, 4);
    assert_eq!(s.get_spawn_rate(), 2000);
}

#[test]
fn spawner_totals_and_terminal_state() {
    let spans = vec![SpawnSpan::new(1000, 2), SpawnSpan::new(1000, 3)];
    let mut sp = Spawner::new(spans);
    assert_eq!(*sp.get_total_to_spawn(), 5);
    assert_eq!(*sp.get_spawned_count(), 0);
    let mut fired: usize = 0;
    for _ in 0..200 {
        if sp.check_spawn(250) {
            fired += 1;
        }
    }
    assert_eq!(fired, 5);
    assert_eq!(*sp.get_spawned_count(), 5);
    assert_eq!(sp.current_span_index, 2);
    for _ in 0..10 {
        assert!(!sp.check_spawn(10_000));
    }
    assert_eq!(*sp.get_spawned_count(), 5);
    assert_eq!(sp.get_spawns_per_second(), 0);
}

#[test]
fn invalid_spans_are_filtered() {
    let data = vec![
        SpawnSpanSerialized { time_ms: 1000, count: 2 },
        SpawnSpanSerialized { time_ms: 0, count: 5 },
        SpawnSpanSerialized { time_ms: 1000, count: 0 },
        SpawnSpanSerialized { time_ms: 1000, count: -3 },
        SpawnSpanSerialized { time_ms: 2000, count: 4 },
    ];
    let spans = get_valid_spawn_spans(&data);
    assert_eq!(spans.len(), 2);
    assert_eq!(spans[0].count, 2);
    assert_eq!(spans[1].count, 4);
}

#[test]
fn as_usize_cases() {
    assert_eq!(as_usize(Some(7), 3), 7);
    assert_eq!(as_usize(Some(-7), 3), 3);
    assert_eq!(as_usize(None, 3), 3);
}

#[test]
fn level_supply_and_spawn_holes() {
    let mut cfg = empty_config();
    cfg.towers.block_down = Some(2);
    cfg.towers.lava = Some(-1);
    cfg.health = Some(42);
    let mut tiles: Vec<BaseTile> = Vec::new();
    for i in 0..4 {
        let (x, y) = (i % 2, i / 2);
        let kind = if i == 1 { TileType::Spawn } else { TileType::Empty };
        tiles.push(BaseTile { kind, size: (1, 1), grid_pos: (x, y), index: i });
    }
    let lvl = Level::new(2, tiles, cfg);
    assert_eq!(lvl.health, 42);
    assert_eq!(lvl.get_tower_supply(&TowerType::BlockerDown), 2);
    assert_eq!(lvl.get_tower_supply(&TowerType::BlockerUp), 0);
    assert_eq!(lvl.get_tower_supply(&TowerType::Lava), 0);
    let spawns = lvl.find_spawns();
    assert_eq!(spawns, vec![(32, 0)]);
}

#[test]
fn levels_fall_back_to_first() {
    let a = make_level(2, 2, &[(0, 0, TileType::Spawn)]);
    let b = make_level(3, 2, &[(0, 0, TileType::Spawn)]);
    let lvls = Levels::new(vec![a, b]);
    assert_eq!(lvls.get_level(1).width, 3);
    assert_eq!(lvls.get_level(7).width, 2);
}

#[test]
fn lava_tower_emission_cadence() {
    let mut t = Tower::new(TowerType::Lava, (2, 3));
    assert_eq!(t.direction, Dir::Down);
    assert!(t.get_spawn(500).is_none());
    let fired = t.get_spawn(500);
    assert_eq!(fired, Some((EffectKind::LavaDrop, (2, 4))));
    assert!(t.get_spawn(1000).is_none());
    assert!(t.get_spawn(1000).is_none());
    let fired2 = t.get_spawn(1000);
    assert_eq!(fired2, Some((EffectKind::LavaDrop, (2, 4))));
}

#[test]
fn blockers_never_emit() {
    let mut t = Tower::new(TowerType::BlockerDown, (1, 1));
    for _ in 0..10 {
        assert!(t.get_spawn(10_000).is_none());
    }
}

#[test]
fn frame_drawing_steps_and_wraps() {
    let mut a = FrameDrawing::new(3, 100);
    a.advance_frames(100);
    assert_eq!(a.frame, 1);
    a.advance_frames(40);
    assert_eq!(a.frame, 1);
    assert_eq!(a.timer_ms, 60);
    a.advance_frames(60);
    assert_eq!(a.frame, 2);
    assert!(a.is_end());
    let mut c = FrameDrawing::new(2, 100);
    c.advance_cycle(100);
    assert_eq!(c.frame, 1);
    c.advance_cycle(100);
    assert_eq!(c.frame, 0);
}

#[test]
fn tower_placement_rules() {
    let lvl = make_level(3, 3, &[(0, 0, TileType::Spawn), (1, 2, TileType::BuildDown)]);
    let wrld = td_core::wrld::World::new(lvl);
    let mut towers = Towers::new(&wrld);
    assert_eq!(towers.get_tower_count(&TowerType::BlockerDown), 0);
    let placed = towers.try_place(&TileType::BuildDown, 7, (1, 2), TowerType::BlockerDown);
    assert!(placed);
    assert_eq!(towers.get_tower_count(&TowerType::BlockerDown), 1);
    let again = towers.try_place(&TileType::BuildDown, 7, (1, 2), TowerType::Lava);
    assert!(!again);
    let wrong_dir = towers.try_place(&TileType::BuildDown, 4, (1, 2), TowerType::BlockerUp);
    assert!(!wrong_dir);
    let not_buildable = towers.try_place(&TileType::Empty, 0, (0, 2), TowerType::BlockerDown);
    assert!(!not_buildable);
}

#[test]
fn tower_dir_per_kind() {
    assert_eq!(Towers::tower_dir(&TowerType::BlockerDown), Dir::Down);
    assert_eq!(Towers::tower_dir(&TowerType::BlockerUp), Dir::Up);
    assert_eq!(Towers::tower_dir(&TowerType::Lava), Dir::Down);
}
