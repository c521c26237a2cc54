use vstd::prelude::*;

use crate::emath::CELL;
use crate::spawner::SpawnSpan;
use crate::spawner::SpawnSpanSerialized;
use crate::spawner::Spawner;
use crate::spawner::sum_counts;
use crate::tile::BaseTile;
use crate::tile::TileType;
use crate::tower::TowerType;

verus! {

/// The widest and tallest a level grid may be, in cells.
pub const MAX_DIM: usize = 0x2000;

/// How many structures of each kind a level grants the player.
#[derive(Debug, Clone, Copy)]
pub struct TowerSettings {
    pub collector: Option<isize>,
    pub block_down: Option<isize>,
    pub block_up: Option<isize>,
    pub lava: Option<isize>,
}

/// The per-kind structure supply derived from a level's settings.
#[derive(Debug, Clone, Copy)]
pub struct TowerSupply {
    pub block_down: usize,
    pub block_up: usize,
    pub lava: usize,
}

/// A level's configuration: its wave phases, its starting health, and the
/// structure supply granted to the player.
#[derive(Debug)]
pub struct LevelConfig {
    pub enemies: Vec<SpawnSpanSerialized>,
    pub health: Option<usize>,
    pub towers: TowerSettings,
}

/// One playable level: its grid of base tiles in row-major order, its
/// starting health, its configuration, its structure supply, and its wave
/// scheduler.
pub struct Level {
    pub index: u8,
    pub width: usize,
    pub height: usize,
    pub tiles: Vec<BaseTile>,
    pub health: usize,
    pub config: LevelConfig,
    pub twr_supply: TowerSupply,
    pub spawner: Spawner,
}

/// `Some(v)` with `v >= 0` as a usize, anything else as the default.
pub fn as_usize(val: Option<isize>, default: usize) -> (r: usize)
    ensures
        r == (match val {
            Some(v) => {
                if v >= 0 {
                    v as usize
                } else {
                    default
                }
            },
            None => default,
        }),
{
    if let Some(v) = val {
        if v >= 0 {
            return v as usize;
        }
    }
    default
}

/// The wave phases a configuration yields: entries with a nonpositive
/// duration or target are dropped, the rest become fresh spans.
pub open spec fn spec_valid_spawn_spans(data: Seq<SpawnSpanSerialized>) -> Seq<SpawnSpan>
    decreases data.len(),
{
    if data.len() == 0 {
        Seq::empty()
    } else {
        let rest = spec_valid_spawn_spans(data.drop_last());
        let d = data.last();
        if d.count > 0 && d.time_ms > 0 {
            rest.push(
                SpawnSpan {
                    time_ms: d.time_ms,
                    count: d.count as usize,
                    spawned: 0,
                    timer_ms: 0,
                    time_between_spawns_ms: (d.time_ms as int / d.count as int) as u32,
                },
            )
        } else {
            rest
        }
    }
}

/// Every span the validation yields is well formed and fresh.
proof fn lemma_valid_spawn_spans_wf(data: Seq<SpawnSpanSerialized>)
    ensures
        forall|i: int|
            0 <= i < spec_valid_spawn_spans(data).len() ==> (#[trigger] spec_valid_spawn_spans(
                data,
            )[i]).wf() && spec_valid_spawn_spans(data)[i].spawned == 0,
    decreases data.len(),
{
    if data.len() > 0 {
        lemma_valid_spawn_spans_wf(data.drop_last());
        let rest = spec_valid_spawn_spans(data.drop_last());
        let d = data.last();
        if d.count > 0 && d.time_ms > 0 {
            let q = d.time_ms as int / d.count as int;
            vstd::arithmetic::div_mod::lemma_div_pos_is_pos(d.time_ms as int, d.count as int);
            vstd::arithmetic::div_mod::lemma_div_is_ordered_by_denominator(
                d.time_ms as int,
                1,
                d.count as int,
            );
            vstd::arithmetic::div_mod::lemma_div_basics(d.time_ms as int);
            assert(0 <= q <= d.time_ms as int);
            let e = SpawnSpan {
                time_ms: d.time_ms,
                count: d.count as usize,
                spawned: 0,
                timer_ms: 0,
                time_between_spawns_ms: q as u32,
            };
            assert(e.wf());
            assert(spec_valid_spawn_spans(data) == rest.push(e));
            assert forall|i: int| 0 <= i < spec_valid_spawn_spans(data).len() implies (
            #[trigger] spec_valid_spawn_spans(data)[i]).wf() && spec_valid_spawn_spans(
                data,
            )[i].spawned == 0 by {
                if i < rest.len() {
                    assert(spec_valid_spawn_spans(data)[i] == rest[i]);
                } else {
                    assert(spec_valid_spawn_spans(data)[i] == e);
                }
            }
        }
    }
}

/// Drop configuration entries whose duration or target is nonpositive and
/// build fresh spans from the rest.
pub fn get_valid_spawn_spans(span_data: &Vec<SpawnSpanSerialized>) -> (r: Vec<SpawnSpan>)
    ensures
        r@ == spec_valid_spawn_spans(span_data@),
{
    let mut r: Vec<SpawnSpan> = Vec::new();
    let mut i: usize = 0;
    while i < span_data.len()
        invariant
            i <= span_data@.len(),
            r@ == spec_valid_spawn_spans(span_data@.take(i as int)),
        decreases span_data@.len() - i,
    {
        proof {
            assert(span_data@.take(i + 1).drop_last() =~= span_data@.take(i as int));
            assert(span_data@.take(i + 1).last() == span_data@[i as int]);
        }
        let d = span_data[i];
        if d.count > 0 && d.time_ms > 0 {
            r.push(SpawnSpan::new(d.time_ms, d.count as usize));
        }
        i = i + 1;
    }
    proof {
        assert(span_data@.take(span_data@.len() as int) =~= span_data@);
    }
    r
}

/// The pixel positions of a tile sequence's spawn holes, in tile order.
pub open spec fn spawn_positions(ts: Seq<BaseTile>) -> Seq<(usize, usize)>
    decreases ts.len(),
{
    if ts.len() == 0 {
        Seq::empty()
    } else {
        let rest = spawn_positions(ts.drop_last());
        let t = ts.last();
        if t.kind == TileType::Spawn {
            rest.push(((t.grid_pos.0 * CELL) as usize, (t.grid_pos.1 * CELL) as usize))
        } else {
            rest
        }
    }
}

impl Level {
    /// A level is well formed when its dimensions are positive and bounded,
    /// its tile sequence fills the grid in row-major order one cell per
    /// tile, and its scheduler is valid.
    pub open spec fn wf(self) -> bool {
        &&& 1 <= self.width <= MAX_DIM
        &&& 1 <= self.height <= MAX_DIM
        &&& self.tiles@.len() == self.width * self.height
        &&& forall|i: int|
            0 <= i < self.tiles@.len() ==> (#[trigger] self.tiles@[i]).grid_pos.0 == i % (
            self.width as int) && self.tiles@[i].grid_pos.1 == i / (self.width as int)
                && self.tiles@[i].size.0 == 1 && self.tiles@[i].size.1 == 1
        &&& self.spawner.wf()
    }

    /// The supply a configuration grants, missing or negative entries
    /// counting as zero.
    pub open spec fn spec_tower_supply(cfg: LevelConfig) -> TowerSupply {
        TowerSupply {
            block_down: spec_as_usize(cfg.towers.block_down, 0),
            block_up: spec_as_usize(cfg.towers.block_up, 0),
            lava: spec_as_usize(cfg.towers.lava, 0),
        }
    }

    pub fn new(width: usize, tiles: Vec<BaseTile>, config: LevelConfig) -> (lvl: Level)
        requires
            width >= 1,
            sum_counts(spec_valid_spawn_spans(config.enemies@)) <= usize::MAX,
        ensures
            lvl.index == 0,
            lvl.width == width,
            lvl.height == tiles@.len() as int / width as int,
            lvl.tiles@ == tiles@,
            lvl.health == (if config.health is Some {
                config.health->Some_0
            } else {
                100usize
            }),
            lvl.twr_supply == Level::spec_tower_supply(config),
            lvl.spawner.spans@ == spec_valid_spawn_spans(config.enemies@),
            lvl.spawner.current_span_index == 0,
            lvl.spawner.spawned == 0,
            lvl.spawner.wf(),
            lvl.config == config,
    {
        proof {
            lemma_valid_spawn_spans_wf(config.enemies@);
        }
        let height = tiles.len() / width;
        let twr_supply = Level::calc_tower_supply(&config);
        let spawner = Spawner::new(get_valid_spawn_spans(&config.enemies));
        let health = match config.health {
            Some(h) => h,
            None => 100,
        };
        Level { index: 0, width, height, tiles, twr_supply, spawner, health, config }
    }

    /// The pixel positions of the level's spawn holes.  A level without any
    /// is rejected before the simulation is built, so at least one must
    /// exist.
    pub fn find_spawns(&self) -> (r: Vec<(usize, usize)>)
        requires
            self.wf(),
        ensures
            r@ == spawn_positions(self.tiles@),
            forall|k: int|
                0 <= k < r@.len() ==> (#[trigger] r@[k]).0 <= (self.width - 1) * CELL && r@[k].1
                    <= (self.height - 1) * CELL,
    {
        let mut r: Vec<(usize, usize)> = Vec::new();
        let mut i: usize = 0;
        while i < self.tiles.len()
            invariant
                self.wf(),
                i <= self.tiles@.len(),
                r@ == spawn_positions(self.tiles@.take(i as int)),
                forall|k: int|
                    0 <= k < r@.len() ==> (#[trigger] r@[k]).0 <= (self.width - 1) * CELL
                        && r@[k].1 <= (self.height - 1) * CELL,
            decreases self.tiles@.len() - i,
        {
            proof {
                assert(self.tiles@.take(i + 1).drop_last() =~= self.tiles@.take(i as int));
                assert(self.tiles@.take(i + 1).last() == self.tiles@[i as int]);
            }
            let t = &self.tiles[i];
            if t.kind == TileType::Spawn {
                proof {
                    assert(t.grid_pos.0 < self.width && t.grid_pos.1 < self.height) by {
                        assert(i < self.tiles@.len());
                        assert(self.tiles@[i as int].grid_pos.1 == i as int / (self.width as int));
                        assert(self.tiles@.len() == self.width * self.height);
                        assert(i as int / (self.width as int) < self.height as int) by (
                        nonlinear_arith)
                            requires
                                0 <= i as int,
                                (i as int) < (self.width as int) * (self.height as int),
                                self.width >= 1,
                        ;
                    }
                    assert(t.grid_pos.0 * CELL <= (self.width - 1) * CELL) by (nonlinear_arith)
                        requires
                            t.grid_pos.0 <= self.width - 1,
                            CELL > 0,
                    ;
                    assert(t.grid_pos.1 * CELL <= (self.height - 1) * CELL) by (nonlinear_arith)
                        requires
                            t.grid_pos.1 <= self.height - 1,
                            CELL > 0,
                    ;
                }
                let p = crate::emath::grid_pos_to_pos(&t.grid_pos);
                r.push(p);
            }
            i = i + 1;
        }
        proof {
            assert(self.tiles@.take(self.tiles@.len() as int) =~= self.tiles@);
        }
        r
    }

    fn calc_tower_supply(cfg: &LevelConfig) -> (r: TowerSupply)
        ensures
            r == Level::spec_tower_supply(*cfg),
    {
        TowerSupply {
            block_down: as_usize(cfg.towers.block_down, 0),
            block_up: as_usize(cfg.towers.block_up, 0),
            lava: as_usize(cfg.towers.lava, 0),
        }
    }

    /// How many structures of the given kind this level grants.
    pub fn get_tower_supply(&self, kind: &TowerType) -> (r: usize)
        ensures
            r == (match *kind {
                TowerType::BlockerDown => self.twr_supply.block_down,
                TowerType::BlockerUp => self.twr_supply.block_up,
                TowerType::Lava => self.twr_supply.lava,
            }),
    {
        match kind {
            TowerType::BlockerDown => self.twr_supply.block_down,
            TowerType::BlockerUp => self.twr_supply.block_up,
            TowerType::Lava => self.twr_supply.lava,
        }
    }
}

/// `Some(v)` with `v >= 0` as an int, anything else as the default.
pub open spec fn spec_as_usize(val: Option<isize>, default: usize) -> usize {
    match val {
        Some(v) => {
            if v >= 0 {
                v as usize
            } else {
                default
            }
        },
        None => default,
    }
}

impl Clone for LevelConfig {
    fn clone(&self) -> (r: Self)
        ensures
            r.enemies@ == self.enemies@,
            r.health == self.health,
            r.towers == self.towers,
    {
        let enemies = self.enemies.clone();
        proof {
            assert(enemies@ =~= self.enemies@);
        }
        LevelConfig { enemies, health: self.health, towers: self.towers }
    }
}

impl Clone for Spawner {
    fn clone(&self) -> (r: Self)
        ensures
            r.spans@ == self.spans@,
            r.current_span_index == self.current_span_index,
            r.spawned == self.spawned,
            r.total_to_spawn == self.total_to_spawn,
    {
        let spans = self.spans.clone();
        proof {
            assert(spans@ =~= self.spans@);
        }
        Spawner {
            spans,
            current_span_index: self.current_span_index,
            spawned: self.spawned,
            total_to_spawn: self.total_to_spawn,
        }
    }
}

/// Two levels that agree in every observable part: same grid, same health,
/// same configuration, same supply, and same scheduler state.
pub open spec fn level_like(a: Level, b: Level) -> bool {
    &&& a.index == b.index
    &&& a.width == b.width
    &&& a.height == b.height
    &&& a.tiles@ == b.tiles@
    &&& a.health == b.health
    &&& a.config.enemies@ == b.config.enemies@
    &&& a.config.health == b.config.health
    &&& a.config.towers == b.config.towers
    &&& a.twr_supply == b.twr_supply
    &&& a.spawner.spans@ == b.spawner.spans@
    &&& a.spawner.current_span_index == b.spawner.current_span_index
    &&& a.spawner.spawned == b.spawner.spawned
    &&& a.spawner.total_to_spawn == b.spawner.total_to_spawn
}

impl Clone for Level {
    fn clone(&self) -> (r: Self)
        ensures
            level_like(r, *self),
    {
        let tiles = self.tiles.clone();
        proof {
            assert(tiles@ =~= self.tiles@);
        }
        Level {
            index: self.index,
            width: self.width,
            height: self.height,
            tiles,
            health: self.health,
            config: self.config.clone(),
            twr_supply: self.twr_supply,
            spawner: self.spawner.clone(),
        }
    }
}

/// The ordered set of levels the program ships with.
pub struct Levels {
    pub levels: Vec<Level>,
}

impl Levels {
    pub fn new(levels: Vec<Level>) -> (r: Levels)
        ensures
            r.levels@ == levels@,
    {
        Levels { levels }
    }

    /// A copy of the level at `index`, or of the first level when `index`
    /// runs off the end.
    pub fn get_level(&self, index: usize) -> (r: Level)
        requires
            self.levels@.len() > 0,
        ensures
            index < self.levels@.len() ==> level_like(r, self.levels@[index as int]),
            index >= self.levels@.len() ==> level_like(r, self.levels@[0]),
    {
        if index < self.levels.len() {
            self.levels[index].clone()
        } else {
            self.levels[0].clone()
        }
    }
}

} // verus!
