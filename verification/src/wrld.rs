use vstd::prelude::*;

use crate::effects::EffectKind;
use crate::effects::Effects;
use crate::effects::spawn_effect;
use crate::emath::CELL;
use crate::enemy::Enemy;
use crate::level::Level;
use crate::level::spawn_positions;
use crate::tile::Tile;
use crate::tower::TowerType;
use crate::tower::Towers;

verus! {

/// No actor or effect ever stands beyond this pixel coordinate; the world
/// edge acts as solid ground.
pub const MAX_COORD: usize = 0x40_0000;

/// Gravity in thousandths of a pixel per second.
pub const GRAVITY_MILLI: u64 = 9870;

/// The longest tick the simulation accepts, in milliseconds.
pub const MAX_DT_MS: u32 = 5000;

/// The whole simulation state one tick works on: the level, its placed
/// tiles, the spawn positions, the shared health counter, and the per-tick
/// timing values.
pub struct World {
    pub level: Level,
    pub tiles: Vec<Tile>,
    pub spawns: Vec<(usize, usize)>,
    pub mouse_grid: Option<(usize, usize)>,
    pub dt_ms: u32,
    pub frame: usize,
    pub gravity_mpx: u32,
    pub health: usize,
    pub selected_tower_type: Option<TowerType>,
    pub speed_milli: u32,
}

impl World {
    /// The world is valid when its level is, its tiles are the level's base
    /// tiles placed on the grid, at least one spawn position exists and all
    /// of them lie on the grid, and the timing values are bounded.
    pub open spec fn wf(self) -> bool {
        &&& self.level.wf()
        &&& self.tiles@.len() == self.level.tiles@.len()
        &&& forall|i: int|
            0 <= i < self.tiles@.len() ==> (#[trigger] self.tiles@[i]).wf() && self.tiles@[i].base
                == self.level.tiles@[i]
        &&& self.spawns@.len() >= 1
        &&& forall|k: int|
            0 <= k < self.spawns@.len() ==> (#[trigger] self.spawns@[k]).0 <= (self.level.width - 1)
                * CELL && self.spawns@[k].1 <= (self.level.height - 1) * CELL
        &&& self.dt_ms <= MAX_DT_MS
        &&& self.gravity_mpx <= 1_000_000
    }

    /// Place the level's base tiles on the grid.
    fn build_tiles(lvl: &Level) -> (tiles: Vec<Tile>)
        requires
            lvl.wf(),
        ensures
            tiles@.len() == lvl.tiles@.len(),
            forall|k: int|
                0 <= k < tiles@.len() ==> (#[trigger] tiles@[k]).wf() && tiles@[k].base
                    == lvl.tiles@[k],
    {
        let mut tiles: Vec<Tile> = Vec::new();
        let mut i: usize = 0;
        while i < lvl.tiles.len()
            invariant
                lvl.wf(),
                i <= lvl.tiles@.len(),
                tiles@.len() == i,
                forall|k: int|
                    0 <= k < i ==> (#[trigger] tiles@[k]).wf() && tiles@[k].base == lvl.tiles@[k],
            decreases lvl.tiles@.len() - i,
        {
            proof {
                assert(i as int / (lvl.width as int) < lvl.height as int) by (nonlinear_arith)
                    requires
                        0 <= i as int,
                        (i as int) < (lvl.width as int) * (lvl.height as int),
                        lvl.width >= 1,
                ;
            }
            tiles.push(Tile::new(&lvl.tiles[i]));
            i = i + 1;
        }
        tiles
    }

    pub fn new(lvl: Level) -> (w: World)
        requires
            lvl.wf(),
            spawn_positions(lvl.tiles@).len() >= 1,
        ensures
            w.wf(),
            w.level == lvl,
            w.spawns@ == spawn_positions(lvl.tiles@),
            w.health == 100,
            w.frame == 0,
            w.dt_ms == 0,
            w.gravity_mpx == 0,
            w.speed_milli == 1000,
            w.mouse_grid is None,
            w.selected_tower_type is None,
    {
        let spawns = lvl.find_spawns();
        let tiles = World::build_tiles(&lvl);
        World {
            tiles,
            spawns,
            level: lvl,
            mouse_grid: None,
            dt_ms: 0,
            frame: 0,
            gravity_mpx: 0,
            health: 100,
            selected_tower_type: None,
            speed_milli: 1000,
        }
    }

    /// Switch to another level: its health, tiles and spawn positions
    /// replace the old ones, the speed resets, and any selection is
    /// dropped.
    pub fn set_level(&mut self, lvl: Level)
        requires
            old(self).wf(),
            lvl.wf(),
            spawn_positions(lvl.tiles@).len() >= 1,
        ensures
            final(self).wf(),
            final(self).level == lvl,
            final(self).health == lvl.health,
            final(self).spawns@ == spawn_positions(lvl.tiles@),
            final(self).speed_milli == 1000,
            final(self).selected_tower_type is None,
            final(self).frame == old(self).frame,
            final(self).dt_ms == old(self).dt_ms,
            final(self).gravity_mpx == old(self).gravity_mpx,
    {
        self.health = lvl.health;
        self.tiles = World::build_tiles(&lvl);
        self.spawns = lvl.find_spawns();
        self.level = lvl;
        self.speed_milli = 1000;
        self.selected_tower_type = None;
    }

    pub fn get_next_level_index(&self) -> (r: u8)
        requires
            self.level.index < 255,
        ensures
            r == self.level.index + 1,
    {
        self.level.index + 1
    }

    pub fn get_lvl(&self) -> (r: &Level)
        ensures
            *r == self.level,
    {
        &self.level
    }

    /// Gravity already scaled by the tick's elapsed time, in thousandths of
    /// a pixel per tick.
    pub fn get_scaled_gravity(&self) -> (g: u32)
        ensures
            g == self.gravity_mpx,
    {
        self.gravity_mpx
    }

    pub fn get_mouse_grid(&self) -> (r: Option<(usize, usize)>)
        ensures
            r == self.mouse_grid,
    {
        self.mouse_grid
    }

    /// The grid cell under a world-pixel position, or nothing when the
    /// position lies outside the level's pixel extent.
    pub fn px_to_grid(&self, pos: (i64, i64)) -> (r: Option<(usize, usize)>)
        requires
            self.wf(),
        ensures
            (pos.0 < 0 || pos.0 > self.level.width * CELL || pos.1 < 0 || pos.1 > self.level.height
                * CELL) ==> r is None,
            !(pos.0 < 0 || pos.0 > self.level.width * CELL || pos.1 < 0 || pos.1
                > self.level.height * CELL) ==> r == Some(
                (((pos.0 / CELL as i64) as usize), ((pos.1 / CELL as i64) as usize)),
            ),
    {
        let width = (self.level.width * CELL) as i64;
        let height = (self.level.height * CELL) as i64;
        if pos.0 < 0 || pos.0 > width || pos.1 < 0 || pos.1 > height {
            None
        } else {
            Some(((pos.0 / CELL as i64) as usize, (pos.1 / CELL as i64) as usize))
        }
    }

    /// Record the grid cell under the given world-pixel position.
    pub fn update_mouse(&mut self, pos: (i64, i64))
        requires
            old(self).wf(),
        ensures
            final(self).wf(),
            *final(self) == (World { mouse_grid: final(self).mouse_grid, ..*old(self) }),
            final(self).mouse_grid == (if pos.0 < 0 || pos.0 > old(self).level.width * CELL
                || pos.1 < 0 || pos.1 > old(self).level.height * CELL {
                Option::<(usize, usize)>::None
            } else {
                Some((((pos.0 / CELL as i64) as usize), ((pos.1 / CELL as i64) as usize)))
            }),
    {
        self.mouse_grid = self.px_to_grid(pos);
    }

    pub fn get_spawns(&self) -> (r: &Vec<(usize, usize)>)
        ensures
            r@ == self.spawns@,
    {
        &self.spawns
    }

    /// The tile at a grid coordinate, or nothing when the coordinate lies
    /// outside the grid.  Never fails.
    pub fn get_tile(&self, x: &usize, y: &usize) -> (r: Option<&Tile>)
        requires
            self.wf(),
        ensures
            (*x < self.level.width && *y < self.level.height) ==> (r matches Some(t) && *t
                == self.tiles@[*y * self.level.width + *x]),
            !(*x < self.level.width && *y < self.level.height) ==> r is None,
    {
        if *x < self.level.width && *y < self.level.height {
            proof {
                assert((*y) * self.level.width + *x < self.level.width * self.level.height) by (
                nonlinear_arith)
                    requires
                        *x < self.level.width,
                        *y < self.level.height,
                ;
                assert(self.tiles@.len() == self.tiles.len());
            }
            return Some(&self.tiles[crate::emath::xy_to_i(self.level.width, *x, *y)]);
        }
        None
    }

    /// The tile under the recorded mouse cell, if it lies on the grid.
    pub fn get_mouse_tile(&self) -> (r: Option<&Tile>)
        requires
            self.wf(),
        ensures
            self.mouse_grid matches Some(m) ==> (m.0 < self.level.width && m.1 < self.level.height
                ==> (r matches Some(t) && *t == self.tiles@[m.1 * self.level.width + m.0])),
            self.mouse_grid matches Some(m) ==> (!(m.0 < self.level.width && m.1
                < self.level.height) ==> r is None),
            self.mouse_grid is None ==> r is None,
    {
        if let Some((x, y)) = self.mouse_grid {
            if x < self.level.width && y < self.level.height {
                proof {
                    assert(y * self.level.width + x < self.level.width * self.level.height) by (
                    nonlinear_arith)
                        requires
                            x < self.level.width,
                            y < self.level.height,
                    ;
                    assert(self.tiles@.len() == self.tiles.len());
                }
                return Some(&self.tiles[crate::emath::xy_to_i(self.level.width, x, y)]);
            }
        }
        None
    }

    /// The row-major tile index of a grid coordinate.
    pub fn get_tile_index(&self, x: &usize, y: &usize) -> (i: usize)
        requires
            self.wf(),
            *x < self.level.width,
            *y < self.level.height,
        ensures
            i == *y * self.level.width + *x,
            i < self.tiles@.len(),
    {
        proof {
            assert((*y) * self.level.width + *x < self.level.width * self.level.height) by (
            nonlinear_arith)
                requires
                    *x < self.level.width,
                    *y < self.level.height,
            ;
            assert(self.tiles@.len() == self.tiles.len());
        }
        crate::emath::xy_to_i(self.level.width, *x, *y)
    }

    /// Select a structure kind for building, unless the level's supply of
    /// that kind is already used up.
    pub fn select_tower_kind(&mut self, towers: &Towers, kind: &TowerType)
        ensures
            *final(self) == (World {
                selected_tower_type: final(self).selected_tower_type,
                ..*old(self)
            }),
            final(self).selected_tower_type == (if crate::tower::spec_count_kind(
                towers.towers@,
                *kind,
            ) >= (match *kind {
                TowerType::BlockerDown => old(self).level.twr_supply.block_down as int,
                TowerType::BlockerUp => old(self).level.twr_supply.block_up as int,
                TowerType::Lava => old(self).level.twr_supply.lava as int,
            }) {
                Option::<TowerType>::None
            } else {
                Some(*kind)
            }),
    {
        if towers.get_tower_count(kind) >= self.level.get_tower_supply(kind) {
            self.selected_tower_type = None;
            return ;
        }
        self.selected_tower_type = Some(*kind);
    }

    /// Raise the simulation speed one step, to five times at most.
    pub fn speed_up(&mut self)
        requires
            old(self).speed_milli <= 5000,
        ensures
            *final(self) == (World { speed_milli: final(self).speed_milli, ..*old(self) }),
            final(self).speed_milli == (if (old(self).speed_milli + 1000) / 1000 * 1000 >= 5000 {
                5000u32
            } else {
                ((old(self).speed_milli + 1000) as int / 1000 * 1000) as u32
            }),
    {
        let stepped = (self.speed_milli + 1000) / 1000 * 1000;
        self.speed_milli = if stepped >= 5000 {
            5000
        } else {
            stepped
        };
    }

    /// Lower the simulation speed one step, to half speed at least.
    pub fn speed_down(&mut self)
        ensures
            *final(self) == (World { speed_milli: final(self).speed_milli, ..*old(self) }),
            final(self).speed_milli == (if old(self).speed_milli >= 1500 {
                (old(self).speed_milli - 1000) as u32
            } else {
                500u32
            }),
    {
        self.speed_milli = if self.speed_milli >= 1500 {
            self.speed_milli - 1000
        } else {
            500
        };
    }

    /// One whole simulation tick, in order: scale the elapsed time by the
    /// simulation speed and derive gravity; advance the wave scheduler one
    /// step and materialize a spawned actor; advance every structure's
    /// animation and emission; advance every actor's movement, dropping
    /// removed ones; advance every transient effect likewise; then
    /// materialize every collected effect request at its grid cell.  Health
    /// only ever decreases, by at most one per actor.
    pub fn update(
        &mut self,
        enemies: &mut Vec<Enemy>,
        towers: &mut Towers,
        effects: &mut Vec<Effects>,
        frame_ms: u32,
    )
        requires
            old(self).wf(),
            old(towers).wf(),
            old(self).frame < usize::MAX,
            forall|i: int| 0 <= i < old(enemies)@.len() ==> (#[trigger] old(enemies)@[i]).wf(),
            forall|i: int| 0 <= i < old(effects)@.len() ==> (#[trigger] old(effects)@[i]).wf(),
        ensures
            final(self).wf(),
            final(towers).wf(),
            final(self).frame == old(self).frame + 1,
            final(self).health <= old(self).health,
            final(self).tiles@ == old(self).tiles@,
            final(self).level.tiles@ == old(self).level.tiles@,
            final(self).spawns@ == old(self).spawns@,
            final(self).speed_milli == old(self).speed_milli,
            final(self).selected_tower_type == old(self).selected_tower_type,
            final(self).mouse_grid == old(self).mouse_grid,
            final(self).dt_ms == (if frame_ms * old(self).speed_milli / 1000 > MAX_DT_MS {
                MAX_DT_MS as int
            } else {
                frame_ms * old(self).speed_milli / 1000
            }),
            final(self).gravity_mpx == GRAVITY_MILLI * 16 * final(self).dt_ms / 1000,
            // the scheduler took exactly one step
            ({
                let sp0 = old(self).level.spawner;
                let sp1 = final(self).level.spawner;
                let dtv = final(self).dt_ms;
                &&& sp1.total_to_spawn == sp0.total_to_spawn
                &&& (sp0.current_span_index >= sp0.spans@.len() ==> sp1.spans@ == sp0.spans@
                    && sp1.current_span_index == sp0.current_span_index && sp1.spawned
                    == sp0.spawned)
                &&& (sp0.current_span_index < sp0.spans@.len() ==> {
                    let idx = sp0.current_span_index as int;
                    let after = sp0.spans@[idx].spec_after(dtv);
                    &&& sp1.spans@ == sp0.spans@.update(idx, after)
                    &&& sp1.current_span_index == (if after.spawned >= sp0.spans@[idx].count {
                        idx + 1
                    } else {
                        idx
                    })
                    &&& sp1.spawned == sp0.spawned + (if sp0.spec_check_fires(dtv) {
                        1int
                    } else {
                        0int
                    })
                })
            }),
            // every structure slot advanced its animation, then its emission
            final(towers).towers@.len() == old(towers).towers@.len(),
            forall|i: int|
                0 <= i < old(towers).towers@.len() && (#[trigger] old(towers).towers@[i]) is Some
                    ==> final(towers).towers@[i] == Some(
                    old(towers).towers@[i]->Some_0.spec_after_anim(
                        final(self).dt_ms,
                    ).spec_after_emit(final(self).dt_ms),
                ),
            forall|i: int|
                0 <= i < old(towers).towers@.len() && (#[trigger] old(towers).towers@[i]) is None
                    ==> final(towers).towers@[i] is None,
            // every emission whose cell lies in the world was materialized
            ({
                let ems = crate::tower::spec_emissions(
                    crate::tower::spec_slots_after_anim(old(towers).towers@, final(self).dt_ms),
                    final(self).dt_ms,
                );
                forall|k: int|
                    0 <= k < ems.len() && (#[trigger] ems[k]).1.0 < MAX_COORD / CELL && ems[k].1.1
                        < MAX_COORD / CELL ==> exists|j: int|
                        0 <= j < final(effects)@.len() && final(effects)@[j]
                            == crate::effects::spec_materialize(ems[k])
            }),
            // actors advanced or pruned; at most the one scheduled spawn added
            final(enemies)@.len() <= old(enemies)@.len() + (if old(
                self,
            ).level.spawner.spec_check_fires(final(self).dt_ms) {
                1int
            } else {
                0int
            }),
            // each removed actor cost at most one health point
            old(self).health <= final(self).health + old(enemies)@.len() + 1,
            // effects advanced or pruned: each old effect leaves at most one
            // survivor and at most one successor request, on top of the
            // structures' emissions
            final(effects)@.len() <= 2 * old(effects)@.len() + crate::tower::spec_emissions(
                crate::tower::spec_slots_after_anim(old(towers).towers@, final(self).dt_ms),
                final(self).dt_ms,
            ).len(),
            forall|i: int| 0 <= i < final(enemies)@.len() ==> (#[trigger] final(enemies)@[i]).wf(),
            forall|i: int| 0 <= i < final(effects)@.len() ==> (#[trigger] final(effects)@[i]).wf(),
    {
        self.frame = self.frame + 1;
        proof {
            assert((frame_ms as int) * (self.speed_milli as int) <= 0xffff_ffff * 0xffff_ffff)
                by (nonlinear_arith)
                requires
                    frame_ms <= 0xffff_ffffu32,
                    self.speed_milli <= 0xffff_ffffu32,
            ;
        }
        let dt128 = frame_ms as u128 * self.speed_milli as u128 / 1000;
        let dt: u32 = if dt128 > MAX_DT_MS as u128 {
            MAX_DT_MS
        } else {
            dt128 as u32
        };
        self.dt_ms = dt;
        proof {
            assert(157920 * (dt as int) <= 789_600_000) by (nonlinear_arith)
                requires
                    dt <= 5000,
            ;
        }
        self.gravity_mpx = (GRAVITY_MILLI * 16 * dt as u64 / 1000) as u32;
        let ghost t0 = towers.towers@;
        let fired = self.level.spawner.check_spawn(dt);
        if fired {
            let e = crate::spawner::spawn(self);
            enemies.push(e);
        }
        towers.update(dt);
        proof {
            crate::tower::lemma_slots_after_anim(t0, dt);
            assert(towers.towers@ =~= crate::tower::spec_slots_after_anim(t0, dt));
        }
        let ghost t_anim = towers.towers@;
        let reqs = towers.get_spawns(dt);
        proof {
            assert forall|i: int|
                0 <= i < t0.len() && (#[trigger] t0[i]) is Some implies towers.towers@[i] == Some(
                t0[i]->Some_0.spec_after_anim(dt).spec_after_emit(dt),
            ) by {
                assert(t_anim[i] == Some(t0[i]->Some_0.spec_after_anim(dt)));
            }
            assert forall|i: int|
                0 <= i < t0.len() && (#[trigger] t0[i]) is None implies towers.towers@[i] is None by {
                assert(t_anim[i] is None);
            }
        }
        let ghost s1 = *self;
        let ghost n_ap = enemies@.len();
        let mut kept: Vec<Enemy> = Vec::new();
        while enemies.len() > 0
            invariant
                s1.wf(),
                *self == (World { health: self.health, ..s1 }),
                self.health <= s1.health,
                self.health + n_ap - enemies@.len() - kept@.len() >= s1.health,
                kept@.len() + enemies@.len() <= n_ap,
                towers.wf(),
                forall|i: int| 0 <= i < enemies@.len() ==> (#[trigger] enemies@[i]).wf(),
                forall|i: int| 0 <= i < kept@.len() ==> (#[trigger] kept@[i]).wf(),
            decreases enemies@.len(),
        {
            let mut e = enemies.remove(0);
            let keep = e.update(self, towers);
            if keep {
                kept.push(e);
            }
        }
        *enemies = kept;
        let ghost m0 = effects@.len();
        let mut kept_fx: Vec<Effects> = Vec::new();
        let mut fx_reqs: Vec<(EffectKind, (usize, usize))> = Vec::new();
        while effects.len() > 0
            invariant
                self.wf(),
                kept_fx@.len() + effects@.len() <= m0,
                fx_reqs@.len() + effects@.len() <= m0,
                forall|i: int| 0 <= i < effects@.len() ==> (#[trigger] effects@[i]).wf(),
                forall|i: int| 0 <= i < kept_fx@.len() ==> (#[trigger] kept_fx@[i]).wf(),
            decreases effects@.len(),
        {
            let mut fx = effects.remove(0);
            let ret = fx.update(self);
            match ret.spawn {
                Some(rq) => { fx_reqs.push(rq) },
                None => {},
            }
            if ret.keep {
                kept_fx.push(fx);
            }
        }
        *effects = kept_fx;
        let ghost klen = effects@.len();
        let mut i: usize = 0;
        while i < reqs.len()
            invariant
                i <= reqs@.len(),
                effects@.len() <= klen + i,
                forall|k: int| 0 <= k < effects@.len() ==> (#[trigger] effects@[k]).wf(),
                forall|k2: int|
                    0 <= k2 < i && (#[trigger] reqs@[k2]).1.0 < MAX_COORD / CELL && reqs@[k2].1.1
                        < MAX_COORD / CELL ==> exists|j: int|
                        0 <= j < effects@.len() && effects@[j] == crate::effects::spec_materialize(
                            reqs@[k2],
                        ),
            decreases reqs@.len() - i,
        {
            let (kind, gp) = reqs[i];
            let ghost eff_pre = effects@;
            if gp.0 < MAX_COORD / CELL && gp.1 < MAX_COORD / CELL {
                spawn_effect(effects, kind, gp);
                proof {
                    assert forall|k2: int|
                        0 <= k2 < i + 1 && (#[trigger] reqs@[k2]).1.0 < MAX_COORD / CELL
                            && reqs@[k2].1.1 < MAX_COORD / CELL implies exists|j: int|
                        0 <= j < effects@.len() && effects@[j] == crate::effects::spec_materialize(
                            reqs@[k2],
                        ) by {
                        if k2 < i {
                            let j0 = choose|j: int|
                                0 <= j < eff_pre.len() && eff_pre[j]
                                    == crate::effects::spec_materialize(reqs@[k2]);
                            assert(effects@[j0] == crate::effects::spec_materialize(reqs@[k2]));
                        } else {
                            assert(effects@[effects@.len() - 1]
                                == crate::effects::spec_materialize(reqs@[i as int]));
                        }
                    }
                }
            }
            i = i + 1;
        }
        let mut k: usize = 0;
        while k < fx_reqs.len()
            invariant
                k <= fx_reqs@.len(),
                effects@.len() <= klen + reqs@.len() + k,
                forall|j: int| 0 <= j < effects@.len() ==> (#[trigger] effects@[j]).wf(),
                forall|k2: int|
                    0 <= k2 < reqs@.len() && (#[trigger] reqs@[k2]).1.0 < MAX_COORD / CELL
                        && reqs@[k2].1.1 < MAX_COORD / CELL ==> exists|j: int|
                        0 <= j < effects@.len() && effects@[j] == crate::effects::spec_materialize(
                            reqs@[k2],
                        ),
            decreases fx_reqs@.len() - k,
        {
            let (kind, gp) = fx_reqs[k];
            let ghost eff_pre = effects@;
            if gp.0 < MAX_COORD / CELL && gp.1 < MAX_COORD / CELL {
                spawn_effect(effects, kind, gp);
                proof {
                    assert forall|k2: int|
                        0 <= k2 < reqs@.len() && (#[trigger] reqs@[k2]).1.0 < MAX_COORD / CELL
                            && reqs@[k2].1.1 < MAX_COORD / CELL implies exists|j: int|
                        0 <= j < effects@.len() && effects@[j] == crate::effects::spec_materialize(
                            reqs@[k2],
                        ) by {
                        let j0 = choose|j: int|
                            0 <= j < eff_pre.len() && eff_pre[j] == crate::effects::spec_materialize(
                                reqs@[k2],
                            );
                        assert(effects@[j0] == crate::effects::spec_materialize(reqs@[k2]));
                    }
                }
            }
            k = k + 1;
        }
    }
}

} // verus!
