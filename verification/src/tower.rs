use vstd::prelude::*;

use crate::effects::EffectKind;
use crate::tile::TileType;
use crate::emath::CELL;
use crate::rect::Collidable;
use crate::rect::Rect;
use crate::wrld::MAX_COORD;
use crate::wrld::World;

verus! {

/// How long an emitting structure waits between effect spawns, in
/// milliseconds.
pub const EMIT_PERIOD_MS: i64 = 3000;

/// The countdown an emitting structure starts with, in milliseconds.
pub const EMIT_INITIAL_MS: i64 = 1000;

#[derive(Debug, PartialEq, Eq, Structural, Clone, Copy)]
pub enum TowerType {
    BlockerDown,
    BlockerUp,
    Lava,
}

/// The direction a structure extends from its anchor cell.
#[derive(Debug, PartialEq, Eq, Structural, Clone, Copy)]
pub enum Dir {
    Up,
    Down,
}

/// Frame-cycle animation state: the current frame index, the frame count,
/// a countdown timer and the value it resets to, in milliseconds.
#[derive(Debug, Clone, Copy)]
pub struct FrameDrawing {
    pub frame: usize,
    pub count: usize,
    pub timer_ms: i64,
    pub timeout_ms: u32,
}

impl FrameDrawing {
    /// An animation is valid when it has at least one frame, its index never
    /// passes the count, and its countdown stays within its reset value.
    pub open spec fn wf(self) -> bool {
        &&& 1 <= self.count <= 0xffff
        &&& self.frame <= self.count
        &&& 0 <= self.timer_ms <= self.timeout_ms
        &&& self.timeout_ms <= 0x7fff_ffff
    }

    /// The animation state after one advance of `dt_ms` milliseconds, with
    /// the frame index stepping toward the last frame and stopping there.
    pub open spec fn spec_step(self, dt_ms: u32) -> FrameDrawing {
        if self.timer_ms - dt_ms <= 0 {
            FrameDrawing {
                frame: if self.frame < self.count {
                    (self.frame + 1) as usize
                } else {
                    self.frame
                },
                timer_ms: self.timeout_ms as i64,
                ..self
            }
        } else {
            FrameDrawing { timer_ms: (self.timer_ms - dt_ms) as i64, ..self }
        }
    }

    /// The animation state after one advance of `dt_ms` milliseconds, with
    /// the frame index wrapping around the frame count.
    pub open spec fn spec_cycle(self, dt_ms: u32) -> FrameDrawing {
        if self.timer_ms - dt_ms <= 0 {
            FrameDrawing {
                frame: ((self.frame + 1) as usize % self.count) as usize,
                timer_ms: self.timeout_ms as i64,
                ..self
            }
        } else {
            FrameDrawing { timer_ms: (self.timer_ms - dt_ms) as i64, ..self }
        }
    }

    pub fn new(count: usize, timer_ms: u32) -> (r: FrameDrawing)
        requires
            1 <= count <= 0xffff,
            timer_ms <= 0x7fff_ffff,
        ensures
            r == (FrameDrawing { count, frame: 0, timer_ms: timer_ms as i64, timeout_ms: timer_ms }),
            r.wf(),
    {
        FrameDrawing { count, frame: 0, timer_ms: timer_ms as i64, timeout_ms: timer_ms }
    }

    pub fn reset_timer(&mut self)
        ensures
            *final(self) == (FrameDrawing { timer_ms: old(self).timeout_ms as i64, ..*old(self) }),
    {
        self.timer_ms = self.timeout_ms as i64;
    }

    /// Whether the animation has reached its last frame.
    pub fn is_end(&self) -> (b: bool)
        requires
            self.wf(),
        ensures
            b == (self.frame + 1 >= self.count),
    {
        self.frame + 1 >= self.count
    }

    /// Count down by `dt_ms`; on expiry reset the countdown and step the
    /// frame index toward the last frame, stopping there.
    pub fn advance_frames(&mut self, dt_ms: u32)
        requires
            old(self).wf(),
        ensures
            final(self).wf(),
            *final(self) == old(self).spec_step(dt_ms),
    {
        let t = self.timer_ms - dt_ms as i64;
        if t <= 0 {
            self.reset_timer();
            if self.frame < self.count {
                self.frame = self.frame + 1;
            }
        } else {
            self.timer_ms = t;
        }
    }

    /// Count down by `dt_ms`; on expiry reset the countdown and step the
    /// frame index, wrapping around the frame count.
    pub fn advance_cycle(&mut self, dt_ms: u32)
        requires
            old(self).wf(),
        ensures
            final(self).wf(),
            *final(self) == old(self).spec_cycle(dt_ms),
    {
        let t = self.timer_ms - dt_ms as i64;
        if t <= 0 {
            self.reset_timer();
            self.frame = (self.frame + 1) % self.count;
        } else {
            self.timer_ms = t;
        }
    }
}

/// What a periodically emitting structure is about to release: the effect
/// kind, the grid cell it appears in, and the countdown until the next
/// release, in milliseconds.
#[derive(Debug, Clone, Copy)]
pub struct EffectSpawnData {
    pub timer_ms: i64,
    pub kind: EffectKind,
    pub pos: (usize, usize),
}

impl EffectSpawnData {
    pub fn reset_timer(&mut self)
        ensures
            *final(self) == (EffectSpawnData { timer_ms: EMIT_PERIOD_MS, ..*old(self) }),
    {
        self.timer_ms = EMIT_PERIOD_MS;
    }
}

/// A player-placed structure: its anchor cell, its kind, the pixel
/// rectangles it is drawn in and collides with, its animation state if it
/// has one, its direction, and its periodic emission state if it has one.
#[derive(Debug, Clone, Copy)]
pub struct Tower {
    pub grid_pos: (usize, usize),
    pub kind: TowerType,
    pub draw_pos: Rect,
    pub rect: Rect,
    pub trigger: Option<Rect>,
    pub atlas: Option<FrameDrawing>,
    pub direction: Dir,
    pub spawn: Option<EffectSpawnData>,
}

impl Tower {
    pub open spec fn wf(self) -> bool {
        &&& (self.atlas matches Some(a) ==> a.wf())
        &&& (self.spawn matches Some(s) ==> 0 < s.timer_ms <= EMIT_PERIOD_MS && (s.pos.0 + 1)
            * CELL <= MAX_COORD && (s.pos.1 + 1) * CELL <= MAX_COORD)
    }

    /// Whether this structure fires an emission when advanced by `dt_ms`.
    pub open spec fn spec_emits(self, dt_ms: u32) -> bool {
        self.spawn matches Some(s) && s.timer_ms - dt_ms <= 0
    }

    /// The structure's emission state after an advance of `dt_ms`.
    pub open spec fn spec_after_emit(self, dt_ms: u32) -> Tower {
        match self.spawn {
            Some(s) => {
                if s.timer_ms - dt_ms <= 0 {
                    Tower { spawn: Some(EffectSpawnData { timer_ms: EMIT_PERIOD_MS, ..s }), ..self }
                } else {
                    Tower {
                        spawn: Some(EffectSpawnData { timer_ms: (s.timer_ms - dt_ms) as i64, ..s }),
                        ..self
                    }
                }
            },
            None => self,
        }
    }

    /// Advance the structure's emission countdown by `dt_ms`; when it
    /// elapses, reset it and report the effect to spawn.
    pub fn get_spawn(&mut self, dt_ms: u32) -> (r: Option<(EffectKind, (usize, usize))>)
        requires
            old(self).wf(),
        ensures
            final(self).wf(),
            *final(self) == old(self).spec_after_emit(dt_ms),
            old(self).spec_emits(dt_ms) ==> (old(self).spawn matches Some(s) && r == Some(
                (s.kind, s.pos),
            )),
            !old(self).spec_emits(dt_ms) ==> r is None,
    {
        match &mut self.spawn {
            Some(s) => {
                let t = s.timer_ms - dt_ms as i64;
                if t <= 0 {
                    s.reset_timer();
                    Some((s.kind, s.pos))
                } else {
                    s.timer_ms = t;
                    None
                }
            },
            None => None,
        }
    }

    /// The structure a given kind places at a given anchor cell: blockers
    /// extend two cells away from their anchor and block movement; a lava
    /// tower animates and periodically emits a drop into the cell below.
    pub open spec fn spec_new(kind: TowerType, grid_pos: (usize, usize)) -> Tower {
        let px = (grid_pos.0 * CELL) as usize;
        let py = (grid_pos.1 * CELL) as usize;
        match kind {
            TowerType::BlockerDown => Tower {
                grid_pos,
                kind,
                draw_pos: Rect {
                    left: (grid_pos.0 * CELL) as usize,
                    top: ((grid_pos.1 + 1) * CELL) as usize,
                    right: ((grid_pos.0 + 1) * CELL) as usize,
                    bottom: ((grid_pos.1 + 3) * CELL) as usize,
                },
                rect: Rect {
                    left: px,
                    top: (py + CELL) as usize,
                    right: (px + CELL) as usize,
                    bottom: (py + 3 * CELL) as usize,
                },
                trigger: None,
                atlas: None,
                direction: Dir::Down,
                spawn: None,
            },
            TowerType::BlockerUp => Tower {
                grid_pos,
                kind,
                draw_pos: Rect {
                    left: (grid_pos.0 * CELL) as usize,
                    top: ((grid_pos.1 - 2) * CELL) as usize,
                    right: ((grid_pos.0 + 1) * CELL) as usize,
                    bottom: (grid_pos.1 * CELL) as usize,
                },
                rect: Rect {
                    left: px,
                    top: (py - 2 * CELL) as usize,
                    right: (px + CELL) as usize,
                    bottom: py,
                },
                trigger: None,
                atlas: None,
                direction: Dir::Up,
                spawn: None,
            },
            TowerType::Lava => Tower {
                grid_pos,
                kind,
                draw_pos: Rect {
                    left: (grid_pos.0 * CELL) as usize,
                    top: (grid_pos.1 * CELL + 20) as usize,
                    right: ((grid_pos.0 + 1) * CELL) as usize,
                    bottom: ((grid_pos.1 + 1) * CELL + 20) as usize,
                },
                rect: Rect {
                    left: px,
                    top: (py + CELL) as usize,
                    right: (px + CELL) as usize,
                    bottom: (py + 2 * CELL) as usize,
                },
                trigger: None,
                atlas: Some(FrameDrawing { frame: 0, count: 2, timer_ms: 400, timeout_ms: 400 }),
                direction: Dir::Down,
                spawn: Some(
                    EffectSpawnData {
                        kind: EffectKind::LavaDrop,
                        pos: (grid_pos.0, (grid_pos.1 + 1) as usize),
                        timer_ms: EMIT_INITIAL_MS,
                    },
                ),
            },
        }
    }

    pub fn new(kind: TowerType, grid_pos: (usize, usize)) -> (t: Tower)
        requires
            (grid_pos.0 + 1) * CELL <= MAX_COORD,
            (grid_pos.1 + 3) * CELL <= MAX_COORD,
            kind == TowerType::BlockerUp ==> grid_pos.1 >= 2,
        ensures
            t == Tower::spec_new(kind, grid_pos),
            t.wf(),
    {
        let px = grid_pos.0 * CELL;
        let py = grid_pos.1 * CELL;
        match kind {
            TowerType::BlockerDown => Tower {
                grid_pos,
                kind,
                draw_pos: Rect::new(
                    grid_pos.0 * CELL,
                    (grid_pos.1 + 1) * CELL,
                    (grid_pos.0 + 1) * CELL,
                    (grid_pos.1 + 3) * CELL,
                ),
                rect: Rect::new(px, py + CELL, px + CELL, py + 3 * CELL),
                trigger: None,
                atlas: None,
                direction: Dir::Down,
                spawn: None,
            },
            TowerType::BlockerUp => Tower {
                grid_pos,
                kind,
                draw_pos: Rect::new(
                    grid_pos.0 * CELL,
                    (grid_pos.1 - 2) * CELL,
                    (grid_pos.0 + 1) * CELL,
                    grid_pos.1 * CELL,
                ),
                rect: Rect::new(px, py - 2 * CELL, px + CELL, py),
                trigger: None,
                atlas: None,
                direction: Dir::Up,
                spawn: None,
            },
            TowerType::Lava => Tower {
                grid_pos,
                kind,
                draw_pos: Rect::new(
                    grid_pos.0 * CELL,
                    grid_pos.1 * CELL + 20,
                    (grid_pos.0 + 1) * CELL,
                    (grid_pos.1 + 1) * CELL + 20,
                ),
                rect: Rect::new(px, py + CELL, px + CELL, py + 2 * CELL),
                trigger: None,
                atlas: Some(FrameDrawing::new(2, 400)),
                direction: Dir::Down,
                spawn: Some(
                    EffectSpawnData {
                        kind: EffectKind::LavaDrop,
                        pos: (grid_pos.0, grid_pos.1 + 1),
                        timer_ms: EMIT_INITIAL_MS,
                    },
                ),
            },
        }
    }
}

impl Collidable for Tower {
    open spec fn spec_hitbox(&self) -> Rect {
        self.rect
    }

    /// Only blockers stop movement; other structures never collide.
    open spec fn spec_collide(&self, other: Rect) -> bool {
        match self.kind {
            TowerType::BlockerDown | TowerType::BlockerUp => self.rect.spec_intersecting(other),
            _ => false,
        }
    }

    fn get_hitbox(&self) -> (r: &Rect) {
        &self.rect
    }

    fn collide(&self, other: &Rect) -> (b: bool) {
        match self.kind {
            TowerType::BlockerDown | TowerType::BlockerUp => self.rect.intersecting(other),
            _ => false,
        }
    }
}

/// Every structure on the level, one optional slot per grid cell.
pub struct Towers {
    pub towers: Vec<Option<Tower>>,
}

/// The emissions a sequence of structure slots releases when advanced by
/// `dt_ms`, in slot order.
pub open spec fn spec_emissions(s: Seq<Option<Tower>>, dt_ms: u32) -> Seq<
    (EffectKind, (usize, usize)),
>
    decreases s.len(),
{
    if s.len() == 0 {
        Seq::empty()
    } else {
        let rest = spec_emissions(s.drop_last(), dt_ms);
        match s.last() {
            Some(t) => {
                if t.spec_emits(dt_ms) && t.spawn is Some {
                    rest.push((t.spawn->Some_0.kind, t.spawn->Some_0.pos))
                } else {
                    rest
                }
            },
            None => rest,
        }
    }
}

impl Towers {
    pub open spec fn wf(self) -> bool {
        forall|i: int|
            0 <= i < self.towers@.len() && (#[trigger] self.towers@[i]) is Some
                ==> self.towers@[i]->Some_0.wf()
    }

    /// Whether some structure in these slots collides with `r`.
    pub open spec fn spec_hit(self, r: Rect) -> bool {
        exists|i: int|
            0 <= i < self.towers@.len() && (#[trigger] self.towers@[i]) is Some
                && self.towers@[i]->Some_0.spec_collide(r)
    }

    pub fn new(wrld: &World) -> (r: Towers)
        ensures
            r.towers@.len() == wrld.tiles@.len(),
            forall|i: int| 0 <= i < r.towers@.len() ==> (#[trigger] r.towers@[i]) is None,
            r.wf(),
    {
        let n = wrld.tiles.len();
        let mut towers: Vec<Option<Tower>> = Vec::new();
        let mut i: usize = 0;
        while i < n
            invariant
                i <= n,
                towers@.len() == i,
                forall|k: int| 0 <= k < i ==> (#[trigger] towers@[k]) is None,
            decreases n - i,
        {
            towers.push(None);
            i = i + 1;
        }
        Towers { towers }
    }

    /// The first structure whose collision rectangle intersects `other`, if
    /// any blocker does.
    pub fn get_collided_tower(&self, other: &Rect) -> (r: Option<&Tower>)
        ensures
            r is Some <==> self.spec_hit(*other),
            r matches Some(t) ==> t.spec_collide(*other) && (exists|i: int|
                0 <= i < self.towers@.len() && #[trigger] self.towers@[i] == Some(*t)),
    {
        let n = self.towers.len();
        let mut i: usize = 0;
        while i < n
            invariant
                i <= n,
                n == self.towers@.len(),
                forall|k: int|
                    0 <= k < i && (#[trigger] self.towers@[k]) is Some
                        ==> !self.towers@[k]->Some_0.spec_collide(*other),
            decreases n - i,
        {
            match &self.towers[i] {
                Some(t) => {
                    if t.collide(other) {
                        return Some(t);
                    }
                },
                None => {},
            }
            i = i + 1;
        }
        None
    }

    /// The direction a structure kind extends in.
    pub fn tower_dir(kind: &TowerType) -> (d: Dir)
        ensures
            d == spec_tower_dir(*kind),
    {
        match kind {
            TowerType::BlockerDown => Dir::Down,
            TowerType::BlockerUp => Dir::Up,
            TowerType::Lava => Dir::Down,
        }
    }

    /// How many structures of the given kind stand on the level.
    pub fn get_tower_count(&self, kind: &TowerType) -> (c: usize)
        ensures
            c == spec_count_kind(self.towers@, *kind),
    {
        let n = self.towers.len();
        let mut c: usize = 0;
        let mut i: usize = 0;
        while i < n
            invariant
                i <= n,
                n == self.towers@.len(),
                c == spec_count_kind(self.towers@.take(i as int), *kind),
                c <= i,
            decreases n - i,
        {
            proof {
                assert(self.towers@.take(i + 1).drop_last() =~= self.towers@.take(i as int));
                lemma_count_kind_le(self.towers@.take(i + 1), *kind);
            }
            match &self.towers[i] {
                Some(t) => {
                    if t.kind == *kind {
                        c = c + 1;
                    }
                },
                None => {},
            }
            i = i + 1;
        }
        proof {
            assert(self.towers@.take(n as int) =~= self.towers@);
        }
        c
    }

    /// Advance every emitting structure by `dt_ms` and collect the effects
    /// they release, in slot order.
    pub fn get_spawns(&mut self, dt_ms: u32) -> (r: Vec<(EffectKind, (usize, usize))>)
        requires
            old(self).wf(),
        ensures
            final(self).wf(),
            final(self).towers@.len() == old(self).towers@.len(),
            forall|i: int|
                0 <= i < old(self).towers@.len() && (#[trigger] old(self).towers@[i]) is Some
                    ==> final(self).towers@[i] == Some(
                    old(self).towers@[i]->Some_0.spec_after_emit(dt_ms),
                ),
            forall|i: int|
                0 <= i < old(self).towers@.len() && (#[trigger] old(self).towers@[i]) is None
                    ==> final(self).towers@[i] is None,
            r@ == spec_emissions(old(self).towers@, dt_ms),
    {
        let n = self.towers.len();
        let ghost orig = self.towers@;
        let mut r: Vec<(EffectKind, (usize, usize))> = Vec::new();
        let mut i: usize = 0;
        while i < n
            invariant
                i <= n,
                n == self.towers@.len(),
                self.towers@.len() == orig.len(),
                forall|k: int|
                    0 <= k < n && (#[trigger] orig[k]) is Some ==> orig[k]->Some_0.wf(),
                forall|k: int| i <= k < n ==> (#[trigger] self.towers@[k]) == orig[k],
                forall|k: int|
                    0 <= k < i && (#[trigger] orig[k]) is Some ==> self.towers@[k] == Some(
                        orig[k]->Some_0.spec_after_emit(dt_ms),
                    ) && orig[k]->Some_0.spec_after_emit(dt_ms).wf(),
                forall|k: int|
                    0 <= k < i && (#[trigger] orig[k]) is None ==> self.towers@[k] is None,
                r@ == spec_emissions(orig.take(i as int), dt_ms),
            decreases n - i,
        {
            proof {
                assert(orig.take(i + 1).drop_last() =~= orig.take(i as int));
                assert(orig.take(i + 1).last() == orig[i as int]);
            }
            match self.towers[i] {
                Some(mut t) => {
                    let got = t.get_spawn(dt_ms);
                    self.towers.set(i, Some(t));
                    match got {
                        Some(e) => { r.push(e) },
                        None => {},
                    }
                },
                None => {},
            }
            i = i + 1;
        }
        proof {
            assert(orig.take(n as int) =~= orig);
            assert forall|k: int|
                0 <= k < self.towers@.len() && (#[trigger] self.towers@[k]) is Some implies self.towers@[k]->Some_0.wf() by {
                assert(0 <= k < orig.len());
                assert(orig[k] is Some || orig[k] is None);
            }
        }
        r
    }

    /// Advance every structure's animation state by `dt_ms`.
    pub fn update(&mut self, dt_ms: u32)
        requires
            old(self).wf(),
        ensures
            final(self).wf(),
            final(self).towers@.len() == old(self).towers@.len(),
            forall|i: int|
                0 <= i < old(self).towers@.len() && (#[trigger] old(self).towers@[i]) is Some
                    ==> final(self).towers@[i] == Some(
                    old(self).towers@[i]->Some_0.spec_after_anim(dt_ms),
                ),
            forall|i: int|
                0 <= i < old(self).towers@.len() && (#[trigger] old(self).towers@[i]) is None
                    ==> final(self).towers@[i] is None,
    {
        let n = self.towers.len();
        let ghost orig = self.towers@;
        let mut i: usize = 0;
        while i < n
            invariant
                i <= n,
                n == self.towers@.len(),
                self.towers@.len() == orig.len(),
                forall|k: int|
                    0 <= k < n && (#[trigger] orig[k]) is Some ==> orig[k]->Some_0.wf(),
                forall|k: int| i <= k < n ==> (#[trigger] self.towers@[k]) == orig[k],
                forall|k: int|
                    0 <= k < i && (#[trigger] orig[k]) is Some ==> self.towers@[k] == Some(
                        orig[k]->Some_0.spec_after_anim(dt_ms),
                    ) && orig[k]->Some_0.spec_after_anim(dt_ms).wf(),
                forall|k: int|
                    0 <= k < i && (#[trigger] orig[k]) is None ==> self.towers@[k] is None,
            decreases n - i,
        {
            match self.towers[i] {
                Some(mut t) => {
                    match &mut t.atlas {
                        Some(a) => { a.advance_cycle(dt_ms) },
                        None => {},
                    }
                    self.towers.set(i, Some(t));
                },
                None => {},
            }
            i = i + 1;
        }
        proof {
            assert forall|k: int|
                0 <= k < self.towers@.len() && (#[trigger] self.towers@[k]) is Some implies self.towers@[k]->Some_0.wf() by {
                assert(0 <= k < orig.len());
                assert(orig[k] is Some || orig[k] is None);
            }
        }
    }

    /// The placement decision for one click: on a buildable tile whose
    /// build direction matches the selected kind, with the slot still free,
    /// place the structure there.
    pub fn try_place(
        &mut self,
        tile_kind: &TileType,
        tile_index: usize,
        grid_pos: (usize, usize),
        selected: TowerType,
    ) -> (placed: bool)
        requires
            old(self).wf(),
            tile_index < old(self).towers@.len(),
            (grid_pos.0 + 1) * CELL <= MAX_COORD,
            (grid_pos.1 + 3) * CELL <= MAX_COORD,
            spec_tower_dir(selected) == Dir::Up ==> grid_pos.1 >= 2,
        ensures
            final(self).wf(),
            placed <==> (old(self).towers@[tile_index as int] is None && ((*tile_kind
                == TileType::BuildDown && spec_tower_dir(selected) == Dir::Down) || (
            *tile_kind == TileType::BuildUp && spec_tower_dir(selected) == Dir::Up))),
            placed ==> final(self).towers@ == old(self).towers@.update(
                tile_index as int,
                Some(Tower::spec_new(selected, grid_pos)),
            ),
            !placed ==> final(self).towers@ == old(self).towers@,
    {
        let buildable = *tile_kind == TileType::BuildDown || *tile_kind == TileType::BuildUp;
        if !buildable {
            return false;
        }
        if self.towers[tile_index].is_some() {
            return false;
        }
        let is_valid = match Towers::tower_dir(&selected) {
            Dir::Up => *tile_kind == TileType::BuildUp,
            Dir::Down => *tile_kind == TileType::BuildDown,
        };
        if is_valid {
            let t = Tower::new(selected, grid_pos);
            self.towers.set(tile_index, Some(t));
            return true;
        }
        false
    }
}

impl Tower {
    /// The structure's state after one animation advance of `dt_ms`.
    pub open spec fn spec_after_anim(self, dt_ms: u32) -> Tower {
        match self.atlas {
            Some(a) => Tower { atlas: Some(a.spec_cycle(dt_ms)), ..self },
            None => self,
        }
    }
}

/// The direction a structure kind extends in.
pub open spec fn spec_tower_dir(kind: TowerType) -> Dir {
    match kind {
        TowerType::BlockerDown => Dir::Down,
        TowerType::BlockerUp => Dir::Up,
        TowerType::Lava => Dir::Down,
    }
}

/// How many filled slots hold a structure of kind `k`.
pub open spec fn spec_count_kind(s: Seq<Option<Tower>>, k: TowerType) -> int
    decreases s.len(),
{
    if s.len() == 0 {
        0
    } else {
        spec_count_kind(s.drop_last(), k) + (match s.last() {
            Some(t) => {
                if t.kind == k {
                    1int
                } else {
                    0int
                }
            },
            None => 0int,
        })
    }
}

/// The kind count of a slot sequence never exceeds its length.
proof fn lemma_count_kind_le(s: Seq<Option<Tower>>, k: TowerType)
    ensures
        0 <= spec_count_kind(s, k) <= s.len(),
    decreases s.len(),
{
    if s.len() > 0 {
        lemma_count_kind_le(s.drop_last(), k);
    }
}


/// Every slot's structure after one animation advance of `dt_ms`.
pub open spec fn spec_slots_after_anim(s: Seq<Option<Tower>>, dt_ms: u32) -> Seq<Option<Tower>>
    decreases s.len(),
{
    if s.len() == 0 {
        Seq::empty()
    } else {
        spec_slots_after_anim(s.drop_last(), dt_ms).push(
            match s.last() {
                Some(t) => Some(t.spec_after_anim(dt_ms)),
                None => None,
            },
        )
    }
}

/// The animation advance of a slot sequence acts pointwise.
pub proof fn lemma_slots_after_anim(s: Seq<Option<Tower>>, dt_ms: u32)
    ensures
        spec_slots_after_anim(s, dt_ms).len() == s.len(),
        forall|i: int|
            0 <= i < s.len() ==> spec_slots_after_anim(s, dt_ms)[i] == (match s[i] {
                Some(t) => Some(t.spec_after_anim(dt_ms)),
                None => None,
            }),
    decreases s.len(),
{
    if s.len() > 0 {
        lemma_slots_after_anim(s.drop_last(), dt_ms);
    }
}

} // verus!
