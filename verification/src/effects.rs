use vstd::prelude::*;

use crate::emath::CELL;
use crate::enemy::tile_hit;
use crate::rect::Collidable;
use crate::rect::Rect;
use crate::tower::FrameDrawing;
use crate::wrld::MAX_COORD;
use crate::wrld::World;

verus! {

/// The kinds of transient effect the simulation can hold.
#[derive(Debug, PartialEq, Eq, Structural, Clone, Copy)]
pub enum EffectKind {
    LavaDrop,
    LavaSplash,
}

/// What one effect tick reports back: whether the effect stays alive, and
/// an optional request to materialize a successor effect at a grid cell.
pub struct EffectUpdateReturn {
    pub spawn: Option<(EffectKind, (usize, usize))>,
    pub keep: bool,
}

impl EffectUpdateReturn {
    pub fn new(keep: bool, spawn: Option<(EffectKind, (usize, usize))>) -> (r: EffectUpdateReturn)
        ensures
            r.keep == keep,
            r.spawn == spawn,
    {
        EffectUpdateReturn { spawn, keep }
    }

    pub fn keep() -> (r: EffectUpdateReturn)
        ensures
            r.keep == true,
            r.spawn is None,
    {
        EffectUpdateReturn { spawn: None, keep: true }
    }

    /// Returns keep: false and spawn: none.
    pub fn abandon() -> (r: EffectUpdateReturn)
        ensures
            r.keep == false,
            r.spawn is None,
    {
        EffectUpdateReturn { spawn: None, keep: false }
    }
}

/// The falling hazard's box shifted one pixel down from position `pos`.
pub open spec fn drop_down_rect(pos: (usize, usize)) -> Rect {
    Rect {
        left: pos.0,
        top: (pos.1 + 1) as usize,
        right: (pos.0 + CELL) as usize,
        bottom: (pos.1 + CELL + 1) as usize,
    }
}

/// Whether the tile in the hazard's own column, one grid row below its
/// shifted box, collides with that box and so stops a one-pixel fall.
pub open spec fn drop_fall_hit(w: World, pos: (usize, usize)) -> bool {
    let r = drop_down_rect(pos);
    let gx = pos.0 as int / CELL as int;
    let gy = (pos.1 + 1) as int / CELL as int;
    tile_hit(w, gx, gy + 1, r)
}

/// A falling hazard: its kind tag, pixel position, sub-pixel accumulator in
/// thousandths of a pixel, absolute hitbox, draw offsets, and an unused
/// animation slot.
pub struct LavaDrop {
    pub kind: EffectKind,
    pub pos: (usize, usize),
    pub sub_y: i64,
    pub draw_pos: Rect,
    pub atlas: Option<FrameDrawing>,
    pub hitbox: Rect,
}

/// The hazard a spawn request at grid cell `grid_pos` materializes.
pub open spec fn spec_new_drop(grid_pos: (usize, usize)) -> LavaDrop {
    let px = (grid_pos.0 * CELL) as usize;
    let py = (grid_pos.1 * CELL) as usize;
    LavaDrop {
        kind: EffectKind::LavaDrop,
        pos: (px, py),
        sub_y: (py * 1000) as i64,
        hitbox: Rect { left: px, top: py, right: (px + CELL) as usize, bottom: (py + CELL) as usize },
        draw_pos: Rect { left: 8, top: 10, right: 24, bottom: 38 },
        atlas: None,
    }
}

impl LavaDrop {
    /// A hazard is valid when its position lies in the world, its hitbox is
    /// the cell-sized box at its position, and its accumulator sits within
    /// one pixel of its position.
    pub open spec fn wf(self) -> bool {
        &&& self.pos.0 <= MAX_COORD
        &&& self.pos.1 <= MAX_COORD
        &&& self.hitbox.left == self.pos.0
        &&& self.hitbox.top == self.pos.1
        &&& self.hitbox.right == self.pos.0 + CELL
        &&& self.hitbox.bottom == self.pos.1 + CELL
        &&& self.pos.1 * 1000 <= self.sub_y <= self.pos.1 * 1000 + 1000
        &&& self.draw_pos.wf()
        &&& self.draw_pos.right <= 1024
        &&& self.draw_pos.bottom <= 1024
    }

    pub fn new(grid_pos: (usize, usize)) -> (d: LavaDrop)
        requires
            (grid_pos.0 + 1) * CELL <= MAX_COORD,
            (grid_pos.1 + 1) * CELL <= MAX_COORD,
        ensures
            d == spec_new_drop(grid_pos),
            d.wf(),
    {
        let pos = crate::emath::grid_pos_to_pos(&grid_pos);
        LavaDrop {
            kind: EffectKind::LavaDrop,
            pos,
            sub_y: (pos.1 as i64) * 1000,
            hitbox: Rect::new(pos.0, pos.1, pos.0 + CELL, pos.1 + CELL),
            draw_pos: Rect::new(8, 10, 24, 38),
            atlas: None,
        }
    }

    /// Fall one pixel at a time, checking the tile below the hazard's own
    /// column at every pixel.  Returns false when a tile (or the world
    /// edge) stops the fall.  The sub-pixel accumulator is persistent:
    /// gravity smaller than one pixel per tick carries over to later ticks.
    fn move_y(&mut self, wrld: &World) -> (falling: bool)
        requires
            old(self).wf(),
            wrld.wf(),
        ensures
            final(self).kind == old(self).kind,
            final(self).draw_pos == old(self).draw_pos,
            final(self).atlas == old(self).atlas,
            final(self).pos.0 == old(self).pos.0,
            old(self).pos.1 <= final(self).pos.1 <= MAX_COORD,
            final(self).hitbox.left == final(self).pos.0,
            final(self).hitbox.top == final(self).pos.1,
            final(self).hitbox.right == final(self).pos.0 + CELL,
            final(self).hitbox.bottom == final(self).pos.1 + CELL,
            forall|j: usize|
                old(self).pos.1 <= j < final(self).pos.1 ==> !#[trigger] drop_fall_hit(
                    *wrld,
                    (old(self).pos.0, j),
                ),
            !falling ==> drop_fall_hit(*wrld, final(self).pos) || final(self).pos.1 == MAX_COORD,
            falling ==> final(self).sub_y == old(self).sub_y + wrld.gravity_mpx
                && final(self).sub_y <= final(self).pos.1 * 1000 + 1000 && final(self).wf(),
    {
        let ghost e0 = *self;
        let g = wrld.get_scaled_gravity();
        self.sub_y = self.sub_y + g as i64;
        let mut falling = true;
        while self.sub_y - (self.pos.1 as i64) * 1000 > 1000
            invariant_except_break
                e0 == *old(self),
                self.kind == e0.kind,
                self.draw_pos == e0.draw_pos,
                self.atlas == e0.atlas,
                self.pos.0 == e0.pos.0,
                e0.pos.1 <= self.pos.1 <= MAX_COORD,
                self.hitbox.left == self.pos.0,
                self.hitbox.top == self.pos.1,
                self.hitbox.right == self.pos.0 + CELL,
                self.hitbox.bottom == self.pos.1 + CELL,
                self.sub_y == e0.sub_y + g,
                self.pos.1 * 1000 <= self.sub_y,
                e0.wf(),
                g <= 1_000_000,
                wrld.wf(),
                falling == true,
                forall|j: usize|
                    e0.pos.1 <= j < self.pos.1 ==> !#[trigger] drop_fall_hit(
                        *wrld,
                        (e0.pos.0, j),
                    ),
            ensures
                self.kind == e0.kind,
                self.draw_pos == e0.draw_pos,
                self.atlas == e0.atlas,
                self.pos.0 == e0.pos.0,
                e0.pos.1 <= self.pos.1 <= MAX_COORD,
                self.hitbox.left == self.pos.0,
                self.hitbox.top == self.pos.1,
                self.hitbox.right == self.pos.0 + CELL,
                self.hitbox.bottom == self.pos.1 + CELL,
                forall|j: usize|
                    e0.pos.1 <= j < self.pos.1 ==> !#[trigger] drop_fall_hit(
                        *wrld,
                        (e0.pos.0, j),
                    ),
                falling ==> self.sub_y == e0.sub_y + g && self.pos.1 * 1000 <= self.sub_y
                    <= self.pos.1 * 1000 + 1000,
                !falling ==> drop_fall_hit(*wrld, self.pos) || self.pos.1 == MAX_COORD,
            decreases self.sub_y - self.pos.1 * 1000,
        {
            let rect = Rect::new(
                self.hitbox.left,
                self.hitbox.top + 1,
                self.hitbox.right,
                self.hitbox.bottom + 1,
            );
            proof {
                assert(rect == drop_down_rect(self.pos));
            }
            let tl = rect.tl();
            let rect_grid = crate::emath::pos_to_grid_pos(&tl);
            if let Some(t) = wrld.get_tile(&rect_grid.0, &(rect_grid.1 + 1)) {
                if t.collide(&rect) {
                    falling = false;
                    break ;
                }
            }
            proof {
                assert(!drop_fall_hit(*wrld, self.pos));
            }
            if self.pos.1 >= MAX_COORD {
                falling = false;
                break ;
            }
            self.pos.1 = self.pos.1 + 1;
            self.hitbox.top = self.hitbox.top + 1;
            self.hitbox.bottom = self.hitbox.bottom + 1;
        }
        falling
    }

    /// One tick of the hazard: keep falling, or, on landing, request one
    /// splash at the landing grid cell and leave the simulation.
    pub fn update(&mut self, wrld: &World) -> (r: EffectUpdateReturn)
        requires
            old(self).wf(),
            wrld.wf(),
        ensures
            final(self).pos.0 == old(self).pos.0,
            old(self).pos.1 <= final(self).pos.1 <= MAX_COORD,
            forall|j: usize|
                old(self).pos.1 <= j < final(self).pos.1 ==> !#[trigger] drop_fall_hit(
                    *wrld,
                    (old(self).pos.0, j),
                ),
            !r.keep ==> r.spawn == Some(
                (EffectKind::LavaSplash, (final(self).pos.0 / CELL, final(self).pos.1 / CELL)),
            ) && (drop_fall_hit(*wrld, final(self).pos) || final(self).pos.1 == MAX_COORD),
            r.keep ==> r.spawn is None && final(self).wf() && final(self).sub_y == old(self).sub_y
                + wrld.gravity_mpx && final(self).sub_y <= final(self).pos.1 * 1000 + 1000,
    {
        let falling = self.move_y(wrld);
        if !falling {
            let grid = crate::emath::pos_to_grid_pos(&self.pos);
            return EffectUpdateReturn::new(false, Some((EffectKind::LavaSplash, grid)));
        }
        EffectUpdateReturn::keep()
    }
}

impl Collidable for LavaDrop {
    open spec fn spec_hitbox(&self) -> Rect {
        self.hitbox
    }

    open spec fn spec_collide(&self, other: Rect) -> bool {
        self.hitbox.spec_intersecting(other)
    }

    fn get_hitbox(&self) -> (r: &Rect) {
        &self.hitbox
    }

    fn collide(&self, other: &Rect) -> (b: bool) {
        self.hitbox.intersecting(other)
    }
}

/// A splash: its kind tag, pixel position, hitbox, draw offsets, and its
/// frame-cycle animation, which decides how long it lives.
pub struct LavaSplash {
    pub kind: EffectKind,
    pub pos: (usize, usize),
    pub draw_pos: Rect,
    pub atlas: Option<FrameDrawing>,
    pub hitbox: Rect,
}

/// The number of animation frames a splash runs through.
pub const SPLASH_FRAMES: usize = 4;

/// How long each splash frame is shown, in milliseconds.
pub const SPLASH_FRAME_MS: u32 = 100;

/// The splash a spawn request at grid cell `grid_pos` materializes.
pub open spec fn spec_new_splash(grid_pos: (usize, usize)) -> LavaSplash {
    let px = (grid_pos.0 * CELL) as usize;
    let py = (grid_pos.1 * CELL) as usize;
    LavaSplash {
        kind: EffectKind::LavaSplash,
        pos: (px, py),
        hitbox: Rect { left: px, top: py, right: (px + CELL) as usize, bottom: (py + CELL) as usize },
        draw_pos: Rect { left: 0, top: 13, right: 32, bottom: 45 },
        atlas: Some(
            FrameDrawing {
                frame: 0,
                count: SPLASH_FRAMES,
                timer_ms: SPLASH_FRAME_MS as i64,
                timeout_ms: SPLASH_FRAME_MS,
            },
        ),
    }
}

impl LavaSplash {
    pub open spec fn wf(self) -> bool {
        &&& self.atlas matches Some(a) && a.wf()
        &&& self.pos.0 <= MAX_COORD
        &&& self.pos.1 <= MAX_COORD
        &&& self.draw_pos.wf()
        &&& self.draw_pos.right <= 1024
        &&& self.draw_pos.bottom <= 1024
    }

    pub fn new(grid_pos: (usize, usize)) -> (s: LavaSplash)
        requires
            (grid_pos.0 + 1) * CELL <= MAX_COORD,
            (grid_pos.1 + 1) * CELL <= MAX_COORD,
        ensures
            s == spec_new_splash(grid_pos),
            s.wf(),
    {
        let pos = crate::emath::grid_pos_to_pos(&grid_pos);
        LavaSplash {
            kind: EffectKind::LavaSplash,
            pos,
            hitbox: Rect::new(pos.0, pos.1, pos.0 + CELL, pos.1 + CELL),
            draw_pos: Rect::new(0, 13, 32, 45),
            atlas: Some(FrameDrawing::new(SPLASH_FRAMES, SPLASH_FRAME_MS)),
        }
    }

    /// One tick of the splash: advance its animation; once the last frame
    /// is reached the splash leaves the simulation.
    pub fn update(&mut self, wrld: &World) -> (r: EffectUpdateReturn)
        requires
            old(self).wf(),
        ensures
            r.spawn is None,
            final(self).kind == old(self).kind,
            final(self).pos == old(self).pos,
            final(self).hitbox == old(self).hitbox,
            final(self).draw_pos == old(self).draw_pos,
            old(self).atlas matches Some(a) ==> final(self).atlas == Some(
                a.spec_step(wrld.dt_ms),
            ) && r.keep == !(a.spec_step(wrld.dt_ms).frame + 1 >= a.spec_step(wrld.dt_ms).count),
            final(self).wf(),
    {
        match &mut self.atlas {
            Some(a) => {
                a.advance_frames(wrld.dt_ms);
                if a.is_end() {
                    EffectUpdateReturn::abandon()
                } else {
                    EffectUpdateReturn::keep()
                }
            },
            None => EffectUpdateReturn::abandon(),
        }
    }
}

impl Collidable for LavaSplash {
    open spec fn spec_hitbox(&self) -> Rect {
        self.hitbox
    }

    open spec fn spec_collide(&self, other: Rect) -> bool {
        self.hitbox.spec_intersecting(other)
    }

    fn get_hitbox(&self) -> (r: &Rect) {
        &self.hitbox
    }

    fn collide(&self, other: &Rect) -> (b: bool) {
        self.hitbox.intersecting(other)
    }
}

/// Every transient effect the simulation knows, as one closed set.
pub enum Effects {
    LavaDrop(LavaDrop),
    LavaSplash(LavaSplash),
}

impl Effects {
    pub open spec fn wf(self) -> bool {
        match self {
            Effects::LavaDrop(d) => d.wf(),
            Effects::LavaSplash(s) => s.wf(),
        }
    }

    /// The effect's live rectangle.
    pub open spec fn spec_rect(self) -> Rect {
        match self {
            Effects::LavaDrop(d) => d.hitbox,
            Effects::LavaSplash(s) => s.hitbox,
        }
    }

    /// The effect's pixel position.
    pub open spec fn spec_pos(self) -> (usize, usize) {
        match self {
            Effects::LavaDrop(d) => d.pos,
            Effects::LavaSplash(s) => s.pos,
        }
    }

    pub fn get_pos(&self) -> (p: &(usize, usize))
        ensures
            *p == self.spec_pos(),
    {
        match self {
            Effects::LavaDrop(d) => &d.pos,
            Effects::LavaSplash(s) => &s.pos,
        }
    }

    pub fn get_rect(&self) -> (r: &Rect)
        ensures
            *r == self.spec_rect(),
    {
        match self {
            Effects::LavaDrop(d) => &d.hitbox,
            Effects::LavaSplash(s) => &s.hitbox,
        }
    }

    pub fn get_kind(&self) -> (k: &EffectKind)
        ensures
            *k == (match *self {
                Effects::LavaDrop(d) => d.kind,
                Effects::LavaSplash(s) => s.kind,
            }),
    {
        match self {
            Effects::LavaDrop(d) => &d.kind,
            Effects::LavaSplash(s) => &s.kind,
        }
    }

    /// The rectangle the effect is drawn in: its draw offsets shifted by its
    /// position.
    pub fn get_draw_pos(&self) -> (r: Rect)
        requires
            self.wf(),
        ensures
            r.left == self.spec_pos().0 + (match *self {
                Effects::LavaDrop(d) => d.draw_pos.left,
                Effects::LavaSplash(s) => s.draw_pos.left,
            }),
            r.top == self.spec_pos().1 + (match *self {
                Effects::LavaDrop(d) => d.draw_pos.top,
                Effects::LavaSplash(s) => s.draw_pos.top,
            }),
            r.right == self.spec_pos().0 + (match *self {
                Effects::LavaDrop(d) => d.draw_pos.right,
                Effects::LavaSplash(s) => s.draw_pos.right,
            }),
            r.bottom == self.spec_pos().1 + (match *self {
                Effects::LavaDrop(d) => d.draw_pos.bottom,
                Effects::LavaSplash(s) => s.draw_pos.bottom,
            }),
    {
        match self {
            Effects::LavaDrop(d) => Rect::new(
                d.pos.0 + d.draw_pos.left,
                d.pos.1 + d.draw_pos.top,
                d.pos.0 + d.draw_pos.right,
                d.pos.1 + d.draw_pos.bottom,
            ),
            Effects::LavaSplash(s) => Rect::new(
                s.pos.0 + s.draw_pos.left,
                s.pos.1 + s.draw_pos.top,
                s.pos.0 + s.draw_pos.right,
                s.pos.1 + s.draw_pos.bottom,
            ),
        }
    }

    /// One tick of whichever effect this is.
    pub fn update(&mut self, wrld: &World) -> (r: EffectUpdateReturn)
        requires
            old(self).wf(),
            wrld.wf(),
        ensures
            *old(self) is LavaDrop <==> *final(self) is LavaDrop,
            *old(self) is LavaSplash <==> *final(self) is LavaSplash,
            r.keep ==> final(self).wf(),
            *old(self) is LavaSplash ==> r.spawn is None,
            *old(self) matches Effects::LavaSplash(sp) ==> (*final(self) matches Effects::LavaSplash(sp2)
                && sp2.pos == sp.pos && (sp.atlas matches Some(a) ==> sp2.atlas == Some(
                a.spec_step(wrld.dt_ms),
            ) && r.keep == !(a.spec_step(wrld.dt_ms).frame + 1 >= a.spec_step(wrld.dt_ms).count))),
            *old(self) is LavaDrop && !r.keep ==> r.spawn == Some(
                (
                    EffectKind::LavaSplash,
                    (final(self).spec_pos().0 / CELL, final(self).spec_pos().1 / CELL),
                ),
            ) && (drop_fall_hit(*wrld, final(self).spec_pos()) || final(self).spec_pos().1
                == MAX_COORD),
            r.keep && *old(self) is LavaDrop ==> r.spawn is None,
            *old(self) matches Effects::LavaDrop(d0) ==> (*final(self) matches Effects::LavaDrop(
                d1,
            ) && d1.pos.0 == d0.pos.0 && d0.pos.1 <= d1.pos.1 <= MAX_COORD && (forall|j: usize|
                d0.pos.1 <= j < d1.pos.1 ==> !#[trigger] drop_fall_hit(*wrld, (d0.pos.0, j)))
                && (r.keep ==> d1.sub_y == d0.sub_y + wrld.gravity_mpx && d1.sub_y <= d1.pos.1
                * 1000 + 1000)),
    {
        match self {
            Effects::LavaDrop(d) => d.update(wrld),
            Effects::LavaSplash(s) => s.update(wrld),
        }
    }
}

/// Materialize a spawn request: append the requested effect, built at the
/// requested grid cell, to the live set.
pub fn spawn_effect(effects: &mut Vec<Effects>, kind: EffectKind, grid_pos: (usize, usize))
    requires
        (grid_pos.0 + 1) * CELL <= MAX_COORD,
        (grid_pos.1 + 1) * CELL <= MAX_COORD,
    ensures
        final(effects)@ == old(effects)@.push(
            match kind {
                EffectKind::LavaDrop => Effects::LavaDrop(spec_new_drop(grid_pos)),
                EffectKind::LavaSplash => Effects::LavaSplash(spec_new_splash(grid_pos)),
            },
        ),
{
    match kind {
        EffectKind::LavaDrop => effects.push(Effects::LavaDrop(LavaDrop::new(grid_pos))),
        EffectKind::LavaSplash => effects.push(Effects::LavaSplash(LavaSplash::new(grid_pos))),
    }
}

/// Whether any live effect's rectangle intersects `hitbox`.
pub fn has_effect_collision(effects: &Vec<Effects>, hitbox: Rect) -> (r: bool)
    ensures
        r == exists|i: int|
            0 <= i < effects@.len() && (#[trigger] effects@[i]).spec_rect().spec_intersecting(
                hitbox,
            ),
{
    let n = effects.len();
    let mut i: usize = 0;
    while i < n
        invariant
            i <= n,
            n == effects@.len(),
            forall|k: int|
                0 <= k < i ==> !(#[trigger] effects@[k]).spec_rect().spec_intersecting(hitbox),
        decreases n - i,
    {
        if effects[i].get_rect().collide(&hitbox) {
            return true;
        }
        i = i + 1;
    }
    false
}


/// A hazard released over a clear column lands exactly on the first
/// blocked row and requests exactly one splash at that cell.  When every
/// pixel row from `y0` up to (but not including) `stop_y` is free of a
/// hit, the row `stop_y` has one, and one gravity tick is strong enough to
/// cross the whole gap, then the hazard tick's reported outcome —
/// constrained by `LavaDrop::update`'s postconditions, restated here as
/// hypotheses — can only be "landed at `stop_y`", with the one splash
/// request at the landing grid cell.
pub proof fn lemma_drop_lands(
    w: World,
    x: usize,
    y0: usize,
    stop_y: usize,
    sub0: int,
    g: int,
    d1: LavaDrop,
    r: EffectUpdateReturn,
)
    requires
        y0 <= stop_y < MAX_COORD,
        y0 * 1000 <= sub0 <= y0 * 1000 + 1000,
        g > (stop_y - y0) * 1000 + 1000,
        forall|j: usize| y0 <= j < stop_y ==> !#[trigger] drop_fall_hit(w, (x, j)),
        drop_fall_hit(w, (x, stop_y)),
        d1.pos.0 == x,
        y0 <= d1.pos.1 <= MAX_COORD,
        forall|j: usize| y0 <= j < d1.pos.1 ==> !#[trigger] drop_fall_hit(w, (x, j)),
        !r.keep ==> r.spawn == Some(
            (EffectKind::LavaSplash, (d1.pos.0 / CELL, d1.pos.1 / CELL)),
        ) && (drop_fall_hit(w, d1.pos) || d1.pos.1 == MAX_COORD),
        r.keep ==> d1.sub_y == sub0 + g && d1.sub_y <= d1.pos.1 * 1000 + 1000,
    ensures
        !r.keep,
        d1.pos.1 == stop_y,
        r.spawn == Some((EffectKind::LavaSplash, (x / CELL, stop_y / CELL))),
{
    if d1.pos.1 > stop_y {
        assert(!drop_fall_hit(w, (x, stop_y)));
        assert(false);
    }
    if r.keep {
        assert(d1.sub_y == sub0 + g);
        assert(d1.sub_y > stop_y * 1000 + 1000);
        assert(false);
    }
    if d1.pos.1 < stop_y {
        assert(!drop_fall_hit(w, (x, d1.pos.1)));
        assert(false);
    }
}


/// The effect a spawn request materializes at its grid cell.
pub open spec fn spec_materialize(req: (EffectKind, (usize, usize))) -> Effects {
    match req.0 {
        EffectKind::LavaDrop => Effects::LavaDrop(spec_new_drop(req.1)),
        EffectKind::LavaSplash => Effects::LavaSplash(spec_new_splash(req.1)),
    }
}

} // verus!
