use vstd::prelude::*;

use crate::emath::CELL;
use crate::rect::Collidable;
use crate::rect::Rect;
use crate::tile::TileType;
use crate::tower::Towers;
use crate::wrld::MAX_COORD;
use crate::wrld::World;

verus! {

/// How fast an actor walks, in pixels per second.
pub const WALKING_SPEED: u32 = 32;

/// The direction an actor walks in.
#[derive(Debug, PartialEq, Eq, Structural, Clone, Copy)]
pub enum Facing {
    Left,
    Right,
}

/// The opposite walking direction.
pub open spec fn spec_flip(f: Facing) -> Facing {
    match f {
        Facing::Left => Facing::Right,
        Facing::Right => Facing::Left,
    }
}

/// The pixel step a facing takes along the x axis.
pub open spec fn spec_dx(f: Facing) -> int {
    match f {
        Facing::Left => -1,
        Facing::Right => 1,
    }
}

/// What a one-pixel collision probe into the grid found.
#[derive(Debug, PartialEq, Eq, Structural, Clone, Copy)]
pub enum ProbeHit {
    NoHit,
    Solid,
    Goal,
}

/// A walking actor: sub-pixel accumulators in thousandths of a pixel, the
/// integer pixel position, the derived grid cell, the hitbox relative to the
/// position, the facing, and the live rectangle.
pub struct Enemy {
    pub sub_x: i64,
    pub sub_y: i64,
    pub pos: (usize, usize),
    pub grid_pos: (usize, usize),
    pub hitbox: Rect,
    pub facing: Facing,
    pub rect: Rect,
    pub draw_pos: Rect,
}

/// The actor's live rectangle at pixel position `pos`.
pub open spec fn actor_rect(pos: (usize, usize), hb: Rect) -> Rect {
    Rect {
        left: (pos.0 + hb.left) as usize,
        top: (pos.1 + hb.top) as usize,
        right: (pos.0 + hb.right) as usize,
        bottom: (pos.1 + hb.bottom) as usize,
    }
}

/// The actor's rectangle shifted one pixel down.
pub open spec fn down_rect(pos: (usize, usize), hb: Rect) -> Rect {
    Rect {
        left: (pos.0 + hb.left) as usize,
        top: (pos.1 + hb.top + 1) as usize,
        right: (pos.0 + hb.right) as usize,
        bottom: (pos.1 + hb.bottom + 1) as usize,
    }
}

/// The actor's rectangle shifted one pixel toward `dx`.  The two floors are
/// edge guards the stepper applies when it builds this box: near the world's
/// left edge the shifted left side stops at zero and the shifted right side
/// at four pixels, so the probe keeps a well-formed box there.  Away from
/// the first few columns neither floor ever bites.
pub open spec fn side_rect(pos: (usize, usize), hb: Rect, dx: int) -> Rect {
    Rect {
        left: (if pos.0 + hb.left + dx >= 0 {
            pos.0 + hb.left + dx
        } else {
            0
        }) as usize,
        top: (pos.1 + hb.top) as usize,
        right: (if pos.0 + hb.right + dx >= 4 {
            pos.0 + hb.right + dx
        } else {
            4
        }) as usize,
        bottom: (pos.1 + hb.bottom) as usize,
    }
}

/// Whether the grid holds a tile at cell `(tx, ty)` that collides with `r`.
pub open spec fn tile_hit(w: World, tx: int, ty: int, r: Rect) -> bool {
    &&& 0 <= tx < w.level.width
    &&& 0 <= ty < w.level.height
    &&& w.tiles@[ty * w.level.width + tx].spec_collides(r)
}

/// The kind of the tile at cell `(tx, ty)`.
pub open spec fn tile_kind_at(w: World, tx: int, ty: int) -> TileType {
    w.tiles@[ty * w.level.width + tx].base.kind
}

/// A colliding tile ends a fall; a goal tile ends the actor.
pub open spec fn hit_of(w: World, tx: int, ty: int) -> ProbeHit {
    if tile_kind_at(w, tx, ty) == TileType::Goal {
        ProbeHit::Goal
    } else {
        ProbeHit::Solid
    }
}

/// What the downward probe finds: among the three grid columns around the
/// shifted box's top-left cell, one grid row further down, the first tile
/// that collides with the shifted box decides.
pub open spec fn vert_probe(w: World, pos: (usize, usize), hb: Rect) -> ProbeHit {
    let r = down_rect(pos, hb);
    let gx = (pos.0 + hb.left) as int / CELL as int;
    let gy = (pos.1 + hb.top + 1) as int / CELL as int;
    if tile_hit(w, gx - 1, gy + 1, r) {
        hit_of(w, gx - 1, gy + 1)
    } else if tile_hit(w, gx, gy + 1, r) {
        hit_of(w, gx, gy + 1)
    } else if tile_hit(w, gx + 1, gy + 1, r) {
        hit_of(w, gx + 1, gy + 1)
    } else {
        ProbeHit::NoHit
    }
}

/// What the sideways probe finds: the tile one grid column toward `dx` from
/// the shifted box's top-left cell, in the same row, decides if it collides
/// with the shifted box.
pub open spec fn side_probe(w: World, pos: (usize, usize), hb: Rect, dx: int) -> ProbeHit {
    let r = side_rect(pos, hb, dx);
    let gx = r.left as int / CELL as int;
    let gy = r.top as int / CELL as int;
    if tile_hit(w, gx + dx, gy, r) {
        hit_of(w, gx + dx, gy)
    } else {
        ProbeHit::NoHit
    }
}

/// Nothing stops a one-pixel fall from `pos`.
pub open spec fn fall_free(w: World, ts: Towers, pos: (usize, usize), hb: Rect) -> bool {
    !ts.spec_hit(down_rect(pos, hb)) && vert_probe(w, pos, hb) is NoHit
}

/// A structure or a solid tile stops a one-pixel fall from `pos`.
pub open spec fn fall_blocked(w: World, ts: Towers, pos: (usize, usize), hb: Rect) -> bool {
    ts.spec_hit(down_rect(pos, hb)) || vert_probe(w, pos, hb) is Solid
}

/// A one-pixel fall from `pos` reaches a goal tile.
pub open spec fn fall_goal(w: World, ts: Towers, pos: (usize, usize), hb: Rect) -> bool {
    !ts.spec_hit(down_rect(pos, hb)) && vert_probe(w, pos, hb) is Goal
}

/// Nothing stops a one-pixel step toward `dx` from `pos`.
pub open spec fn walk_free(w: World, ts: Towers, pos: (usize, usize), hb: Rect, dx: int) -> bool {
    !ts.spec_hit(side_rect(pos, hb, dx)) && side_probe(w, pos, hb, dx) is NoHit
}

/// A structure or a solid tile stops a one-pixel step toward `dx`.
pub open spec fn walk_blocked(w: World, ts: Towers, pos: (usize, usize), hb: Rect, dx: int) -> bool {
    ts.spec_hit(side_rect(pos, hb, dx)) || side_probe(w, pos, hb, dx) is Solid
}

/// A one-pixel step toward `dx` from `pos` reaches a goal tile.
pub open spec fn walk_goal(w: World, ts: Towers, pos: (usize, usize), hb: Rect, dx: int) -> bool {
    !ts.spec_hit(side_rect(pos, hb, dx)) && side_probe(w, pos, hb, dx) is Goal
}

/// The actor stands at the world edge in its walking direction.
pub open spec fn at_x_edge(pos: (usize, usize), f: Facing) -> bool {
    match f {
        Facing::Left => pos.0 <= 1,
        Facing::Right => pos.0 >= MAX_COORD,
    }
}

/// One health point lost, never dropping below zero.
pub open spec fn spec_dec_health(h: usize) -> usize {
    if h > 0 {
        (h - 1) as usize
    } else {
        0
    }
}

/// The distance, in thousandths of a pixel, the accumulator has run ahead of
/// the integer position in the walking direction.
pub open spec fn x_gap(e: Enemy) -> int {
    match e.facing {
        Facing::Left => e.pos.0 * 1000 - e.sub_x,
        Facing::Right => e.sub_x - e.pos.0 * 1000,
    }
}

impl Enemy {
    /// An actor is valid when its hitbox is a small well-formed box, its
    /// position lies in the world, its grid cell is derived from its
    /// position, and its accumulators sit within one pixel of its position:
    /// below-or-at in the walking direction, at-or-above downward.
    pub open spec fn wf(self) -> bool {
        &&& self.hitbox.wf()
        &&& self.hitbox.right <= 1024
        &&& self.hitbox.bottom <= 1024
        &&& self.pos.0 <= MAX_COORD
        &&& self.pos.1 <= MAX_COORD
        &&& self.grid_pos.0 == self.pos.0 / CELL
        &&& self.grid_pos.1 == self.pos.1 / CELL
        &&& self.pos.1 * 1000 <= self.sub_y <= self.pos.1 * 1000 + 1000
        &&& (self.facing is Left ==> self.pos.0 * 1000 - 1000 <= self.sub_x <= self.pos.0 * 1000)
        &&& (self.facing is Right ==> self.pos.0 * 1000 <= self.sub_x <= self.pos.0 * 1000 + 1000)
    }

    pub fn new(pos: (usize, usize), hitbox: Rect, draw_pos: Rect) -> (e: Enemy)
        requires
            hitbox.wf(),
            hitbox.right <= 1024,
            hitbox.bottom <= 1024,
            pos.0 <= MAX_COORD,
            pos.1 <= MAX_COORD,
        ensures
            e.wf(),
            e.pos == pos,
            e.hitbox == hitbox,
            e.draw_pos == draw_pos,
            e.facing == Facing::Left,
            e.sub_x == pos.0 * 1000,
            e.sub_y == pos.1 * 1000,
            e.rect == actor_rect(pos, hitbox),
    {
        let rect = Rect::new(
            pos.0 + hitbox.left,
            pos.1 + hitbox.top,
            pos.0 + hitbox.right,
            pos.1 + hitbox.bottom,
        );
        Enemy {
            sub_x: (pos.0 as i64) * 1000,
            sub_y: (pos.1 as i64) * 1000,
            pos,
            grid_pos: crate::emath::pos_to_grid_pos(&pos),
            hitbox,
            facing: Facing::Left,
            rect,
            draw_pos,
        }
    }

    /// Rebuild the live rectangle from the current position and hitbox.
    pub fn update_rect(&mut self)
        requires
            old(self).wf(),
        ensures
            *final(self) == (Enemy {
                rect: actor_rect(old(self).pos, old(self).hitbox),
                ..*old(self)
            }),
    {
        self.rect = Rect::new(
            self.pos.0 + self.hitbox.left,
            self.pos.1 + self.hitbox.top,
            self.pos.0 + self.hitbox.right,
            self.pos.1 + self.hitbox.bottom,
        );
    }

    /// The vertical half of a tick: accumulate gravity, then fall one pixel
    /// at a time, checking structures and the tiles below at every pixel.
    /// Returns `(falling, keep)`: a fall stopped by a structure or a solid
    /// tile settles the actor at the boundary pixel (`falling == false`); a
    /// fall into a goal tile costs one health point and removes the actor
    /// (`keep == false`); otherwise the actor is still airborne.
    pub fn move_y(&mut self, wrld: &mut World, towers: &Towers) -> (r: (bool, bool))
        requires
            old(self).wf(),
            old(wrld).wf(),
        ensures
            final(self).hitbox == old(self).hitbox,
            final(self).draw_pos == old(self).draw_pos,
            final(self).rect == old(self).rect,
            final(self).facing == old(self).facing,
            final(self).sub_x == old(self).sub_x,
            final(self).pos.0 == old(self).pos.0,
            old(self).pos.1 <= final(self).pos.1 <= MAX_COORD,
            final(self).grid_pos.0 == final(self).pos.0 / CELL,
            final(self).grid_pos.1 == final(self).pos.1 / CELL,
            *final(wrld) == (World { health: final(wrld).health, ..*old(wrld) }),
            forall|j: usize|
                old(self).pos.1 <= j < final(self).pos.1 ==> #[trigger] fall_free(
                    *old(wrld),
                    *towers,
                    (old(self).pos.0, j),
                    old(self).hitbox,
                ),
            !r.1 ==> r.0 && fall_goal(*old(wrld), *towers, final(self).pos, old(self).hitbox)
                && final(wrld).health == spec_dec_health(old(wrld).health) && final(self).sub_y
                == old(self).sub_y + old(wrld).gravity_mpx,
            r.1 ==> final(wrld).health == old(wrld).health,
            r.1 && !r.0 ==> final(self).sub_y == final(self).pos.1 * 1000 && (fall_blocked(
                *old(wrld),
                *towers,
                final(self).pos,
                old(self).hitbox,
            ) || final(self).pos.1 == MAX_COORD) && final(self).wf(),
            r.1 && r.0 ==> final(self).sub_y == old(self).sub_y + old(wrld).gravity_mpx
                && final(self).sub_y <= final(self).pos.1 * 1000 + 1000 && final(self).wf(),
    {
        let ghost e0 = *self;
        let ghost w0 = *wrld;
        let g = wrld.get_scaled_gravity();
        self.sub_y = self.sub_y + g as i64;
        let mut falling = true;
        while self.sub_y - (self.pos.1 as i64) * 1000 > 1000
            invariant_except_break
                e0 == *old(self),
                w0 == *old(wrld),
                self.hitbox == e0.hitbox,
                self.draw_pos == e0.draw_pos,
                self.rect == e0.rect,
                self.facing == e0.facing,
                self.sub_x == e0.sub_x,
                self.pos.0 == e0.pos.0,
                e0.pos.1 <= self.pos.1 <= MAX_COORD,
                self.grid_pos.0 == self.pos.0 / CELL,
                self.grid_pos.1 == self.pos.1 / CELL,
                self.sub_y == e0.sub_y + g,
                self.pos.1 * 1000 <= self.sub_y,
                e0.wf(),
                g == w0.gravity_mpx,
                *wrld == w0,
                w0.wf(),
                falling == true,
                forall|j: usize|
                    e0.pos.1 <= j < self.pos.1 ==> #[trigger] fall_free(
                        w0,
                        *towers,
                        (e0.pos.0, j),
                        e0.hitbox,
                    ),
            ensures
                self.hitbox == e0.hitbox,
                self.draw_pos == e0.draw_pos,
                self.rect == e0.rect,
                self.facing == e0.facing,
                self.sub_x == e0.sub_x,
                self.pos.0 == e0.pos.0,
                e0.pos.1 <= self.pos.1 <= MAX_COORD,
                self.grid_pos.0 == self.pos.0 / CELL,
                self.grid_pos.1 == self.pos.1 / CELL,
                *wrld == w0,
                forall|j: usize|
                    e0.pos.1 <= j < self.pos.1 ==> #[trigger] fall_free(
                        w0,
                        *towers,
                        (e0.pos.0, j),
                        e0.hitbox,
                    ),
                falling ==> self.sub_y == e0.sub_y + g && self.sub_y <= self.pos.1 * 1000 + 1000
                    && self.pos.1 * 1000 <= self.sub_y,
                !falling ==> self.sub_y == self.pos.1 * 1000 && (fall_blocked(
                    w0,
                    *towers,
                    self.pos,
                    e0.hitbox,
                ) || self.pos.1 == MAX_COORD),
            decreases self.sub_y - self.pos.1 * 1000,
        {
            let rect = Rect::new(
                self.pos.0 + self.hitbox.left,
                self.pos.1 + self.hitbox.top + 1,
                self.pos.0 + self.hitbox.right,
                self.pos.1 + self.hitbox.bottom + 1,
            );
            proof {
                assert(rect == down_rect(self.pos, e0.hitbox));
            }
            let tl = rect.tl();
            let rect_grid = crate::emath::pos_to_grid_pos(&tl);
            if towers.get_collided_tower(&rect).is_some() {
                self.sub_y = (self.pos.1 as i64) * 1000;
                falling = false;
                break ;
            }
            if rect_grid.0 >= 1 {
                if let Some(t) = wrld.get_tile(&(rect_grid.0 - 1), &(rect_grid.1 + 1)) {
                    if t.collide(&rect) {
                        if *t.kind() == TileType::Goal {
                            wrld.health = if wrld.health > 0 {
                                wrld.health - 1
                            } else {
                                0
                            };
                            return (true, false);
                        }
                        self.sub_y = (self.pos.1 as i64) * 1000;
                        return (false, true);
                    }
                }
            }
            if let Some(t) = wrld.get_tile(&rect_grid.0, &(rect_grid.1 + 1)) {
                if t.collide(&rect) {
                    if *t.kind() == TileType::Goal {
                        wrld.health = if wrld.health > 0 {
                            wrld.health - 1
                        } else {
                            0
                        };
                        return (true, false);
                    }
                    self.sub_y = (self.pos.1 as i64) * 1000;
                    return (false, true);
                }
            }
            if let Some(t) = wrld.get_tile(&(rect_grid.0 + 1), &(rect_grid.1 + 1)) {
                if t.collide(&rect) {
                    if *t.kind() == TileType::Goal {
                        wrld.health = if wrld.health > 0 {
                            wrld.health - 1
                        } else {
                            0
                        };
                        return (true, false);
                    }
                    self.sub_y = (self.pos.1 as i64) * 1000;
                    return (false, true);
                }
            }
            proof {
                assert(fall_free(w0, *towers, self.pos, e0.hitbox));
            }
            if self.pos.1 >= MAX_COORD {
                self.sub_y = (self.pos.1 as i64) * 1000;
                falling = false;
                break ;
            }
            self.pos.1 = self.pos.1 + 1;
            self.grid_pos = crate::emath::pos_to_grid_pos(&self.pos);
        }
        (falling, true)
    }

    /// The horizontal half of a tick, run only for a grounded actor:
    /// accumulate the walk, then step one pixel at a time in the facing
    /// direction, checking structures and the adjacent tile at every pixel.
    /// A blocking structure or solid tile (or the world edge) snaps the
    /// actor back and reverses its facing exactly once; a goal tile costs
    /// one health point and removes the actor (`keep == false`).
    pub fn move_x(&mut self, wrld: &mut World, towers: &Towers) -> (keep: bool)
        requires
            old(self).wf(),
            old(wrld).wf(),
        ensures
            final(self).hitbox == old(self).hitbox,
            final(self).draw_pos == old(self).draw_pos,
            final(self).rect == old(self).rect,
            final(self).sub_y == old(self).sub_y,
            final(self).pos.1 == old(self).pos.1,
            final(self).grid_pos.0 == final(self).pos.0 / CELL,
            final(self).grid_pos.1 == final(self).pos.1 / CELL,
            final(self).pos.0 <= MAX_COORD,
            *final(wrld) == (World { health: final(wrld).health, ..*old(wrld) }),
            old(self).facing is Right ==> old(self).pos.0 <= final(self).pos.0 && (forall|j: usize|
                old(self).pos.0 <= j < final(self).pos.0 ==> #[trigger] walk_free(
                    *old(wrld),
                    *towers,
                    (j, old(self).pos.1),
                    old(self).hitbox,
                    1,
                )),
            old(self).facing is Left ==> final(self).pos.0 <= old(self).pos.0 && (forall|j: usize|
                final(self).pos.0 < j <= old(self).pos.0 ==> #[trigger] walk_free(
                    *old(wrld),
                    *towers,
                    (j, old(self).pos.1),
                    old(self).hitbox,
                    -1,
                )),
            !keep ==> final(self).facing == old(self).facing && final(wrld).health
                == spec_dec_health(old(wrld).health) && walk_goal(
                *old(wrld),
                *towers,
                final(self).pos,
                old(self).hitbox,
                spec_dx(old(self).facing),
            ),
            keep ==> final(wrld).health == old(wrld).health,
            keep && final(self).facing != old(self).facing ==> final(self).facing == spec_flip(
                old(self).facing,
            ) && final(self).sub_x == final(self).pos.0 * 1000 && (walk_blocked(
                *old(wrld),
                *towers,
                final(self).pos,
                old(self).hitbox,
                spec_dx(old(self).facing),
            ) || at_x_edge(final(self).pos, old(self).facing)) && final(self).wf(),
            keep && final(self).facing == old(self).facing ==> final(self).sub_x == old(self).sub_x
                + spec_dx(old(self).facing) * (WALKING_SPEED * old(wrld).dt_ms)
                && final(self).wf(),
    {
        let ghost e0 = *self;
        let ghost w0 = *wrld;
        let walk: u32 = WALKING_SPEED * wrld.dt_ms;
        let going_left = matches!(self.facing, Facing::Left);
        if going_left {
            self.sub_x = self.sub_x - walk as i64;
        } else {
            self.sub_x = self.sub_x + walk as i64;
        }
        loop
            invariant_except_break
                e0 == *old(self),
                w0 == *old(wrld),
                self.hitbox == e0.hitbox,
                self.draw_pos == e0.draw_pos,
                self.rect == e0.rect,
                self.sub_y == e0.sub_y,
                self.facing == e0.facing,
                going_left == (e0.facing is Left),
                self.pos.1 == e0.pos.1,
                self.pos.0 <= MAX_COORD,
                self.grid_pos.0 == self.pos.0 / CELL,
                self.grid_pos.1 == self.pos.1 / CELL,
                self.sub_x == e0.sub_x + spec_dx(e0.facing) * walk,
                0 <= x_gap(*self),
                e0.wf(),
                walk == WALKING_SPEED * w0.dt_ms,
                walk <= 1_000_000,
                *wrld == w0,
                w0.wf(),
                e0.facing is Right ==> e0.pos.0 <= self.pos.0 && (forall|j: usize|
                    e0.pos.0 <= j < self.pos.0 ==> #[trigger] walk_free(
                        w0,
                        *towers,
                        (j, e0.pos.1),
                        e0.hitbox,
                        1,
                    )),
                e0.facing is Left ==> self.pos.0 <= e0.pos.0 && (forall|j: usize|
                    self.pos.0 < j <= e0.pos.0 ==> #[trigger] walk_free(
                        w0,
                        *towers,
                        (j, e0.pos.1),
                        e0.hitbox,
                        -1,
                    )),
            ensures
                self.hitbox == e0.hitbox,
                self.draw_pos == e0.draw_pos,
                self.rect == e0.rect,
                self.sub_y == e0.sub_y,
                self.pos.1 == e0.pos.1,
                self.pos.0 <= MAX_COORD,
                self.grid_pos.0 == self.pos.0 / CELL,
                self.grid_pos.1 == self.pos.1 / CELL,
                *wrld == w0,
                e0.facing is Right ==> e0.pos.0 <= self.pos.0 && (forall|j: usize|
                    e0.pos.0 <= j < self.pos.0 ==> #[trigger] walk_free(
                        w0,
                        *towers,
                        (j, e0.pos.1),
                        e0.hitbox,
                        1,
                    )),
                e0.facing is Left ==> self.pos.0 <= e0.pos.0 && (forall|j: usize|
                    self.pos.0 < j <= e0.pos.0 ==> #[trigger] walk_free(
                        w0,
                        *towers,
                        (j, e0.pos.1),
                        e0.hitbox,
                        -1,
                    )),
                self.facing == e0.facing ==> self.sub_x == e0.sub_x + spec_dx(e0.facing) * walk
                    && x_gap(*self) <= 1000 && 0 <= x_gap(*self),
                self.facing != e0.facing ==> self.facing == spec_flip(e0.facing) && self.sub_x
                    == self.pos.0 * 1000 && (walk_blocked(
                    w0,
                    *towers,
                    self.pos,
                    e0.hitbox,
                    spec_dx(e0.facing),
                ) || at_x_edge(self.pos, e0.facing)),
            decreases x_gap(*self),
        {
            let diff = if going_left {
                (self.pos.0 as i64) * 1000 - self.sub_x
            } else {
                self.sub_x - (self.pos.0 as i64) * 1000
            };
            if diff <= 1000 {
                break ;
            }
            let bx = self.pos.0 as i64 + self.hitbox.left as i64 + (if going_left {
                -1i64
            } else {
                1i64
            });
            let rx = self.pos.0 as i64 + self.hitbox.right as i64 + (if going_left {
                -1i64
            } else {
                1i64
            });
            let left = if bx >= 0 {
                bx as usize
            } else {
                0
            };
            let right = if rx >= 4 {
                rx as usize
            } else {
                4
            };
            let rect = Rect::new(left, self.pos.1 + self.hitbox.top, right, self.pos.1 + self.hitbox.bottom);
            proof {
                assert(rect == side_rect(self.pos, e0.hitbox, spec_dx(e0.facing)));
            }
            let tl = rect.tl();
            let rect_grid = crate::emath::pos_to_grid_pos(&tl);
            if towers.get_collided_tower(&rect).is_some() {
                self.sub_x = (self.pos.0 as i64) * 1000;
                self.facing = if going_left {
                    Facing::Right
                } else {
                    Facing::Left
                };
                break ;
            }
            let mut hit_goal = false;
            let mut hit_solid = false;
            if going_left {
                if rect_grid.0 >= 1 {
                    if let Some(t) = wrld.get_tile(&(rect_grid.0 - 1), &rect_grid.1) {
                        if t.collide(&rect) {
                            if *t.kind() == TileType::Goal {
                                hit_goal = true;
                            } else {
                                hit_solid = true;
                            }
                        }
                    }
                }
            } else {
                if let Some(t) = wrld.get_tile(&(rect_grid.0 + 1), &rect_grid.1) {
                    if t.collide(&rect) {
                        if *t.kind() == TileType::Goal {
                            hit_goal = true;
                        } else {
                            hit_solid = true;
                        }
                    }
                }
            }
            if hit_goal {
                wrld.health = if wrld.health > 0 {
                    wrld.health - 1
                } else {
                    0
                };
                return false;
            }
            if hit_solid {
                self.sub_x = (self.pos.0 as i64) * 1000;
                self.facing = if going_left {
                    Facing::Right
                } else {
                    Facing::Left
                };
                break ;
            }
            proof {
                assert(walk_free(w0, *towers, self.pos, e0.hitbox, spec_dx(e0.facing)));
            }
            if going_left {
                if self.pos.0 <= 1 {
                    self.sub_x = (self.pos.0 as i64) * 1000;
                    self.facing = Facing::Right;
                    break ;
                }
                self.pos.0 = self.pos.0 - 1;
            } else {
                if self.pos.0 >= MAX_COORD {
                    self.sub_x = (self.pos.0 as i64) * 1000;
                    self.facing = Facing::Left;
                    break ;
                }
                self.pos.0 = self.pos.0 + 1;
            }
            self.grid_pos = crate::emath::pos_to_grid_pos(&self.pos);
        }
        true
    }

    /// One whole movement tick: the vertical phase, then, if the actor is
    /// grounded and still alive, the horizontal phase.  Returns whether the
    /// actor stays in the simulation; a removed actor has cost one health
    /// point.  A kept actor either is still airborne, untouched but for the
    /// gravity its accumulator gained, or has settled on the boundary below
    /// and then walked, reversed, or idled exactly as the horizontal phase
    /// dictates.
    pub fn update(&mut self, wrld: &mut World, towers: &Towers) -> (keep: bool)
        requires
            old(self).wf(),
            old(wrld).wf(),
        ensures
            final(self).hitbox == old(self).hitbox,
            final(self).draw_pos == old(self).draw_pos,
            *final(wrld) == (World { health: final(wrld).health, ..*old(wrld) }),
            keep ==> final(self).wf() && final(self).rect == actor_rect(
                final(self).pos,
                final(self).hitbox,
            ) && final(wrld).health == old(wrld).health,
            !keep ==> final(wrld).health == spec_dec_health(old(wrld).health) && (fall_goal(
                *old(wrld),
                *towers,
                final(self).pos,
                old(self).hitbox,
            ) || walk_goal(
                *old(wrld),
                *towers,
                final(self).pos,
                old(self).hitbox,
                spec_dx(old(self).facing),
            )),
            keep ==> old(self).pos.1 <= final(self).pos.1 && (forall|j: usize|
                old(self).pos.1 <= j < final(self).pos.1 ==> #[trigger] fall_free(
                    *old(wrld),
                    *towers,
                    (old(self).pos.0, j),
                    old(self).hitbox,
                )),
            keep ==> ({
                // still airborne: the horizontal phase did not run
                &&& final(self).sub_y == old(self).sub_y + old(wrld).gravity_mpx
                &&& final(self).sub_y <= final(self).pos.1 * 1000 + 1000
                &&& final(self).pos.0 == old(self).pos.0
                &&& final(self).sub_x == old(self).sub_x
                &&& final(self).facing == old(self).facing
            } || {
                // settled at the boundary, then walked sideways
                &&& final(self).sub_y == final(self).pos.1 * 1000
                &&& (fall_blocked(
                    *old(wrld),
                    *towers,
                    (old(self).pos.0, final(self).pos.1),
                    old(self).hitbox,
                ) || final(self).pos.1 == MAX_COORD)
                &&& ({
                    &&& final(self).facing == old(self).facing
                    &&& final(self).sub_x == old(self).sub_x + spec_dx(old(self).facing) * (
                    WALKING_SPEED * old(wrld).dt_ms)
                } || {
                    &&& final(self).facing == spec_flip(old(self).facing)
                    &&& final(self).sub_x == final(self).pos.0 * 1000
                    &&& (walk_blocked(
                        *old(wrld),
                        *towers,
                        final(self).pos,
                        old(self).hitbox,
                        spec_dx(old(self).facing),
                    ) || at_x_edge(final(self).pos, old(self).facing))
                })
                &&& (old(self).facing is Right ==> old(self).pos.0 <= final(self).pos.0 && (
                forall|j: usize|
                    old(self).pos.0 <= j < final(self).pos.0 ==> #[trigger] walk_free(
                        *old(wrld),
                        *towers,
                        (j, final(self).pos.1),
                        old(self).hitbox,
                        1,
                    )))
                &&& (old(self).facing is Left ==> final(self).pos.0 <= old(self).pos.0 && (
                forall|j: usize|
                    final(self).pos.0 < j <= old(self).pos.0 ==> #[trigger] walk_free(
                        *old(wrld),
                        *towers,
                        (j, final(self).pos.1),
                        old(self).hitbox,
                        -1,
                    )))
            }),
    {
        let ghost w0 = *wrld;
        let (falling, keep0) = self.move_y(wrld, towers);
        let ghost w1 = *wrld;
        let mut keep = keep0;
        if keep && !falling {
            keep = self.move_x(wrld, towers);
            proof {
                // only health changed between the two phases, which none of
                // the collision predicates read
                assert forall|j: usize|
                    true implies #[trigger] walk_free(w1, *towers, (j, self.pos.1), self.hitbox, 1)
                    == walk_free(w0, *towers, (j, self.pos.1), self.hitbox, 1) by {}
                assert forall|j: usize|
                    true implies #[trigger] walk_free(
                    w1,
                    *towers,
                    (j, self.pos.1),
                    self.hitbox,
                    -1,
                ) == walk_free(w0, *towers, (j, self.pos.1), self.hitbox, -1) by {}
                assert(walk_blocked(w1, *towers, self.pos, self.hitbox, 1) == walk_blocked(
                    w0,
                    *towers,
                    self.pos,
                    self.hitbox,
                    1,
                ));
                assert(walk_blocked(w1, *towers, self.pos, self.hitbox, -1) == walk_blocked(
                    w0,
                    *towers,
                    self.pos,
                    self.hitbox,
                    -1,
                ));
                assert(walk_goal(w1, *towers, self.pos, self.hitbox, 1) == walk_goal(
                    w0,
                    *towers,
                    self.pos,
                    self.hitbox,
                    1,
                ));
                assert(walk_goal(w1, *towers, self.pos, self.hitbox, -1) == walk_goal(
                    w0,
                    *towers,
                    self.pos,
                    self.hitbox,
                    -1,
                ));
            }
        }
        if keep {
            self.update_rect();
            true
        } else {
            false
        }
    }
}

impl Collidable for Enemy {
    open spec fn spec_hitbox(&self) -> Rect {
        self.hitbox
    }

    open spec fn spec_collide(&self, other: Rect) -> bool {
        self.hitbox.spec_intersecting(other)
    }

    fn get_hitbox(&self) -> (r: &Rect) {
        &self.hitbox
    }

    fn collide(&self, other: &Rect) -> (b: bool) {
        self.hitbox.intersecting(other)
    }
}


/// A fall down a clear column ends exactly at the boundary.  When every
/// pixel row from `y0` up to (but not including) `stop_y` is free, the step
/// down from `stop_y` is blocked, and one gravity tick is strong enough to
/// cross the whole gap, then the vertical integrator's reported outcome —
/// constrained by its postconditions, restated here as hypotheses — can
/// only be "settled", at `stop_y` itself, with the accumulator snapped to
/// the boundary pixel.
pub proof fn lemma_settles_exactly(
    w: World,
    ts: Towers,
    x: usize,
    hb: Rect,
    y0: usize,
    stop_y: usize,
    sub0: int,
    g: int,
    e1: Enemy,
    falling: bool,
    keep: bool,
)
    requires
        y0 <= stop_y < MAX_COORD,
        y0 * 1000 <= sub0 <= y0 * 1000 + 1000,
        g > (stop_y - y0) * 1000 + 1000,
        forall|j: usize| y0 <= j < stop_y ==> #[trigger] fall_free(w, ts, (x, j), hb),
        fall_blocked(w, ts, (x, stop_y), hb),
        e1.pos.0 == x,
        y0 <= e1.pos.1 <= MAX_COORD,
        forall|j: usize| y0 <= j < e1.pos.1 ==> #[trigger] fall_free(w, ts, (x, j), hb),
        !keep ==> falling && fall_goal(w, ts, e1.pos, hb),
        keep && !falling ==> e1.sub_y == e1.pos.1 * 1000 && (fall_blocked(w, ts, e1.pos, hb)
            || e1.pos.1 == MAX_COORD),
        keep && falling ==> e1.sub_y == sub0 + g && e1.sub_y <= e1.pos.1 * 1000 + 1000,
    ensures
        keep,
        !falling,
        e1.pos.1 == stop_y,
        e1.sub_y == stop_y * 1000,
{
    if e1.pos.1 > stop_y {
        assert(fall_free(w, ts, (x, stop_y), hb));
        assert(false);
    }
    if !keep {
        if e1.pos.1 < stop_y {
            assert(fall_free(w, ts, (x, e1.pos.1), hb));
        }
        assert(false);
    }
    if falling {
        assert(e1.sub_y == sub0 + g);
        assert(e1.sub_y > stop_y * 1000 + 1000);
        assert(false);
    }
    if e1.pos.1 < stop_y {
        assert(fall_free(w, ts, (x, e1.pos.1), hb));
        assert(false);
    }
}

/// An actor whose very next sideways step would enter a goal tile is
/// removed on the spot: one health point is lost and none of the movement
/// into the goal tile is kept — the reported position is the starting one.
/// The hypotheses about the reported outcome restate the horizontal
/// integrator's postconditions.
pub proof fn lemma_goal_step_removes(
    w: World,
    ts: Towers,
    e0: Enemy,
    e1: Enemy,
    walk: int,
    keep: bool,
    h0: usize,
    h1: usize,
)
    requires
        e0.wf(),
        walk > 1000,
        !at_x_edge(e0.pos, e0.facing),
        walk_goal(w, ts, e0.pos, e0.hitbox, spec_dx(e0.facing)),
        e1.pos.1 == e0.pos.1,
        e0.facing is Right ==> e0.pos.0 <= e1.pos.0 && (forall|j: usize|
            e0.pos.0 <= j < e1.pos.0 ==> #[trigger] walk_free(w, ts, (j, e0.pos.1), e0.hitbox, 1)),
        e0.facing is Left ==> e1.pos.0 <= e0.pos.0 && (forall|j: usize|
            e1.pos.0 < j <= e0.pos.0 ==> #[trigger] walk_free(
                w,
                ts,
                (j, e0.pos.1),
                e0.hitbox,
                -1,
            )),
        !keep ==> e1.facing == e0.facing && h1 == spec_dec_health(h0) && walk_goal(
            w,
            ts,
            e1.pos,
            e0.hitbox,
            spec_dx(e0.facing),
        ),
        keep ==> h1 == h0,
        keep && e1.facing != e0.facing ==> e1.facing == spec_flip(e0.facing) && (walk_blocked(
            w,
            ts,
            e1.pos,
            e0.hitbox,
            spec_dx(e0.facing),
        ) || at_x_edge(e1.pos, e0.facing)),
        keep && e1.facing == e0.facing ==> e1.sub_x == e0.sub_x + spec_dx(e0.facing) * walk
            && e1.wf() && e1.hitbox == e0.hitbox,
    ensures
        !keep,
        e1.pos.0 == e0.pos.0,
        e1.facing == e0.facing,
        h1 == spec_dec_health(h0),
        h0 >= 1 ==> h1 == h0 - 1,
{
    if e0.facing is Right {
        if e1.pos.0 > e0.pos.0 {
            assert(walk_free(w, ts, (e0.pos.0, e0.pos.1), e0.hitbox, 1));
            assert(false);
        }
    } else {
        if e1.pos.0 < e0.pos.0 {
            assert(walk_free(w, ts, (e0.pos.0, e0.pos.1), e0.hitbox, -1));
            assert(false);
        }
    }
    assert(e1.pos.0 == e0.pos.0);
    if keep {
        if e1.facing == e0.facing {
            assert(x_gap(e1) <= 1000);
            assert(x_gap(e1) >= walk);
            assert(false);
        } else {
            assert(false);
        }
    }
}


} // verus!
