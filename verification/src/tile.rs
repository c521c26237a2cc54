use vstd::prelude::*;

use crate::emath::CELL;
use crate::rect::Collidable;
use crate::rect::Rect;

verus! {

/// What one grid cell is: its border, terrain, build slot, spawn hole, goal,
/// or nothing at all.  Only `Empty` is passable.
#[derive(Debug, PartialEq, Eq, Structural, Clone, Copy)]
pub enum TileType {
    BlockerDown,
    BlockerUp,
    BorderBottom,
    BorderBottomLeft,
    BorderBottomRight,
    BorderLeft,
    BorderRight,
    BorderTop,
    BorderTopLeft,
    BorderTopRight,
    BuildDown,
    BuildUp,
    Empty,
    Goal,
    Spawn,
    TerrainCenter,
    TerrainDown,
    TerrainUp,
    TurretDown,
    TurretUp,
}

/// The level-load description of one cell: its kind, its size in cells,
/// its grid coordinate, and its row-major index.
#[derive(Debug, Clone, Copy)]
pub struct BaseTile {
    pub kind: TileType,
    pub size: (usize, usize),
    pub grid_pos: (usize, usize),
    pub index: usize,
}

impl BaseTile {
    pub fn from_other(other: &BaseTile) -> (r: BaseTile)
        ensures
            r == *other,
    {
        BaseTile {
            kind: other.kind,
            size: other.size,
            grid_pos: other.grid_pos,
            index: other.index,
        }
    }
}

/// A placed cell: its base description, the pixel rectangle it occupies,
/// and whether actors may pass through it.
pub struct Tile {
    pub base: BaseTile,
    pub rect: Rect,
    pub passable: bool,
}

impl Tile {
    /// The pixel rectangle a base tile occupies: its grid coordinate scaled
    /// by the cell size, extended by its size in cells.
    pub open spec fn spec_rect_of(base: BaseTile) -> Rect {
        Rect {
            left: (base.grid_pos.0 * CELL) as usize,
            top: (base.grid_pos.1 * CELL) as usize,
            right: (base.grid_pos.0 * CELL + base.size.0 * CELL) as usize,
            bottom: (base.grid_pos.1 * CELL + base.size.1 * CELL) as usize,
        }
    }

    /// A tile is well formed when its rectangle is the one derived from its
    /// base and it is passable exactly when it is empty.
    pub open spec fn wf(self) -> bool {
        &&& self.rect == Tile::spec_rect_of(self.base)
        &&& self.passable == (self.base.kind == TileType::Empty)
        &&& (self.base.grid_pos.0 + self.base.size.0) * CELL <= usize::MAX
        &&& (self.base.grid_pos.1 + self.base.size.1) * CELL <= usize::MAX
    }

    /// An impassable tile collides with every rectangle its own rectangle
    /// intersects; a passable tile collides with nothing.
    pub open spec fn spec_collides(self, other: Rect) -> bool {
        !self.passable && self.rect.spec_intersecting(other)
    }

    pub fn new(base: &BaseTile) -> (t: Tile)
        requires
            (base.grid_pos.0 + base.size.0) * CELL <= usize::MAX,
            (base.grid_pos.1 + base.size.1) * CELL <= usize::MAX,
        ensures
            t.base == *base,
            t.wf(),
    {
        let left = base.grid_pos.0 * CELL;
        let top = base.grid_pos.1 * CELL;
        let right = left + base.size.0 * CELL;
        let bottom = top + base.size.1 * CELL;
        Tile {
            base: BaseTile::from_other(base),
            rect: Rect::new(left, top, right, bottom),
            passable: base.kind == TileType::Empty,
        }
    }

    pub fn kind(&self) -> (k: &TileType)
        ensures
            *k == self.base.kind,
    {
        &self.base.kind
    }

    pub fn pos(&self) -> (p: (usize, usize))
        requires
            self.base.grid_pos.0 * CELL <= usize::MAX,
            self.base.grid_pos.1 * CELL <= usize::MAX,
        ensures
            p.0 == self.base.grid_pos.0 * CELL,
            p.1 == self.base.grid_pos.1 * CELL,
    {
        crate::emath::grid_pos_to_pos(&self.base.grid_pos)
    }

    pub fn grid_pos(&self) -> (gp: (usize, usize))
        ensures
            gp == self.base.grid_pos,
    {
        self.base.grid_pos
    }
}

impl Collidable for Tile {
    open spec fn spec_hitbox(&self) -> Rect {
        self.rect
    }

    open spec fn spec_collide(&self, other: Rect) -> bool {
        self.spec_collides(other)
    }

    fn get_hitbox(&self) -> (r: &Rect) {
        &self.rect
    }

    fn collide(&self, other: &Rect) -> (b: bool) {
        !self.passable && self.rect.intersecting(other)
    }
}

} // verus!
