//! A rectangular grid of tiles, stored row by row, and where each tile falls
//! on a square surface that the grid is drawn on.

use vstd::prelude::*;
use vstd::std_specs::ops::AddSpec;

use crate::direction::{Angle, Direction};
use crate::vector::Vector;

verus! {

/// What occupies one cell of the grid.
#[derive(Debug, Clone, Copy, PartialEq, Eq, Structural)]
pub enum Tile {
    /// A mirror whose surface faces `normal`.
    Mirror { normal: Direction },
    Empty,
}

impl Tile {
    /// What [`Tile::stroke_angle`] computes.
    pub open spec fn spec_stroke_angle(&self) -> Option<Angle> {
        match *self {
            Tile::Mirror { normal } => Some(
                normal.angle_to(Direction::East).add_spec(Angle::from_octants(2)),
            ),
            Tile::Empty => None,
        }
    }

    /// The angle of the line that shows this tile. A mirror is shown as a
    /// line a quarter turn on from the clockwise angle between its normal and
    /// East; an empty tile shows nothing.
    #[verifier::when_used_as_spec(spec_stroke_angle)]
    pub fn stroke_angle(&self) -> (angle: Option<Angle>)
        ensures
            angle == self.spec_stroke_angle(),
            match *self {
                Tile::Mirror { normal } => angle is Some && angle.unwrap().octants() == (2
                    - normal.clockwise_from_east()) % 8,
                Tile::Empty => angle is None,
            },
    {
        match self {
            Tile::Mirror { normal } => Some(normal.angle_to(Direction::East) + Angle::right()),
            Tile::Empty => None,
        }
    }
}

/// Where one tile is drawn: the corner of its square nearest the origin, and
/// the length of the square's side.
#[derive(Debug, Clone, Copy, PartialEq, Eq, Structural)]
pub struct Placement {
    pub tile: Tile,
    pub x: u32,
    pub y: u32,
    pub size: u32,
}

/// A grid of `width` by `height` tiles.
#[derive(Debug, PartialEq, Eq)]
pub struct Tilemap {
    tiles: Vec<Tile>,
    width: u32,
    height: u32,
}

impl View for Tilemap {
    type V = Seq<Tile>;

    /// The tiles row by row: the tile in column `x` of row `y` stands at
    /// position `y * width + x`.
    closed spec fn view(&self) -> Seq<Tile> {
        self.tiles@
    }
}

impl Clone for Tilemap {
    /// A map of the same size that holds the same tiles.
    fn clone(&self) -> (copy: Self)
        ensures
            copy@ == self@,
            copy.width() == self.width(),
            copy.height() == self.height(),
    {
        proof {
            use_type_invariant(self);
        }
        let tiles = self.tiles.clone();
        assert(tiles@ =~= self.tiles@);
        Self { tiles, width: self.width, height: self.height }
    }
}

impl Tilemap {
    /// There is one tile for every cell.
    #[verifier::type_invariant]
    pub open spec fn wf(self) -> bool {
        self@.len() == self.width() * self.height()
    }

    /// The number of columns.
    pub closed spec fn width(self) -> u32 {
        self.width
    }

    /// The number of rows.
    pub closed spec fn height(self) -> u32 {
        self.height
    }

    /// A map of `width` by `height` empty tiles. The number of tiles is one
    /// that the machine can address.
    pub fn new(width: u32, height: u32) -> (map: Self)
        requires
            width * height <= usize::MAX,
        ensures
            map.width() == width,
            map.height() == height,
            map@ == Seq::new((width * height) as nat, |i: int| Tile::Empty),
    {
        proof {
            assert(0 <= width * height) by (nonlinear_arith);
        }
        let count: usize = width as usize * height as usize;
        let map = Self { tiles: vec![Tile::Empty; count], width, height };
        assert(map@ =~= Seq::new((width * height) as nat, |i: int| Tile::Empty));
        map
    }

    /// The width and the height, in tiles.
    pub fn size(&self) -> (size: (u32, u32))
        ensures
            size == (self.width(), self.height()),
    {
        (self.width, self.height)
    }

    /// The number of tiles, which fits in 32 bits.
    pub fn len(&self) -> (len: u32)
        requires
            self.width() * self.height() <= u32::MAX,
        ensures
            len == self.width() * self.height(),
            len == self@.len(),
    {
        proof {
            use_type_invariant(self);
        }
        self.width * self.height
    }

    /// Where each tile is drawn on a surface `surface_width` wide: every tile
    /// is a square whose side is the surface's width divided by the number of
    /// columns, rounded down, and the squares lie side by side in rows. The
    /// map has a column, no more tiles than 32 bits can count, and its last
    /// row starts at a height that fits in 32 bits.
    pub fn layout(&self, surface_width: u32) -> (placements: Vec<Placement>)
        requires
            self.width() > 0,
            self@.len() <= u32::MAX,
            self.height() > 0 ==> (self.height() - 1) * (surface_width / self.width()) <= u32::MAX,
        ensures
            placements@.len() == self@.len(),
            (forall|i: int|
                #![trigger placements@[i]]
                0 <= i < self@.len() ==> {
                    &&& placements@[i].tile == self@[i]
                    &&& placements@[i].size == surface_width / self.width()
                    &&& placements@[i].x == (i % (self.width() as int)) * (surface_width
                        / self.width())
                    &&& placements@[i].y == (i / (self.width() as int)) * (surface_width
                        / self.width())
                }),
    {
        proof {
            use_type_invariant(self);
        }
        let tile_size: u32 = surface_width / self.width;
        let mut placements: Vec<Placement> = Vec::new();
        let mut i: usize = 0;
        while i < self.tiles.len()
            invariant
                self.wf(),
                self.width > 0,
                self@.len() <= u32::MAX,
                self.height > 0 ==> (self.height - 1) * (surface_width / self.width) <= u32::MAX,
                tile_size == surface_width / self.width,
                i <= self.tiles.len(),
                placements@.len() == i,
                (forall|j: int|
                    #![trigger placements@[j]]
                    0 <= j < i ==> {
                        &&& placements@[j].tile == self@[j]
                        &&& placements@[j].size == tile_size
                        &&& placements@[j].x == (j % (self.width as int)) * tile_size
                        &&& placements@[j].y == (j / (self.width as int)) * tile_size
                    }),
            decreases self.tiles.len() - i,
        {
            let index: u32 = i as u32;
            let column: u32 = index % self.width;
            let row: u32 = index / self.width;
            proof {
                lemma_cell_offsets(
                    index as int,
                    self.width as int,
                    self.height as int,
                    surface_width as int,
                );
            }
            placements.push(
                Placement {
                    tile: self.tiles[i],
                    x: column * tile_size,
                    y: row * tile_size,
                    size: tile_size,
                },
            );
            i += 1;
        }
        placements
    }
}

/// In a grid of `width` columns and `height` rows, drawn with squares of side
/// `surface_width / width`, the tile at `index` starts within the surface's
/// width, and no lower than the last row does.
proof fn lemma_cell_offsets(index: int, width: int, height: int, surface_width: int)
    requires
        width > 0,
        surface_width >= 0,
        0 <= index < width * height,
    ensures
        0 <= (index % width) * (surface_width / width) <= surface_width,
        0 <= (index / width) * (surface_width / width) <= (height - 1) * (surface_width / width),
        height > 0,
{
    let size = surface_width / width;
    let column = index % width;
    let row = index / width;
    assert(0 <= size && size * width <= surface_width) by (nonlinear_arith)
        requires
            size == surface_width / width,
            width > 0,
            surface_width >= 0,
    ;
    assert(0 <= column < width);
    assert(0 <= column * size <= size * width) by (nonlinear_arith)
        requires
            0 <= column < width,
            0 <= size,
    ;
    assert(0 <= row <= height - 1) by (nonlinear_arith)
        requires
            row == index / width,
            0 <= index < width * height,
            width > 0,
    ;
    assert(0 <= row * size <= (height - 1) * size) by (nonlinear_arith)
        requires
            0 <= row <= height - 1,
            0 <= size,
    ;
}

impl std::ops::Index<u32> for Tilemap {
    type Output = Tile;

    /// The tile at position `index`, counted row by row, which is below the
    /// number of tiles.
    fn index(&self, index: u32) -> (tile: &Tile)
        ensures
            *tile == self@[index as int],
    {
        &self.tiles[index as usize]
    }
}

impl vstd::std_specs::core::IndexSpecImpl<u32> for Tilemap {
    open spec fn index_req(&self, index: &u32) -> bool {
        *index < self@.len()
    }
}

impl std::ops::IndexMut<u32> for Tilemap {
    /// The tile at position `index`, counted row by row, which is below the
    /// number of tiles, to be written to. No other tile changes, nor does the
    /// map's size.
    fn index_mut(&mut self, index: u32) -> (tile: &mut Tile)
        requires
            index < old(self)@.len(),
        ensures
            *tile == old(self)@[index as int],
            final(self)@ == old(self)@.update(index as int, *final(tile)),
            final(self).width() == old(self).width(),
            final(self).height() == old(self).height(),
    {
        proof {
            use_type_invariant(&*self);
        }
        &mut self.tiles[index as usize]
    }
}

impl std::ops::Index<Vector<u32, 2>> for Tilemap {
    type Output = Tile;

    /// The tile in column `index[0]` of row `index[1]`: the one at position
    /// `index[1] * width + index[0]`, which is below the number of tiles and
    /// fits in 32 bits.
    fn index(&self, index: Vector<u32, 2>) -> (tile: &Tile)
        ensures
            *tile == self@[index@[1] * self.width() + index@[0]],
    {
        proof {
            index.lemma_len();
            assert(0 <= index@[1] * self.width) by (nonlinear_arith);
        }
        &self.tiles[(index[1] * self.width + index[0]) as usize]
    }
}

impl vstd::std_specs::core::IndexSpecImpl<Vector<u32, 2>> for Tilemap {
    open spec fn index_req(&self, index: &Vector<u32, 2>) -> bool {
        &&& index@[1] * self.width() + index@[0] < self@.len()
        &&& index@[1] * self.width() + index@[0] <= u32::MAX
    }
}

} // verus!
