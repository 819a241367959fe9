//! The tile grid and its generation.
//!
//! A grid of `width` columns and `height` rows holds one tile for each
//! position. The tiles stand in one list, column after column, each column
//! from row zero upwards: the tile of column `x` and row `y` stands at index
//! `x * height + y`.

use crate::random::draw_below;
use rand::rngs::StdRng;
use vstd::arithmetic::div_mod::lemma_fundamental_div_mod;
use vstd::arithmetic::div_mod::lemma_fundamental_div_mod_converse;
use vstd::prelude::*;

verus! {

/// The number of columns of the world's grid.
pub const GRID_WIDTH: u32 = 256;

/// The number of rows of the world's grid.
pub const GRID_HEIGHT: u32 = 256;

/// The number of textures in the tile set: texture indices lie below it.
pub const TEXTURE_COUNT: u32 = 14;

/// One cell of the world grid: its column `x`, its row `y` and the index of
/// the texture it is drawn with.
#[derive(Clone, Copy, Debug, PartialEq, Eq, Structural)]
pub struct Tile {
    pub x: u32,
    pub y: u32,
    pub texture_index: u32,
}

/// Why a grid could not be built.
#[derive(Clone, Copy, Debug, PartialEq, Eq, Structural)]
pub enum GridError {
    /// The width or the height is zero, or the list of texture indices does
    /// not hold one index for each position.
    InvalidDimensions,
    /// The bound on texture indices is zero, or a texture index is not below
    /// it.
    InvalidTextureRange,
}

/// A dense grid of tiles. Its view is the list of its tiles in storage order.
#[derive(Debug, PartialEq, Eq)]
pub struct TileGrid {
    width: u32,
    height: u32,
    texture_index_bound: u32,
    tiles: Vec<Tile>,
}

impl View for TileGrid {
    type V = Seq<Tile>;

    closed spec fn view(&self) -> Seq<Tile> {
        self.tiles@
    }
}

/// The index at which a grid of the given height stores the tile of column
/// `x` and row `y`.
pub open spec fn slot(height: int, x: int, y: int) -> int {
    x * height + y
}

/// The tile that stands at index `i` of a grid of the given height when its
/// texture index is `texture_index`.
pub open spec fn tile_of_slot(height: int, i: int, texture_index: u32) -> Tile {
    Tile { x: (i / height) as u32, y: (i % height) as u32, texture_index }
}

/// The tiles of a grid of the given height whose texture indices are, in
/// storage order, `indices`.
pub open spec fn tiles_of(height: int, indices: Seq<u32>) -> Seq<Tile> {
    Seq::new(indices.len(), |i: int| tile_of_slot(height, i, indices[i]))
}

/// `indices` holds a value that is not below `bound`.
pub open spec fn some_index_out_of_range(indices: Seq<u32>, bound: u32) -> bool {
    exists|i: int| 0 <= i < indices.len() && #[trigger] indices[i] >= bound
}

/// `tiles` holds a tile of column `x` and row `y` at index `i`, and at no
/// other index.
pub open spec fn sole_tile_at(tiles: Seq<Tile>, x: int, y: int, i: int) -> bool {
    &&& 0 <= i < tiles.len()
    &&& tiles[i].x == x
    &&& tiles[i].y == y
    &&& forall|j: int|
        0 <= j < tiles.len() && (#[trigger] tiles[j]).x == x && tiles[j].y == y ==> j == i
}

/// A position inside the grid has its slot inside the list, and the slot
/// gives the position back.
pub proof fn lemma_slot_of_position(width: int, height: int, x: int, y: int)
    requires
        0 <= x < width,
        0 <= y < height,
    ensures
        0 <= slot(height, x, y) < width * height,
        slot(height, x, y) / height == x,
        slot(height, x, y) % height == y,
{
    assert(0 <= x * height && x * height + height <= width * height) by (nonlinear_arith)
        requires
            0 <= x < width,
            0 < height,
    ;
    lemma_fundamental_div_mod_converse(slot(height, x, y), height, x, y);
}

/// An index inside the list is the slot of the position it divides into.
pub proof fn lemma_position_of_slot(width: int, height: int, i: int)
    requires
        0 < height,
        0 <= i < width * height,
    ensures
        0 <= i / height < width,
        0 <= i % height < height,
        slot(height, i / height, i % height) == i,
{
    lemma_fundamental_div_mod(i, height);
    let q = i / height;
    assert(height * q == q * height) by (nonlinear_arith);
    assert(0 <= q < width) by (nonlinear_arith)
        requires
            0 < height,
            0 <= i < width * height,
            i == q * height + i % height,
            0 <= i % height < height,
    ;
}

impl TileGrid {
    /// The number of columns.
    pub closed spec fn spec_width(&self) -> u32 {
        self.width
    }

    /// The number of rows.
    pub closed spec fn spec_height(&self) -> u32 {
        self.height
    }

    /// The bound below which every texture index of the grid lies.
    pub closed spec fn spec_texture_index_bound(&self) -> u32 {
        self.texture_index_bound
    }

    /// The invariant of a grid: it is not empty, it holds one tile for each
    /// slot, each tile records the position of its slot, and each texture
    /// index lies below the bound.
    pub open spec fn wf(&self) -> bool {
        &&& self.width() > 0
        &&& self.height() > 0
        &&& self.texture_index_bound() > 0
        &&& self@.len() == self.width() * self.height()
        &&& forall|i: int|
            0 <= i < self@.len() ==> {
                &&& (#[trigger] self@[i]).x == i / (self.height() as int)
                &&& self@[i].y == i % (self.height() as int)
                &&& self@[i].texture_index < self.texture_index_bound()
            }
    }

    /// Every position of the grid has exactly one tile, which stands at the
    /// position's slot and whose texture index lies below the bound.
    pub open spec fn covers(&self) -> bool {
        forall|x: int, y: int|
            0 <= x < self.width() && 0 <= y < self.height() ==> {
                &&& #[trigger] sole_tile_at(self@, x, y, slot(self.height() as int, x, y))
                &&& self@[slot(self.height() as int, x, y)].texture_index
                    < self.texture_index_bound()
            }
    }

    /// A well-formed grid covers its positions.
    pub proof fn lemma_wf_covers(&self)
        requires
            self.wf(),
        ensures
            self.covers(),
    {
        let w = self.width() as int;
        let h = self.height() as int;
        assert forall|x: int, y: int| 0 <= x < w && 0 <= y < h implies {
            &&& #[trigger] sole_tile_at(self@, x, y, slot(h, x, y))
            &&& self@[slot(h, x, y)].texture_index < self.texture_index_bound()
        } by {
            let i = slot(h, x, y);
            lemma_slot_of_position(w, h, x, y);
            assert forall|j: int|
                0 <= j < self@.len() && (#[trigger] self@[j]).x == x && self@[j].y == y implies j
                == i by {
                lemma_position_of_slot(w, h, j);
            }
        }
    }

    /// The texture indices of the grid in storage order.
    pub open spec fn texture_indices(&self) -> Seq<u32> {
        Seq::new(self@.len(), |i: int| self@[i].texture_index)
    }

    /// Generation is a function of its parameters and of the values drawn:
    /// two well-formed grids of the same height with the same texture indices
    /// in storage order have the same width and hold the same tiles.
    pub proof fn lemma_same_draws_same_grid(&self, other: &TileGrid)
        requires
            self.wf(),
            other.wf(),
            self.height() == other.height(),
            self.texture_indices() == other.texture_indices(),
        ensures
            self.width() == other.width(),
            self@ == other@,
    {
        assert(self@.len() == self.texture_indices().len());
        assert(other@.len() == other.texture_indices().len());
        assert(self.width() == other.width()) by (nonlinear_arith)
            requires
                self.width() * self.height() == other.width() * self.height(),
                self.height() > 0,
        ;
        assert forall|i: int| 0 <= i < self@.len() implies self@[i] == other@[i] by {
            assert(self@[i].texture_index == self.texture_indices()[i]);
            assert(other@[i].texture_index == other.texture_indices()[i]);
        }
        assert(self@ =~= other@);
    }

    /// The number of columns.
    #[verifier::when_used_as_spec(spec_width)]
    pub fn width(&self) -> (width: u32)
        ensures
            width == self.spec_width(),
    {
        self.width
    }

    /// The number of rows.
    #[verifier::when_used_as_spec(spec_height)]
    pub fn height(&self) -> (height: u32)
        ensures
            height == self.spec_height(),
    {
        self.height
    }

    /// The bound below which every texture index of the grid lies.
    #[verifier::when_used_as_spec(spec_texture_index_bound)]
    pub fn texture_index_bound(&self) -> (bound: u32)
        ensures
            bound == self.spec_texture_index_bound(),
    {
        self.texture_index_bound
    }

    /// Builds the grid whose texture indices are, in storage order, `indices`.
    ///
    /// The dimensions are refused when one of them is zero or when `indices`
    /// does not hold one index for each position; the texture range is refused
    /// when the bound is zero or when an index does not lie below it. The
    /// dimensions are looked at first.
    pub fn from_indices(
        width: u32,
        height: u32,
        texture_index_bound: u32,
        indices: &[u32],
    ) -> (result: Result<TileGrid, GridError>)
        ensures
            match result {
                Ok(grid) => {
                    &&& indices@.len() == width * height
                    &&& !some_index_out_of_range(indices@, texture_index_bound)
                    &&& grid.wf()
                    &&& grid.covers()
                    &&& grid.width() == width
                    &&& grid.height() == height
                    &&& grid.texture_index_bound() == texture_index_bound
                    &&& grid@ == tiles_of(height as int, indices@)
                    &&& grid.texture_indices() == indices@
                },
                Err(GridError::InvalidDimensions) => {
                    width == 0 || height == 0 || indices@.len() != width * height
                },
                Err(GridError::InvalidTextureRange) => {
                    &&& width > 0
                    &&& height > 0
                    &&& indices@.len() == width * height
                    &&& (texture_index_bound == 0 || some_index_out_of_range(
                        indices@,
                        texture_index_bound,
                    ))
                },
            },
    {
        if width == 0 || height == 0 {
            return Err(GridError::InvalidDimensions);
        }
        assert(width * height <= u64::MAX) by (nonlinear_arith)
            requires
                width <= u32::MAX,
                height <= u32::MAX,
        ;
        let total: u64 = (width as u64) * (height as u64);
        if indices.len() as u64 != total {
            return Err(GridError::InvalidDimensions);
        }
        if texture_index_bound == 0 {
            return Err(GridError::InvalidTextureRange);
        }
        let mut tiles: Vec<Tile> = Vec::new();
        let mut x: u32 = 0;
        while x < width
            invariant
                0 < height,
                0 < texture_index_bound,
                x <= width,
                indices@.len() == width * height,
                tiles@.len() == x * height,
                tiles@.len() <= indices@.len(),
                forall|i: int|
                    0 <= i < tiles@.len() ==> #[trigger] tiles@[i] == tile_of_slot(
                        height as int,
                        i,
                        indices@[i],
                    ),
                forall|i: int| 0 <= i < tiles@.len() ==> #[trigger] indices@[i] < texture_index_bound,
            decreases width - x,
        {
            let mut y: u32 = 0;
            while y < height
                invariant
                    0 < height,
                    0 < texture_index_bound,
                    x < width,
                    y <= height,
                    indices@.len() == width * height,
                    tiles@.len() == x * height + y,
                    tiles@.len() <= indices@.len(),
                    forall|i: int|
                        0 <= i < tiles@.len() ==> #[trigger] tiles@[i] == tile_of_slot(
                            height as int,
                            i,
                            indices@[i],
                        ),
                    forall|i: int|
                        0 <= i < tiles@.len() ==> #[trigger] indices@[i] < texture_index_bound,
                decreases height - y,
            {
                proof {
                    lemma_slot_of_position(width as int, height as int, x as int, y as int);
                }
                let texture_index = indices[tiles.len()];
                if texture_index >= texture_index_bound {
                    return Err(GridError::InvalidTextureRange);
                }
                tiles.push(Tile { x, y, texture_index });
                y += 1;
            }
            assert(x * height + height == (x + 1) * height && (x + 1) * height <= width * height)
                by (nonlinear_arith)
                requires
                    x < width,
                    0 < height,
            ;
            x += 1;
        }
        let grid = TileGrid { width, height, texture_index_bound, tiles };
        proof {
            assert(grid@ =~= tiles_of(height as int, indices@));
            assert(grid.texture_indices() =~= indices@);
            assert forall|i: int| 0 <= i < grid@.len() implies {
                &&& (#[trigger] grid@[i]).x == i / (height as int)
                &&& grid@[i].y == i % (height as int)
                &&& grid@[i].texture_index < texture_index_bound
            } by {
                lemma_position_of_slot(width as int, height as int, i);
            }
            grid.lemma_wf_covers();
        }
        Ok(grid)
    }

    /// Generates a grid of `width` columns and `height` rows, drawing for each
    /// position, in storage order, a texture index below
    /// `texture_index_bound` from `rng`.
    ///
    /// Fails on a zero width or height, then on a zero bound; in every other
    /// case a grid is returned. Nothing is drawn when the call fails.
    pub fn generate(
        width: u32,
        height: u32,
        texture_index_bound: u32,
        rng: &mut StdRng,
    ) -> (result: Result<TileGrid, GridError>)
        ensures
            match result {
                Ok(grid) => {
                    &&& width > 0
                    &&& height > 0
                    &&& texture_index_bound > 0
                    &&& grid.wf()
                    &&& grid.covers()
                    &&& grid.width() == width
                    &&& grid.height() == height
                    &&& grid.texture_index_bound() == texture_index_bound
                },
                Err(GridError::InvalidDimensions) => width == 0 || height == 0,
                Err(GridError::InvalidTextureRange) => {
                    width > 0 && height > 0 && texture_index_bound == 0
                },
            },
    {
        if width == 0 || height == 0 {
            return Err(GridError::InvalidDimensions);
        }
        if texture_index_bound == 0 {
            return Err(GridError::InvalidTextureRange);
        }
        assert(width * height <= u64::MAX) by (nonlinear_arith)
            requires
                width <= u32::MAX,
                height <= u32::MAX,
        ;
        let count: u64 = (width as u64) * (height as u64);
        let indices = draw_indices(count, texture_index_bound, rng);
        let result = TileGrid::from_indices(width, height, texture_index_bound, indices.as_slice());
        assert(result is Ok);
        result
    }

    /// Generates the world's grid: `GRID_WIDTH` columns, `GRID_HEIGHT` rows and
    /// texture indices below `TEXTURE_COUNT`, drawn from `rng`. With these
    /// parameters generation cannot fail.
    pub fn generate_world(rng: &mut StdRng) -> (grid: TileGrid)
        ensures
            grid.wf(),
            grid.covers(),
            grid.width() == GRID_WIDTH,
            grid.height() == GRID_HEIGHT,
            grid.texture_index_bound() == TEXTURE_COUNT,
    {
        let result = TileGrid::generate(GRID_WIDTH, GRID_HEIGHT, TEXTURE_COUNT, rng);
        result.unwrap()
    }

    /// The tile of column `x` and row `y`, if the grid has that position.
    pub fn tile(&self, x: u32, y: u32) -> (found: Option<Tile>)
        requires
            self.wf(),
        ensures
            match found {
                Some(tile) => {
                    &&& x < self.width()
                    &&& y < self.height()
                    &&& tile == self@[slot(self.height() as int, x as int, y as int)]
                    &&& tile.x == x
                    &&& tile.y == y
                    &&& tile.texture_index < self.texture_index_bound()
                },
                None => x >= self.width() || y >= self.height(),
            },
    {
        if x >= self.width || y >= self.height {
            return None;
        }
        proof {
            lemma_slot_of_position(
                self.width as int,
                self.height as int,
                x as int,
                y as int,
            );
            assert(self.tiles.len() == self.width * self.height);
            assert(0 <= x * self.height) by (nonlinear_arith);
        }
        let i: usize = (x as usize) * (self.height as usize) + (y as usize);
        Some(self.tiles[i])
    }

    /// The tiles in storage order.
    pub fn tiles(&self) -> (tiles: &[Tile])
        ensures
            tiles@ == self@,
    {
        self.tiles.as_slice()
    }
}

/// Draws `count` values below `bound` from `rng`.
fn draw_indices(count: u64, bound: u32, rng: &mut StdRng) -> (indices: Vec<u32>)
    requires
        bound > 0,
    ensures
        indices@.len() == count,
        !some_index_out_of_range(indices@, bound),
{
    let mut indices: Vec<u32> = Vec::new();
    while (indices.len() as u64) < count
        invariant
            bound > 0,
            indices@.len() <= count,
            forall|i: int| 0 <= i < indices@.len() ==> #[trigger] indices@[i] < bound,
        decreases count - indices@.len(),
    {
        let drawn = draw_below(rng, bound);
        indices.push(drawn);
    }
    indices
}

} // verus!
