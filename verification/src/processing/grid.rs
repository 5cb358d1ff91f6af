//! Tile geometry: how a raster is cut into rectangular tiles, where each tile
//! lies in pixel coordinates, and why the tiles cover every pixel exactly once.

use vstd::prelude::*;

verus! {

/// Edge length of a tile when the source reports no native block size.
pub const DEFAULT_TILE_EDGE: usize = 256;

/// Edge length of the square chunks used when whole bands are read chunk by chunk.
pub const CHUNK_EDGE: usize = 2048;

/// A rectangle of pixels: its top-left corner and its extent.
#[derive(Clone, Copy, Debug, PartialEq, Eq, Structural)]
pub struct Window {
    pub x: usize,
    pub y: usize,
    pub width: usize,
    pub height: usize,
}

impl Window {
    /// The pixel `(px, py)` lies inside this rectangle.
    pub open spec fn contains(self, px: int, py: int) -> bool {
        &&& self.x <= px < self.x + self.width
        &&& self.y <= py < self.y + self.height
    }

    /// The rectangle holds no pixel.
    pub open spec fn spec_is_empty(self) -> bool {
        self.width == 0 || self.height == 0
    }

    /// The rectangle lies inside a raster of the given size.
    pub open spec fn within(self, width: int, height: int) -> bool {
        &&& self.x + self.width <= width
        &&& self.y + self.height <= height
    }

    /// The rectangle that holds no pixel, anchored at the origin.
    pub open spec fn spec_empty() -> Window {
        Window { x: 0, y: 0, width: 0, height: 0 }
    }

    pub fn empty() -> (w: Window)
        ensures
            w == Window::spec_empty(),
    {
        Window { x: 0, y: 0, width: 0, height: 0 }
    }

    pub fn is_empty(&self) -> (e: bool)
        ensures
            e == self.spec_is_empty(),
    {
        self.width == 0 || self.height == 0
    }
}

pub open spec fn spec_min(a: int, b: int) -> int {
    if a <= b {
        a
    } else {
        b
    }
}

/// How many tiles of length `edge` are needed to cover `extent` pixels:
/// the quotient rounded up, and none where there is nothing to cover or
/// nothing to cover it with.
pub open spec fn spec_tiles_along(extent: int, edge: int) -> int {
    if extent > 0 && edge > 0 {
        (extent + edge - 1) / edge
    } else {
        0
    }
}

/// The tile edge for one axis: the native block edge, or the default where
/// the source has none, never longer than the raster itself.
pub open spec fn spec_region_size(block: (usize, usize), raster: (usize, usize)) -> (usize, usize) {
    if block.0 > 0 && block.1 > 0 {
        (spec_min(block.0 as int, raster.0 as int) as usize, spec_min(block.1 as int, raster.1 as int) as usize)
    } else {
        (
            spec_min(DEFAULT_TILE_EDGE as int, raster.0 as int) as usize,
            spec_min(DEFAULT_TILE_EDGE as int, raster.1 as int) as usize,
        )
    }
}

/// Offset and extent, along one axis, of tile number `index`: the tile starts
/// at `index * edge` and is cut off at the raster's end. A tile that starts at
/// or beyond the end has no extent.
pub open spec fn spec_span(index: int, edge: int, extent: int) -> (int, int) {
    if index * edge < extent {
        (index * edge, spec_min(edge, extent - index * edge))
    } else {
        (0, 0)
    }
}

/// The pixel rectangle of the tile at `(x, y)` when tiles of size `region`
/// are laid over a raster of size `raster`: it starts at
/// `(x * tile_w, y * tile_h)` and is clipped at the raster's edges. A tile
/// that would start outside the raster has the empty rectangle.
pub open spec fn spec_tile_window(x: int, y: int, region: (usize, usize), raster: (usize, usize)) -> Window {
    let h = spec_span(x, region.0 as int, raster.0 as int);
    let v = spec_span(y, region.1 as int, raster.1 as int);
    if h.1 > 0 && v.1 > 0 {
        Window { x: h.0 as usize, y: v.0 as usize, width: h.1 as usize, height: v.1 as usize }
    } else {
        Window::spec_empty()
    }
}

fn min_usize(a: usize, b: usize) -> (m: usize)
    ensures
        m == spec_min(a as int, b as int),
{
    if a <= b {
        a
    } else {
        b
    }
}

/// Chooses the tile size for a raster from the block size its source reports.
pub fn region_size(block_size: (usize, usize), raster_size: (usize, usize)) -> (region: (usize, usize))
    ensures
        region == spec_region_size(block_size, raster_size),
        region.0 <= raster_size.0,
        region.1 <= raster_size.1,
        raster_size.0 > 0 ==> region.0 > 0,
        raster_size.1 > 0 ==> region.1 > 0,
{
    if block_size.0 > 0 && block_size.1 > 0 {
        (min_usize(block_size.0, raster_size.0), min_usize(block_size.1, raster_size.1))
    } else {
        (min_usize(DEFAULT_TILE_EDGE, raster_size.0), min_usize(DEFAULT_TILE_EDGE, raster_size.1))
    }
}

/// The rounded-up quotient lies between the two multiples that bracket `extent`.
pub proof fn lemma_tiles_along_bounds(extent: int, edge: int)
    requires
        extent > 0,
        edge > 0,
    ensures
        spec_tiles_along(extent, edge) >= 1,
        (spec_tiles_along(extent, edge) - 1) * edge < extent,
        extent <= spec_tiles_along(extent, edge) * edge,
        spec_tiles_along(extent, edge) == (extent - 1) / edge + 1,
        spec_tiles_along(extent, edge) <= extent,
{
    let n = (extent + edge - 1) / edge;
    let r = (extent + edge - 1) % edge;
    vstd::arithmetic::div_mod::lemma_fundamental_div_mod(extent + edge - 1, edge);
    vstd::arithmetic::div_mod::lemma_mod_bound(extent + edge - 1, edge);
    assert(extent + edge - 1 == edge * n + r);
    assert(n >= 1 && (n - 1) * edge < extent && extent <= n * edge) by (nonlinear_arith)
        requires
            extent + edge - 1 == edge * n + r,
            0 <= r < edge,
            extent > 0,
            edge > 0,
    ;
    let q = (extent - 1) / edge;
    let s = (extent - 1) % edge;
    vstd::arithmetic::div_mod::lemma_fundamental_div_mod(extent - 1, edge);
    vstd::arithmetic::div_mod::lemma_mod_bound(extent - 1, edge);
    assert(q + 1 == n) by (nonlinear_arith)
        requires
            extent - 1 == edge * q + s,
            0 <= s < edge,
            (n - 1) * edge < extent,
            extent <= n * edge,
            edge > 0,
    ;
    assert(n <= extent) by (nonlinear_arith)
        requires
            (n - 1) * edge < extent,
            edge >= 1,
            n >= 1,
    ;
}

/// A tile index is below the tile count exactly when the tile has an extent,
/// which for a tile edge above zero means that it starts inside the raster.
pub proof fn lemma_index_in_grid(index: int, extent: int, edge: int)
    requires
        index >= 0,
        extent >= 0,
        edge >= 0,
    ensures
        index < spec_tiles_along(extent, edge) <==> spec_span(index, edge, extent).1 > 0,
        edge > 0 ==> (index < spec_tiles_along(extent, edge) <==> index * edge < extent),
        spec_span(index, edge, extent).0 + spec_span(index, edge, extent).1 <= extent,
        spec_span(index, edge, extent).0 >= 0,
{
    assert(index * edge >= 0) by (nonlinear_arith)
        requires
            index >= 0,
            edge >= 0,
    ;
    if extent > 0 && edge > 0 {
        lemma_tiles_along_bounds(extent, edge);
        let n = spec_tiles_along(extent, edge);
        if index < n {
            assert(index * edge <= (n - 1) * edge) by (nonlinear_arith)
                requires
                    index <= n - 1,
                    edge > 0,
            ;
        } else {
            assert(index * edge >= n * edge) by (nonlinear_arith)
                requires
                    index >= n,
                    edge > 0,
            ;
        }
    }
}

/// Along one axis, the tile that holds pixel `p` is tile `p / edge`, and no other.
pub proof fn lemma_span_holds_pixel(index: int, edge: int, extent: int, p: int)
    requires
        index >= 0,
        edge > 0,
        0 <= p < extent,
    ensures
        ({
            let span = spec_span(index, edge, extent);
            span.0 <= p < span.0 + span.1 <==> index == p / edge
        }),
{
    let q = p / edge;
    let r = p % edge;
    vstd::arithmetic::div_mod::lemma_fundamental_div_mod(p, edge);
    vstd::arithmetic::div_mod::lemma_mod_bound(p, edge);
    assert(p == edge * q + r);
    if index == q {
        assert(index * edge <= p && p < index * edge + edge) by (nonlinear_arith)
            requires
                p == edge * q + r,
                0 <= r < edge,
                index == q,
        ;
    } else if index < q {
        assert(index * edge + edge <= p) by (nonlinear_arith)
            requires
                p == edge * q + r,
                0 <= r < edge,
                index + 1 <= q,
                edge > 0,
        ;
    } else {
        assert(index * edge > p) by (nonlinear_arith)
            requires
                p == edge * q + r,
                0 <= r < edge,
                index >= q + 1,
                edge > 0,
        ;
    }
}

/// The tiling of one raster: the raster's size, the tile size, and the number
/// of tiles along each axis.
#[derive(Clone, Copy, Debug)]
pub struct BlockGrid {
    raster: (usize, usize),
    region: (usize, usize),
    blocks: (usize, usize),
}

impl BlockGrid {
    /// The tile counts are the rounded-up quotients of raster size by tile size.
    #[verifier::type_invariant]
    pub closed spec fn wf(self) -> bool {
        &&& self.blocks.0 == spec_tiles_along(self.raster.0 as int, self.region.0 as int)
        &&& self.blocks.1 == spec_tiles_along(self.raster.1 as int, self.region.1 as int)
    }

    pub closed spec fn spec_raster_size(self) -> (usize, usize) {
        self.raster
    }

    pub closed spec fn spec_region_size(self) -> (usize, usize) {
        self.region
    }

    pub closed spec fn spec_blocks(self) -> (usize, usize) {
        self.blocks
    }

    /// The grid that `new` builds from a raster size and a tile size.
    pub open spec fn describes(self, raster: (usize, usize), region: (usize, usize)) -> bool {
        &&& self.spec_raster_size() == raster
        &&& self.spec_region_size() == region
        &&& self.spec_blocks().0 == spec_tiles_along(raster.0 as int, region.0 as int)
        &&& self.spec_blocks().1 == spec_tiles_along(raster.1 as int, region.1 as int)
    }

    /// The tile counts of the grid belong to its raster size and tile size.
    /// Every grid that `new` hands out is well formed.
    pub open spec fn is_well_formed(self) -> bool {
        self.describes(self.spec_raster_size(), self.spec_region_size())
    }

    /// The position `(x, y)` names a tile of this grid.
    pub open spec fn has_position(self, x: int, y: int) -> bool {
        &&& 0 <= x < self.spec_blocks().0
        &&& 0 <= y < self.spec_blocks().1
    }

    /// The pixel rectangle of the tile at `(x, y)` of this grid.
    pub open spec fn spec_window(self, x: int, y: int) -> Window {
        spec_tile_window(x, y, self.spec_region_size(), self.spec_raster_size())
    }

    /// The positions in the order in which they are submitted: row by row,
    /// each row from left to right.
    pub open spec fn spec_positions(self) -> Seq<(usize, usize)> {
        Seq::new(
            (self.spec_blocks().0 * self.spec_blocks().1) as nat,
            |k: int| ((k % (self.spec_blocks().0 as int)) as usize, (k / (self.spec_blocks().0 as int)) as usize),
        )
    }

    proof fn lemma_describes(self)
        requires
            self.wf(),
        ensures
            self.is_well_formed(),
    {
    }

    /// Tiles of size `region` laid over a raster of size `raster`.
    pub fn new(raster: (usize, usize), region: (usize, usize)) -> (grid: BlockGrid)
        ensures
            grid.describes(raster, region),
    {
        let blocks = (tiles_along(raster.0, region.0), tiles_along(raster.1, region.1));
        BlockGrid { raster, region, blocks }
    }

    /// The tiling of a raster by the block size that its source reports.
    pub fn for_raster(raster: (usize, usize), block_size: (usize, usize)) -> (grid: BlockGrid)
        ensures
            grid.describes(raster, spec_region_size(block_size, raster)),
    {
        BlockGrid::new(raster, region_size(block_size, raster))
    }

    /// The tiling of a raster into square chunks of `CHUNK_EDGE` pixels.
    pub fn chunked(raster: (usize, usize)) -> (grid: BlockGrid)
        ensures
            grid.describes(raster, (CHUNK_EDGE, CHUNK_EDGE)),
    {
        BlockGrid::new(raster, (CHUNK_EDGE, CHUNK_EDGE))
    }

    pub fn raster_size(&self) -> (size: (usize, usize))
        ensures
            size == self.spec_raster_size(),
    {
        self.raster
    }

    pub fn region_size(&self) -> (size: (usize, usize))
        ensures
            size == self.spec_region_size(),
    {
        self.region
    }

    /// The number of tiles along each axis.
    pub fn blocks(&self) -> (count: (usize, usize))
        ensures
            count == self.spec_blocks(),
            self.is_well_formed(),
    {
        proof {
            use_type_invariant(self);
            self.lemma_describes();
        }
        self.blocks
    }

    /// The pixel rectangle that the tile at `(x, y)` covers.
    pub fn window(&self, x: usize, y: usize) -> (w: Window)
        ensures
            w == self.spec_window(x as int, y as int),
            w.within(self.spec_raster_size().0 as int, self.spec_raster_size().1 as int),
            w.spec_is_empty() <==> !self.has_position(x as int, y as int),
    {
        proof {
            use_type_invariant(self);
            self.lemma_describes();
            lemma_index_in_grid(x as int, self.raster.0 as int, self.region.0 as int);
            lemma_index_in_grid(y as int, self.raster.1 as int, self.region.1 as int);
        }
        tile_window(x, y, self.region, self.raster)
    }

    /// Every position of the grid, in submission order.
    pub fn positions(&self) -> (list: Vec<(usize, usize)>)
        ensures
            list@ == self.spec_positions(),
    {
        proof {
            use_type_invariant(self);
        }
        let columns: usize = self.blocks.0;
        let rows: usize = self.blocks.1;
        let mut list: Vec<(usize, usize)> = Vec::new();
        let mut y: usize = 0;
        while y < rows
            invariant
                columns == self.spec_blocks().0,
                rows == self.spec_blocks().1,
                y <= rows,
                list@.len() == y * columns,
                forall|k: int|
                    0 <= k < list@.len() ==> #[trigger] list@[k] == (
                        (k % (columns as int)) as usize,
                        (k / (columns as int)) as usize,
                    ),
            decreases rows - y,
        {
            let mut x: usize = 0;
            while x < columns
                invariant
                    columns == self.spec_blocks().0,
                    rows == self.spec_blocks().1,
                    y < rows,
                    x <= columns,
                    list@.len() == y * columns + x,
                    forall|k: int|
                        0 <= k < list@.len() ==> #[trigger] list@[k] == (
                            (k % (columns as int)) as usize,
                            (k / (columns as int)) as usize,
                        ),
                decreases columns - x,
            {
                proof {
                    let k = y * columns + x;
                    vstd::arithmetic::div_mod::lemma_fundamental_div_mod_converse(
                        k,
                        columns as int,
                        y as int,
                        x as int,
                    );
                    assert(columns * y == y * columns) by (nonlinear_arith);
                }
                list.push((x, y));
                x += 1;
            }
            proof {
                assert((y + 1) * columns == y * columns + columns) by (nonlinear_arith);
            }
            y += 1;
        }
        proof {
            assert(y * columns == columns * rows) by (nonlinear_arith)
                requires
                    y == rows,
            ;
            assert(list@ =~= self.spec_positions());
        }
        list
    }

    /// Every tile of the grid lies inside the raster and holds at least one pixel.
    pub proof fn lemma_tiles_inside_raster(self, x: int, y: int)
        requires
            self.is_well_formed(),
            self.has_position(x, y),
        ensures
            !self.spec_window(x, y).spec_is_empty(),
            self.spec_window(x, y).within(self.spec_raster_size().0 as int, self.spec_raster_size().1 as int),
            self.spec_window(x, y).x == x * self.spec_region_size().0,
            self.spec_window(x, y).y == y * self.spec_region_size().1,
    {
        lemma_index_in_grid(x, self.spec_raster_size().0 as int, self.spec_region_size().0 as int);
        lemma_index_in_grid(y, self.spec_raster_size().1 as int, self.spec_region_size().1 as int);
    }

    /// The tiles of the grid cover the raster without gaps and without
    /// overlaps: every pixel of the raster lies in the tile at
    /// `(px / tile_w, py / tile_h)`, that position belongs to the grid, and no
    /// other position's tile holds the pixel.
    pub proof fn lemma_tiles_partition_raster(self, px: int, py: int)
        requires
            self.is_well_formed(),
            0 <= px < self.spec_raster_size().0,
            0 <= py < self.spec_raster_size().1,
            self.spec_region_size().0 > 0,
            self.spec_region_size().1 > 0,
        ensures
            self.has_position(px / (self.spec_region_size().0 as int), py / (self.spec_region_size().1 as int)),
            self.spec_window(
                px / (self.spec_region_size().0 as int),
                py / (self.spec_region_size().1 as int),
            ).contains(px, py),
            forall|x: int, y: int|
                x >= 0 && y >= 0 && #[trigger] self.spec_window(x, y).contains(px, py) ==> x == px / (
                self.spec_region_size().0 as int) && y == py / (self.spec_region_size().1 as int),
    {
        let w = self.spec_raster_size().0 as int;
        let h = self.spec_raster_size().1 as int;
        let rw = self.spec_region_size().0 as int;
        let rh = self.spec_region_size().1 as int;
        let tx = px / rw;
        let ty = py / rh;
        vstd::arithmetic::div_mod::lemma_div_pos_is_pos(px, rw);
        vstd::arithmetic::div_mod::lemma_div_pos_is_pos(py, rh);
        lemma_span_holds_pixel(tx, rw, w, px);
        lemma_span_holds_pixel(ty, rh, h, py);
        lemma_index_in_grid(tx, w, rw);
        lemma_index_in_grid(ty, h, rh);
        assert forall|x: int, y: int|
            x >= 0 && y >= 0 && #[trigger] self.spec_window(x, y).contains(px, py) implies x == tx
            && y == ty by {
            lemma_span_holds_pixel(x, rw, w, px);
            lemma_span_holds_pixel(y, rh, h, py);
        }
    }

    /// The tiling that a raster's own block size gives leaves no pixel out
    /// and covers none twice, whatever block size the source reports.
    pub proof fn lemma_native_tiles_partition_raster(
        self,
        raster: (usize, usize),
        block_size: (usize, usize),
        px: int,
        py: int,
    )
        requires
            self.describes(raster, spec_region_size(block_size, raster)),
            0 <= px < raster.0,
            0 <= py < raster.1,
        ensures
            self.has_position(px / (self.spec_region_size().0 as int), py / (self.spec_region_size().1 as int)),
            self.spec_window(
                px / (self.spec_region_size().0 as int),
                py / (self.spec_region_size().1 as int),
            ).contains(px, py),
            forall|x: int, y: int|
                x >= 0 && y >= 0 && #[trigger] self.spec_window(x, y).contains(px, py) ==> x == px / (
                self.spec_region_size().0 as int) && y == py / (self.spec_region_size().1 as int),
    {
        self.lemma_tiles_partition_raster(px, py);
    }

    /// Every position of the grid is submitted exactly once: it stands at
    /// index `y * columns + x` of the submission order and at no other.
    pub proof fn lemma_positions_complete(self, x: int, y: int)
        requires
            self.has_position(x, y),
        ensures
            0 <= y * self.spec_blocks().0 + x < self.spec_positions().len(),
            self.spec_positions()[y * self.spec_blocks().0 + x] == (x as usize, y as usize),
            forall|k: int|
                0 <= k < self.spec_positions().len() && #[trigger] self.spec_positions()[k] == (
                    x as usize,
                    y as usize,
                ) ==> k == y * self.spec_blocks().0 + x,
    {
        let columns = self.spec_blocks().0 as int;
        let rows = self.spec_blocks().1 as int;
        let at = y * columns + x;
        assert(0 <= at < columns * rows) by (nonlinear_arith)
            requires
                0 <= x < columns,
                0 <= y < rows,
                at == y * columns + x,
        ;
        assert(columns * y == y * columns) by (nonlinear_arith);
        vstd::arithmetic::div_mod::lemma_fundamental_div_mod_converse(at, columns, y, x);
        assert forall|k: int|
            0 <= k < self.spec_positions().len() && #[trigger] self.spec_positions()[k] == (
                x as usize,
                y as usize,
            ) implies k == at by {
            vstd::arithmetic::div_mod::lemma_fundamental_div_mod(k, columns);
            vstd::arithmetic::div_mod::lemma_mod_bound(k, columns);
            vstd::arithmetic::div_mod::lemma_div_pos_is_pos(k, columns);
            assert(k / columns < rows) by (nonlinear_arith)
                requires
                    k == columns * (k / columns) + k % columns,
                    0 <= k % columns,
                    k < columns * rows,
                    columns > 0,
            ;
        }
    }

    /// The submitted tiles partition the raster: every pixel of the raster
    /// lies in the tile of exactly one entry of the submission order.
    pub proof fn lemma_submitted_tiles_partition_raster(self, px: int, py: int) -> (at: int)
        requires
            self.is_well_formed(),
            0 <= px < self.spec_raster_size().0,
            0 <= py < self.spec_raster_size().1,
            self.spec_region_size().0 > 0,
            self.spec_region_size().1 > 0,
        ensures
            0 <= at < self.spec_positions().len(),
            self.spec_window(self.spec_positions()[at].0 as int, self.spec_positions()[at].1 as int).contains(
                px,
                py,
            ),
            forall|k: int|
                0 <= k < self.spec_positions().len() && #[trigger] self.spec_window(
                    self.spec_positions()[k].0 as int,
                    self.spec_positions()[k].1 as int,
                ).contains(px, py) ==> k == at,
    {
        let x = px / (self.spec_region_size().0 as int);
        let y = py / (self.spec_region_size().1 as int);
        self.lemma_tiles_partition_raster(px, py);
        self.lemma_positions_complete(x, y);
        let at = y * self.spec_blocks().0 + x;
        assert forall|k: int|
            0 <= k < self.spec_positions().len() && #[trigger] self.spec_window(
                self.spec_positions()[k].0 as int,
                self.spec_positions()[k].1 as int,
            ).contains(px, py) implies k == at by {
            let p = self.spec_positions()[k];
            assert(p.0 as int == x && p.1 as int == y);
            assert(p == (x as usize, y as usize));
        }
        at
    }

    /// Tiles at different positions share no pixel, so writing one tile
    /// never touches the pixels of another.
    pub proof fn lemma_tiles_disjoint(self, x1: int, y1: int, x2: int, y2: int, px: int, py: int)
        requires
            self.is_well_formed(),
            self.has_position(x1, y1),
            self.has_position(x2, y2),
            (x1, y1) != (x2, y2),
        ensures
            !(self.spec_window(x1, y1).contains(px, py) && self.spec_window(x2, y2).contains(px, py)),
    {
        if self.spec_window(x1, y1).contains(px, py) && self.spec_window(x2, y2).contains(px, py) {
            self.lemma_tiles_inside_raster(x1, y1);
            lemma_index_in_grid(x1, self.spec_raster_size().0 as int, self.spec_region_size().0 as int);
            lemma_index_in_grid(y1, self.spec_raster_size().1 as int, self.spec_region_size().1 as int);
            self.lemma_tiles_partition_raster(px, py);
        }
    }

    /// Every submitted position is a position of the grid.
    pub proof fn lemma_positions_sound(self, k: int)
        requires
            0 <= k < self.spec_positions().len(),
        ensures
            self.has_position(self.spec_positions()[k].0 as int, self.spec_positions()[k].1 as int),
    {
        let columns = self.spec_blocks().0 as int;
        let rows = self.spec_blocks().1 as int;
        assert(columns > 0) by (nonlinear_arith)
            requires
                0 <= k < columns * rows,
                columns >= 0,
        ;
        vstd::arithmetic::div_mod::lemma_fundamental_div_mod(k, columns);
        vstd::arithmetic::div_mod::lemma_mod_bound(k, columns);
        vstd::arithmetic::div_mod::lemma_div_pos_is_pos(k, columns);
        assert(k / columns < rows) by (nonlinear_arith)
            requires
                k == columns * (k / columns) + k % columns,
                0 <= k % columns,
                k < columns * rows,
                columns > 0,
        ;
    }
}

/// The rounded-up quotient of `extent` by `edge`, computed without overflow.
pub fn tiles_along(extent: usize, edge: usize) -> (count: usize)
    ensures
        count == spec_tiles_along(extent as int, edge as int),
{
    if extent > 0 && edge > 0 {
        proof {
            lemma_tiles_along_bounds(extent as int, edge as int);
        }
        (extent - 1) / edge + 1
    } else {
        0
    }
}

/// The pixel rectangle of the tile at `(x, y)`, clipped to the raster. A
/// position beyond the raster gets the empty rectangle, however large its
/// coordinates are.
pub fn tile_window(x: usize, y: usize, region: (usize, usize), raster: (usize, usize)) -> (w: Window)
    ensures
        w == spec_tile_window(x as int, y as int, region, raster),
        w.within(raster.0 as int, raster.1 as int),
{
    proof {
        lemma_index_in_grid(x as int, raster.0 as int, region.0 as int);
        lemma_index_in_grid(y as int, raster.1 as int, region.1 as int);
    }
    if x >= tiles_along(raster.0, region.0) || y >= tiles_along(raster.1, region.1) {
        Window::empty()
    } else {
        let left: usize = x * region.0;
        let top: usize = y * region.1;
        let width: usize = min_usize(region.0, raster.0 - left);
        let height: usize = min_usize(region.1, raster.1 - top);
        Window { x: left, y: top, width, height }
    }
}

} // verus!
