//! A finite grid mesh that looks infinite because it follows the camera in
//! whole cells.

use vstd::prelude::*;
use vstd::arithmetic::div_mod::lemma_fundamental_div_mod;
use vstd::arithmetic::div_mod::lemma_fundamental_div_mod_converse;

verus! {

/// Distance between two integers.
pub open spec fn distance(a: int, b: int) -> int {
    if a >= b {
        a - b
    } else {
        b - a
    }
}

/// The whole number of cells nearest to `x / spacing`. Where `x` lies exactly
/// between two cells, the one farther from zero is taken.
pub open spec fn snapped_cells(x: int, spacing: int) -> int
    recommends
        spacing > 0,
{
    if x >= 0 {
        (2 * x + spacing) / (2 * spacing)
    } else {
        -((2 * (-x) + spacing) / (2 * spacing))
    }
}

/// The multiple of `spacing` nearest to `x`, ties away from zero.
pub open spec fn snapped(x: int, spacing: int) -> int
    recommends
        spacing > 0,
{
    snapped_cells(x, spacing) * spacing
}

/// The per-axis snapping of a point.
pub open spec fn snapped_point(p: (i32, i32), spacing: int) -> (int, int) {
    (snapped(p.0 as int, spacing), snapped(p.1 as int, spacing))
}

/// For `x >= 0`, the quotient that `snapped` multiplies by the spacing is a
/// whole number of cells no farther than half a cell from `x`.
proof fn lemma_snapped_nonneg(x: int, spacing: int)
    requires
        spacing > 0,
        x >= 0,
    ensures
        0 <= snapped_cells(x, spacing),
        snapped_cells(-x, spacing) == -snapped_cells(x, spacing),
        snapped(-x, spacing) == -snapped(x, spacing),
        2 * x - spacing < 2 * snapped(x, spacing) <= 2 * x + spacing,
{
    let n = 2 * x + spacing;
    let d = 2 * spacing;
    let q = n / d;
    lemma_fundamental_div_mod(n, d);
    assert(0 <= n % d < d);
    assert(d * q == 2 * (q * spacing)) by (nonlinear_arith)
        requires
            d == 2 * spacing,
    ;
    assert(q >= 0) by (nonlinear_arith)
        requires
            d * q + (n % d) == n,
            n >= 0,
            d > 0,
            n % d < d,
    ;
    assert((-q) * spacing == -(q * spacing)) by (nonlinear_arith);
    if x == 0 {
        assert(q == 0) by (nonlinear_arith)
            requires
                d * q + (n % d) == n,
                n == spacing,
                d == 2 * spacing,
                q >= 0,
                0 <= n % d,
                spacing > 0,
        ;
    }
}

/// Snapping lands on a whole number of cells.
pub proof fn lemma_snapped_is_multiple(x: int, spacing: int)
    requires
        spacing > 0,
    ensures
        snapped(x, spacing) == snapped_cells(x, spacing) * spacing,
        snapped(x, spacing) % spacing == 0,
{
    let k = snapped_cells(x, spacing);
    assert(k * spacing == spacing * k + 0) by (nonlinear_arith);
    lemma_fundamental_div_mod_converse(k * spacing, spacing, k, 0);
}

/// Snapping moves a coordinate by at most half a cell.
pub proof fn lemma_snapped_is_near(x: int, spacing: int)
    requires
        spacing > 0,
    ensures
        2 * distance(x, snapped(x, spacing)) <= spacing,
{
    let ax = if x >= 0 { x } else { -x };
    lemma_snapped_nonneg(ax, spacing);
}

/// A tie is broken away from zero: where `x` is exactly half a cell from its
/// snapped value, that value is the farther from zero of the two candidates.
pub proof fn lemma_snapped_tie_away_from_zero(x: int, spacing: int)
    requires
        spacing > 0,
        2 * distance(x, snapped(x, spacing)) == spacing,
    ensures
        x > 0 ==> snapped(x, spacing) > x,
        x < 0 ==> snapped(x, spacing) < x,
        x != 0,
{
    let ax = if x >= 0 { x } else { -x };
    lemma_snapped_nonneg(ax, spacing);
}

/// No other multiple of the spacing is as close: a multiple strictly nearer
/// than half a cell is the snapped value itself.
pub proof fn lemma_snapped_is_nearest(x: int, spacing: int, k: int)
    requires
        spacing > 0,
        2 * distance(x, k * spacing) < spacing,
    ensures
        snapped(x, spacing) == k * spacing,
{
    let ax = if x >= 0 { x } else { -x };
    lemma_snapped_nonneg(ax, spacing);
    let j = snapped_cells(x, spacing);
    // Two multiples of the spacing less than one cell apart coincide.
    assert(j == k) by (nonlinear_arith)
        requires
            spacing > 0,
            2 * distance(x, k * spacing) < spacing,
            2 * distance(x, j * spacing) <= spacing,
            distance(x, k * spacing) == if x >= k * spacing { x - k * spacing } else { k * spacing - x },
            distance(x, j * spacing) == if x >= j * spacing { x - j * spacing } else { j * spacing - x },
    ;
}

/// A coordinate that already is a whole number of cells stays where it is.
pub proof fn lemma_snapped_fixes_multiples(k: int, spacing: int)
    requires
        spacing > 0,
    ensures
        snapped(k * spacing, spacing) == k * spacing,
{
    lemma_snapped_is_nearest(k * spacing, spacing, k);
}

/// Snapping twice is snapping once.
pub proof fn lemma_snapped_idempotent(x: int, spacing: int)
    requires
        spacing > 0,
    ensures
        snapped(snapped(x, spacing), spacing) == snapped(x, spacing),
{
    lemma_snapped_fixes_multiples(snapped_cells(x, spacing), spacing);
}

/// Snaps one coordinate to the nearest multiple of `spacing`, ties away from
/// zero.
pub fn snap_axis(x: i32, spacing: i32) -> (r: i64)
    requires
        spacing > 0,
    ensures
        r == snapped(x as int, spacing as int),
        r % (spacing as i64) == 0,
        2 * distance(x as int, r as int) <= spacing,
{
    let s: i64 = spacing as i64;
    let ax: i64 = if x >= 0 { x as i64 } else { -(x as i64) };
    proof {
        lemma_snapped_nonneg(ax as int, s as int);
        lemma_snapped_is_multiple(x as int, s as int);
        lemma_snapped_is_near(x as int, s as int);
    }
    let cells: i64 = (2 * ax + s) / (2 * s);
    assert(0 <= cells * s <= 0x1_0000_0000) by (nonlinear_arith)
        requires
            cells >= 0,
            2 * ax - s < 2 * (cells * s) <= 2 * ax + s,
            0 <= ax <= 0x8000_0000,
            0 < s < 0x8000_0000,
    ;
    let m: i64 = cells * s;
    if x >= 0 {
        m
    } else {
        -m
    }
}

/// What a grid is to its users: the cell size and where the mesh is drawn.
pub struct GridModel {
    pub spacing: int,
    pub aligned_offset: (int, int),
}

/// The grid after it has followed the camera to `camera`: same cells, mesh
/// moved to the snapped camera position. The previous offset plays no part.
pub open spec fn realigned(grid: GridModel, camera: (i32, i32)) -> GridModel {
    GridModel { spacing: grid.spacing, aligned_offset: snapped_point(camera, grid.spacing) }
}

/// Realigning to a camera that has not moved changes nothing.
pub proof fn lemma_realign_idempotent(grid: GridModel, camera: (i32, i32))
    ensures
        realigned(realigned(grid, camera), camera) == realigned(grid, camera),
{
}

/// Where the mesh lands depends on the camera and the cell size alone: two
/// grids of equal spacing agree after following the same camera, wherever
/// they were before.
pub proof fn lemma_realign_forgets_history(a: GridModel, b: GridModel, camera: (i32, i32))
    requires
        a.spacing == b.spacing,
    ensures
        realigned(a, camera) == realigned(b, camera),
{
}

/// After realignment the mesh sits on a whole number of cells on both axes,
/// no farther than half a cell from the camera on either.
pub proof fn lemma_realigned_is_aligned(grid: GridModel, camera: (i32, i32))
    requires
        grid.spacing > 0,
    ensures
        realigned(grid, camera).aligned_offset.0 % grid.spacing == 0,
        realigned(grid, camera).aligned_offset.1 % grid.spacing == 0,
        2 * distance(camera.0 as int, realigned(grid, camera).aligned_offset.0) <= grid.spacing,
        2 * distance(camera.1 as int, realigned(grid, camera).aligned_offset.1) <= grid.spacing,
{
    lemma_snapped_is_multiple(camera.0 as int, grid.spacing);
    lemma_snapped_is_multiple(camera.1 as int, grid.spacing);
    lemma_snapped_is_near(camera.0 as int, grid.spacing);
    lemma_snapped_is_near(camera.1 as int, grid.spacing);
}

/// The reference grid: square cells of side `spacing`, drawn by a fixed mesh
/// that is translated by `aligned_offset`.
#[derive(Clone, Copy, Debug)]
pub struct InfiniteGrid {
    spacing: i32,
    aligned_offset: (i64, i64),
}

impl View for InfiniteGrid {
    type V = GridModel;

    closed spec fn view(&self) -> GridModel {
        GridModel {
            spacing: self.spacing as int,
            aligned_offset: (self.aligned_offset.0 as int, self.aligned_offset.1 as int),
        }
    }
}

impl InfiniteGrid {
    /// Cells have a positive side and the mesh sits on a whole number of
    /// them on both axes.
    pub open spec fn wf(&self) -> bool {
        &&& self@.spacing > 0
        &&& self@.aligned_offset.0 % self@.spacing == 0
        &&& self@.aligned_offset.1 % self@.spacing == 0
    }

    /// A grid of the given cell size with its mesh at the origin; `None`
    /// unless the cell size is positive.
    pub fn new(spacing: i32) -> (grid: Option<InfiniteGrid>)
        ensures
            grid.is_some() <==> spacing > 0,
            grid matches Some(g) ==> g.wf() && g@ == (GridModel {
                spacing: spacing as int,
                aligned_offset: (0, 0),
            }),
    {
        if spacing > 0 {
            assert(0int % (spacing as int) == 0) by (nonlinear_arith)
                requires
                    spacing > 0,
            ;
            Some(InfiniteGrid { spacing, aligned_offset: (0, 0) })
        } else {
            None
        }
    }

    /// Side of a cell, in world units.
    pub fn spacing(&self) -> (s: i32)
        ensures
            s == self@.spacing,
    {
        self.spacing
    }

    /// Translation applied to the mesh.
    pub fn aligned_offset(&self) -> (offset: (i64, i64))
        ensures
            offset.0 == self@.aligned_offset.0,
            offset.1 == self@.aligned_offset.1,
    {
        self.aligned_offset
    }

    /// Moves the mesh to the cell corner nearest to the camera.
    pub fn move_grid(&mut self, camera: (i32, i32))
        requires
            old(self)@.spacing > 0,
        ensures
            final(self).wf(),
            final(self)@ == realigned(old(self)@, camera),
            2 * distance(camera.0 as int, final(self)@.aligned_offset.0) <= final(self)@.spacing,
            2 * distance(camera.1 as int, final(self)@.aligned_offset.1) <= final(self)@.spacing,
    {
        let x: i64 = snap_axis(camera.0, self.spacing);
        let y: i64 = snap_axis(camera.1, self.spacing);
        self.aligned_offset = (x, y);
    }
}

impl Default for InfiniteGrid {
    /// Cells of 100 world units, mesh at the origin.
    fn default() -> (grid: InfiniteGrid)
        ensures
            grid.wf(),
            grid@ == (GridModel { spacing: 100, aligned_offset: (0, 0) }),
    {
        InfiniteGrid { spacing: 100, aligned_offset: (0, 0) }
    }
}

/// Largest grid size whose mesh can be indexed with 32-bit indices.
pub const MAX_GRID_SIZE: u64 = 0x3FFF_FFFE;

/// The larger side of the viewport.
pub open spec fn viewport_extent(width: int, height: int) -> int {
    if width >= height {
        width
    } else {
        height
    }
}

/// Number of cells along one side of the mesh: as many as cover the larger
/// side of the viewport, and one more.
pub open spec fn grid_size_of(width: int, height: int, spacing: int) -> int
    recommends
        spacing > 0,
{
    (viewport_extent(width, height) + spacing - 1) / spacing + 1
}

/// Number of vertices of a mesh of `size` cells a side: two per line,
/// `size + 1` lines in each of the two directions.
pub open spec fn vertex_count(size: int) -> int {
    4 * (size + 1)
}

/// Vertex `k` of the mesh, in half world units (so that a mesh with an odd
/// number of odd-sized cells has whole coordinates too). The mesh is
/// centred on the origin and reaches `size * spacing / 2` world units to
/// each side. The first `2 * (size + 1)` vertices are the end points of the
/// lines of constant x, left to right; the rest those of the lines of
/// constant y, bottom to top. Each line starts at its lower or left end.
pub open spec fn grid_vertex(size: int, spacing: int, k: int) -> (int, int) {
    let reach = size * spacing;
    let far = if k % 2 == 0 {
        -reach
    } else {
        reach
    };
    if k < 2 * (size + 1) {
        (2 * (k / 2) * spacing - reach, far)
    } else {
        (far, 2 * ((k - 2 * (size + 1)) / 2) * spacing - reach)
    }
}

/// The line list of the grid.
pub struct GridMesh {
    /// Cells along one side.
    pub grid_size: u32,
    /// End points of the lines, in half world units.
    pub positions: Vec<(i64, i64)>,
    /// For each line the places of its two end points in `positions`.
    pub indices: Vec<u32>,
}

impl GridMesh {
    /// The mesh is the line list of a grid of `size` cells a side, each of
    /// side `spacing`: every vertex is where `grid_vertex` puts it, and
    /// line `j` joins the vertices `2 * j` and `2 * j + 1`.
    pub open spec fn is_grid(&self, size: int, spacing: int) -> bool {
        &&& self.grid_size == size
        &&& self.positions@.len() == vertex_count(size)
        &&& forall|k: int|
            0 <= k < vertex_count(size) ==> (#[trigger] self.positions@[k]).0 == grid_vertex(
                size,
                spacing,
                k,
            ).0 && self.positions@[k].1 == grid_vertex(size, spacing, k).1
        &&& self.indices@.len() == vertex_count(size)
        &&& forall|k: int| 0 <= k < vertex_count(size) ==> #[trigger] self.indices@[k] == k
    }
}

/// The size of the grid is the least number of cells that covers the
/// viewport, plus one.
pub proof fn lemma_grid_size_covers(width: int, height: int, spacing: int)
    requires
        spacing > 0,
        width >= 0,
        height >= 0,
    ensures
        grid_size_of(width, height, spacing) >= 1,
        (grid_size_of(width, height, spacing) - 1) * spacing >= viewport_extent(width, height),
        (grid_size_of(width, height, spacing) - 2) * spacing < viewport_extent(width, height),
        grid_size_of(width, height, spacing) <= viewport_extent(width, height) + 1,
{
    let e = viewport_extent(width, height);
    let n = e + spacing - 1;
    let q = n / spacing;
    lemma_fundamental_div_mod(n, spacing);
    assert(q * spacing >= e && (q - 1) * spacing < e && q >= 0 && q <= e) by (nonlinear_arith)
        requires
            spacing * q + (n % spacing) == n,
            0 <= n % spacing < spacing,
            n == e + spacing - 1,
            e >= 0,
            spacing > 0,
    ;
}

/// Cells along one side of the mesh for a viewport of the given size.
pub fn grid_size(width: u32, height: u32, spacing: i32) -> (size: u64)
    requires
        spacing > 0,
    ensures
        size == grid_size_of(width as int, height as int, spacing as int),
        (size - 1) * spacing >= viewport_extent(width as int, height as int),
        (size - 2) * spacing < viewport_extent(width as int, height as int),
{
    proof {
        lemma_grid_size_covers(width as int, height as int, spacing as int);
    }
    let extent: u64 = if width >= height { width as u64 } else { height as u64 };
    let step: u64 = spacing as u64;
    (extent + step - 1) / step + 1
}

/// Builds the line list of the grid for a viewport of the given size, or
/// nothing where the cell size is not positive or the mesh would have more
/// vertices than 32-bit indices reach.
pub fn spawn_grid(width: u32, height: u32, spacing: i32) -> (mesh: Option<GridMesh>)
    ensures
        mesh.is_some() <==> spacing > 0 && grid_size_of(
            width as int,
            height as int,
            spacing as int,
        ) <= MAX_GRID_SIZE,
        mesh matches Some(m) ==> m.is_grid(
            grid_size_of(width as int, height as int, spacing as int),
            spacing as int,
        ),
{
    if spacing <= 0 {
        return None;
    }
    let size: u64 = grid_size(width, height, spacing);
    if size > MAX_GRID_SIZE {
        return None;
    }
    let n: i64 = size as i64;
    let s: i64 = spacing as i64;
    assert(0 <= n * s <= 0x2000_0000_0000_0000) by (nonlinear_arith)
        requires
            0 <= n <= 0x4000_0000,
            0 < s <= 0x8000_0000,
    ;
    let reach: i64 = n * s;
    let mut positions: Vec<(i64, i64)> = Vec::new();
    let mut i: i64 = 0;
    while i <= n
        invariant
            0 <= i <= n + 1,
            0 <= n <= 0x4000_0000,
            0 < s <= 0x8000_0000,
            s == spacing,
            reach == n * s,
            positions@.len() == 2 * i,
            forall|k: int|
                0 <= k < 2 * i ==> (#[trigger] positions@[k]).0 == grid_vertex(
                    n as int,
                    s as int,
                    k,
                ).0 && positions@[k].1 == grid_vertex(n as int, s as int, k).1,
        decreases n + 1 - i,
    {
        assert(0 <= 2 * i * s <= 0x4000_0000_0000_0008) by (nonlinear_arith)
            requires
                0 <= i <= 0x4000_0000,
                0 < s <= 0x8000_0000,
        ;
        let offset: i64 = 2 * i * s - reach;
        positions.push((offset, -reach));
        positions.push((offset, reach));
        i = i + 1;
    }
    let mut j: i64 = 0;
    while j <= n
        invariant
            0 <= j <= n + 1,
            0 <= n <= 0x4000_0000,
            0 < s <= 0x8000_0000,
            s == spacing,
            reach == n * s,
            positions@.len() == 2 * (n + 1) + 2 * j,
            forall|k: int|
                0 <= k < 2 * (n + 1) + 2 * j ==> (#[trigger] positions@[k]).0 == grid_vertex(
                    n as int,
                    s as int,
                    k,
                ).0 && positions@[k].1 == grid_vertex(n as int, s as int, k).1,
        decreases n + 1 - j,
    {
        assert(0 <= 2 * j * s <= 0x4000_0000_0000_0008) by (nonlinear_arith)
            requires
                0 <= j <= 0x4000_0000,
                0 < s <= 0x8000_0000,
        ;
        let offset: i64 = 2 * j * s - reach;
        positions.push((-reach, offset));
        positions.push((reach, offset));
        j = j + 1;
    }
    let lines: u32 = 2 * (size as u32 + 1);
    let mut indices: Vec<u32> = Vec::new();
    let mut line: u32 = 0;
    while line < lines
        invariant
            0 <= line <= lines,
            lines == 2 * (n + 1),
            lines <= 0x7FFF_FFFE,
            indices@.len() == 2 * line,
            forall|k: int| 0 <= k < 2 * line ==> #[trigger] indices@[k] == k,
        decreases lines - line,
    {
        indices.push(line * 2);
        indices.push(line * 2 + 1);
        line = line + 1;
    }
    Some(GridMesh { grid_size: size as u32, positions, indices })
}

} // verus!
