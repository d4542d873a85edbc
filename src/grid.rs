use vstd::prelude::*;
use vstd::arithmetic::div_mod::{
    lemma_fundamental_div_mod,
    lemma_fundamental_div_mod_converse,
    lemma_mod_pos_bound,
};

verus! {

/// Entries that one row of a plane contributes to its index stream: two per
/// column, then two degenerate stitches leading to the next row.
pub open spec fn plane_stride(cols: int) -> int {
    2 * cols + 4
}

/// Length of the index stream of a plane with `rows` by `cols` quads; the last
/// row carries no stitch.
pub open spec fn plane_index_count(rows: int, cols: int) -> int {
    rows * plane_stride(cols) - 2
}

/// Entry `k` of the triangle-strip index stream of a plane whose vertices are
/// laid out row-major, `cols + 1` to a row. Each row alternates between its
/// own vertex and the one below it; between rows, the last vertex of the next
/// row and then its first vertex repeat to stitch the strips together.
pub open spec fn plane_index_at(cols: int, k: int) -> int {
    let w = cols + 1;
    let y = k / plane_stride(cols);
    let m = k % plane_stride(cols);
    if m < 2 * w {
        if m % 2 == 0 {
            y * w + m / 2
        } else {
            (y + 1) * w + m / 2
        }
    } else if m == 2 * w {
        (y + 1) * w + cols
    } else {
        (y + 1) * w
    }
}

proof fn lemma_plane_slot(cols: int, y: int, r: int)
    requires
        cols >= 0,
        y >= 0,
        0 <= r < plane_stride(cols),
    ensures
        (y * plane_stride(cols) + r) / plane_stride(cols) == y,
        (y * plane_stride(cols) + r) % plane_stride(cols) == r,
{
    lemma_fundamental_div_mod_converse(
        y * plane_stride(cols) + r,
        plane_stride(cols),
        y,
        r,
    );
}

/// Every entry of a plane's index stream names one of its `(rows + 1) * (cols + 1)` vertices.
pub proof fn lemma_plane_indices_in_range(rows: int, cols: int, k: int)
    requires
        rows >= 1,
        cols >= 0,
        0 <= k < plane_index_count(rows, cols),
    ensures
        0 <= plane_index_at(cols, k) < (rows + 1) * (cols + 1),
{
    let s = plane_stride(cols);
    let w = cols + 1;
    let y = k / s;
    let m = k % s;
    lemma_fundamental_div_mod(k, s);
    lemma_mod_pos_bound(k, s);
    assert(y >= 0) by (nonlinear_arith)
        requires
            k == s * y + m,
            k >= 0,
            0 <= m < s,
    ;
    assert(y < rows) by (nonlinear_arith)
        requires
            k == s * y + m,
            k < rows * s - 2,
            0 <= m,
            s > 0,
    ;
    assert(y == rows - 1 ==> m < 2 * w) by (nonlinear_arith)
        requires
            k == s * y + m,
            k < rows * s - 2,
            s == 2 * w + 2,
    ;
    assert((rows + 1) * w == rows * w + w && (y + 1) * w <= rows * w && y * w >= 0 && (y + 1) * w
        == y * w + w)
        by (nonlinear_arith)
        requires
            0 <= y < rows,
            w >= 1,
    ;
    assert(y + 1 < rows ==> (y + 2) * w <= rows * w && (y + 2) * w == (y + 1) * w + w)
        by (nonlinear_arith)
        requires
            0 <= y < rows,
            w >= 1,
    ;
    if m < 2 * w {
        assert(m / 2 < w);
    }
    assert(0 <= plane_index_at(cols, k) < (rows + 1) * w);
}

/// Build the index stream connecting the `(rows + 1) * (cols + 1)` vertices of
/// a tessellated plane into one triangle strip.
pub fn plane_indices(rows: u32, cols: u32) -> (indices: Vec<u32>)
    requires
        rows >= 1,
        (rows + 1) * (cols + 1) <= u32::MAX,
    ensures
        indices.len() == plane_index_count(rows as int, cols as int),
        forall|k: int|
            0 <= k < indices.len() ==> #[trigger] indices[k] as int == plane_index_at(
                cols as int,
                k,
            ),
        forall|k: int|
            0 <= k < indices.len() ==> 0 <= #[trigger] indices[k] < (rows + 1) * (cols + 1),
{
    let ghost stride = plane_stride(cols as int);
    assert(cols + 1 <= (rows + 1) * (cols + 1)) by (nonlinear_arith)
        requires
            rows >= 1,
    ;
    let w: u32 = cols + 1;
    let mut indices: Vec<u32> = Vec::new();
    let mut y: u32 = 0;
    while y < rows
        invariant
            rows >= 1,
            (rows + 1) * (cols + 1) <= u32::MAX,
            w == cols + 1,
            stride == plane_stride(cols as int),
            y <= rows,
            y < rows ==> indices.len() == y * stride,
            y == rows ==> indices.len() == plane_index_count(rows as int, cols as int),
            forall|k: int|
                0 <= k < indices.len() ==> #[trigger] indices[k] as int == plane_index_at(
                    cols as int,
                    k,
                ),
        decreases rows - y,
    {
        assert((y + 2) * w <= (rows + 1) * w) by (nonlinear_arith)
            requires
                y < rows,
        ;
        let mut x: u32 = 0;
        while x < w
            invariant
                rows >= 1,
                (rows + 1) * (cols + 1) <= u32::MAX,
                w == cols + 1,
                stride == plane_stride(cols as int),
                y < rows,
                (y + 2) * w <= (rows + 1) * w,
                x <= w,
                indices.len() == y * stride + 2 * x,
                forall|k: int|
                    0 <= k < indices.len() ==> #[trigger] indices[k] as int == plane_index_at(
                        cols as int,
                        k,
                    ),
            decreases w - x,
        {
            assert((y + 2) * w == (y + 1) * w + w && (y + 1) * w == y * w + w)
                by (nonlinear_arith);
            proof {
                lemma_plane_slot(cols as int, y as int, 2 * x);
                lemma_plane_slot(cols as int, y as int, 2 * x + 1);
            }
            indices.push(y * w + x);
            indices.push((y + 1) * w + x);
            x = x + 1;
        }
        assert((y + 1) * stride == y * stride + stride) by (nonlinear_arith);
        if y + 1 < rows {
            assert((y + 2) * w == (y + 1) * w + w) by (nonlinear_arith);
            proof {
                lemma_plane_slot(cols as int, y as int, 2 * w);
                lemma_plane_slot(cols as int, y as int, 2 * w + 1);
            }
            indices.push((y + 1) * w + cols);
            indices.push((y + 1) * w);
        }
        y = y + 1;
    }
    assert forall|k: int| 0 <= k < indices.len() implies 0 <= #[trigger] indices[k] < (rows + 1)
        * (cols + 1) by {
        lemma_plane_indices_in_range(rows as int, cols as int, k);
    }
    indices
}

/// Length of the index stream of a sphere: two triangles for each of the
/// `slices - 1` quads of each of its `tiles` bands.
pub open spec fn sphere_index_count(tiles: int, slices: int) -> int {
    6 * (tiles * (slices - 1))
}

/// Entry `k` of the triangle-list index stream of a sphere. Quad `q` lies in
/// band `q / (slices - 1)` at position `q % (slices - 1) + 1`; its two triangles
/// join the vertex before it and the vertex itself to the same two vertices
/// one band further on.
pub open spec fn sphere_index_at(slices: int, k: int) -> int {
    let q = k / 6;
    let r = k % 6;
    let idx = (q / (slices - 1)) * slices + q % (slices - 1) + 1;
    if r == 0 {
        idx - 1
    } else if r == 1 || r == 4 {
        idx + slices - 1
    } else if r == 2 || r == 3 {
        idx
    } else {
        idx + slices
    }
}

proof fn lemma_sphere_slot(slices: int, j: int, i: int, r: int)
    requires
        slices >= 2,
        j >= 0,
        1 <= i < slices,
        0 <= r < 6,
    ensures
        ({
            let k = 6 * ((slices - 1) * j + (i - 1)) + r;
            &&& k / 6 == (slices - 1) * j + (i - 1)
            &&& k % 6 == r
            &&& (k / 6) / (slices - 1) == j
            &&& (k / 6) % (slices - 1) == i - 1
        }),
{
    let q = (slices - 1) * j + (i - 1);
    lemma_fundamental_div_mod_converse(6 * q + r, 6, q, r);
    lemma_fundamental_div_mod_converse(q, slices - 1, j, i - 1);
}

/// Build the triangle-list index stream of a sphere tessellated into `tiles`
/// bands of `slices` quads.
pub fn sphere_indices(tiles: u32, slices: u32) -> (indices: Vec<u32>)
    requires
        slices >= 1,
        (tiles + 1) * (slices + 1) <= u32::MAX,
    ensures
        indices.len() == sphere_index_count(tiles as int, slices as int),
        forall|k: int|
            0 <= k < indices.len() ==> #[trigger] indices[k] as int == sphere_index_at(
                slices as int,
                k,
            ),
        forall|k: int|
            0 <= k < indices.len() ==> 0 <= #[trigger] indices[k] < (tiles + 1) * (slices + 1),
{
    let ghost bound = (tiles + 1) * (slices + 1);
    let mut indices: Vec<u32> = Vec::new();
    let mut offset: u32 = 0;
    let mut j: u32 = 0;
    while j < tiles
        invariant
            slices >= 1,
            (tiles + 1) * (slices + 1) <= u32::MAX,
            bound == (tiles + 1) * (slices + 1),
            j <= tiles,
            offset == j * slices,
            indices.len() == 6 * (j * (slices - 1)),
            forall|k: int|
                0 <= k < indices.len() ==> #[trigger] indices[k] as int == sphere_index_at(
                    slices as int,
                    k,
                ),
            forall|k: int| 0 <= k < indices.len() ==> 0 <= #[trigger] indices[k] < bound,
        decreases tiles - j,
    {
        assert((j + 2) * slices <= (tiles + 1) * (slices + 1) && (j + 2) * slices == j * slices
            + 2 * slices && (j + 1) * slices == j * slices + slices && (j + 1) * (slices - 1) == j * (slices - 1) + slices - 1)
            by (nonlinear_arith)
            requires
                j < tiles,
                slices >= 1,
        ;
        let mut i: u32 = 1;
        while i < slices
            invariant
                slices >= 1,
                bound == (tiles + 1) * (slices + 1),
                j < tiles,
                offset == j * slices,
                (j + 2) * slices <= bound,
                (j + 2) * slices == j * slices + 2 * slices,
                bound <= u32::MAX,
                1 <= i <= slices,
                indices.len() == 6 * (j * (slices - 1) + (i - 1)),
                forall|k: int|
                    0 <= k < indices.len() ==> #[trigger] indices[k] as int == sphere_index_at(
                        slices as int,
                        k,
                    ),
                forall|k: int| 0 <= k < indices.len() ==> 0 <= #[trigger] indices[k] < bound,
            decreases slices - i,
        {
            proof {
                assert(j * (slices - 1) == (slices - 1) * j) by (nonlinear_arith);
                lemma_sphere_slot(slices as int, j as int, i as int, 0);
                lemma_sphere_slot(slices as int, j as int, i as int, 1);
                lemma_sphere_slot(slices as int, j as int, i as int, 2);
                lemma_sphere_slot(slices as int, j as int, i as int, 3);
                lemma_sphere_slot(slices as int, j as int, i as int, 4);
                lemma_sphere_slot(slices as int, j as int, i as int, 5);
            }
            let idx: u32 = i + offset;
            indices.push(idx - 1);
            indices.push(idx + slices - 1);
            indices.push(idx);
            indices.push(idx);
            indices.push(idx + slices - 1);
            indices.push(idx + slices);
            i = i + 1;
        }
        offset = offset + slices;
        j = j + 1;
    }
    indices
}

/// Position of grid point `(x, y)` in the row-major vertex sequence of a grid
/// with `width` vertices to a row.
pub open spec fn grid_vertex(width: int, x: int, y: int) -> int {
    y * width + x
}

/// Sample a surface on the `(rows + 1) * (cols + 1)` points of a uniform grid,
/// row-major: vertex `k` holds what `sample` returned for column `k % (cols + 1)`
/// of row `k / (cols + 1)`.
pub fn sample_grid<P, F: Fn(u32, u32) -> P>(rows: u32, cols: u32, sample: F) -> (vertices: Vec<P>)
    requires
        (rows + 1) * (cols + 1) <= u32::MAX,
        forall|x: u32, y: u32| x <= cols && y <= rows ==> #[trigger] sample.requires((x, y)),
    ensures
        vertices.len() == (rows + 1) * (cols + 1),
        forall|k: int|
            0 <= k < vertices.len() ==> sample.ensures(
                ((k % (cols + 1)) as u32, (k / (cols + 1)) as u32),
                #[trigger] vertices[k],
            ),
{
    assert(rows + 1 <= (rows + 1) * (cols + 1) && cols + 1 <= (rows + 1) * (cols + 1))
        by (nonlinear_arith);
    let w: u32 = cols + 1;
    let mut vertices: Vec<P> = Vec::new();
    let mut y: u32 = 0;
    while y <= rows
        invariant
            (rows + 1) * (cols + 1) <= u32::MAX,
            forall|x: u32, y: u32| x <= cols && y <= rows ==> #[trigger] sample.requires((x, y)),
            w == cols + 1,
            rows + 1 <= u32::MAX,
            y <= rows + 1,
            vertices.len() == y * w,
            forall|k: int|
                0 <= k < vertices.len() ==> sample.ensures(
                    ((k % (w as int)) as u32, (k / (w as int)) as u32),
                    #[trigger] vertices[k],
                ),
        decreases rows + 1 - y,
    {
        assert((y + 1) * w == y * w + w) by (nonlinear_arith);
        let mut x: u32 = 0;
        while x <= cols
            invariant
                (rows + 1) * (cols + 1) <= u32::MAX,
                forall|x: u32, y: u32| x <= cols && y <= rows ==> #[trigger] sample.requires((x, y)),
                w == cols + 1,
                y <= rows,
                x <= w,
                (y + 1) * w == y * w + w,
                vertices.len() == y * w + x,
                forall|k: int|
                    0 <= k < vertices.len() ==> sample.ensures(
                        ((k % (w as int)) as u32, (k / (w as int)) as u32),
                        #[trigger] vertices[k],
                    ),
            decreases w - x,
        {
            proof {
                lemma_fundamental_div_mod_converse(y * w + x, w as int, y as int, x as int);
            }
            let p = sample(x, y);
            vertices.push(p);
            x = x + 1;
        }
        y = y + 1;
    }
    vertices
}

/// Round trip of tessellation: when the sampler gives one result per grid
/// point, re-evaluating it at column `x` of row `y` reproduces exactly the
/// vertex that the grid holds at `y * (cols + 1) + x`.
pub proof fn lemma_grid_round_trip<P, F: Fn(u32, u32) -> P>(
    rows: u32,
    cols: u32,
    sample: F,
    vertices: Seq<P>,
    x: u32,
    y: u32,
    p: P,
)
    requires
        (rows + 1) * (cols + 1) <= u32::MAX,
        vertices.len() == (rows + 1) * (cols + 1),
        forall|k: int|
            0 <= k < vertices.len() ==> sample.ensures(
                ((k % (cols + 1)) as u32, (k / (cols + 1)) as u32),
                #[trigger] vertices[k],
            ),
        forall|a: (u32, u32), r1: P, r2: P|
            #![trigger sample.ensures(a, r1), sample.ensures(a, r2)]
            sample.ensures(a, r1) && sample.ensures(a, r2) ==> r1 == r2,
        x <= cols,
        y <= rows,
        sample.ensures((x, y), p),
    ensures
        vertices[grid_vertex(cols + 1, x as int, y as int)] == p,
{
    let w = cols + 1;
    let k = grid_vertex(w as int, x as int, y as int);
    lemma_fundamental_div_mod_converse(k, w as int, y as int, x as int);
    assert(k < (rows + 1) * w) by (nonlinear_arith)
        requires
            k == y * w + x,
            x < w,
            y <= rows,
    ;
    assert(sample.ensures((x, y), vertices[k]));
}

} // verus!
