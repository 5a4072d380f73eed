//! The grid descriptor: the parameter block from which the vertex stage
//! synthesises every vertex of the height field, and the mapping from a
//! vertex index to its grid point, position and texture coordinate.
use vstd::prelude::*;
use vstd::arithmetic::div_mod::{lemma_multiply_divide_lt, lemma_mod_division_less_than_divisor};
use crate::frac::{Frac, Ratio, le, same};

verus! {

/// Vertices emitted for each quad: two triangles, not shared.
pub const VERTS_PER_QUAD: u32 = 6;

/// Grid offset of each of the six vertices of a quad. Corners are numbered
/// 0 = (0, 0), 1 = (1, 0), 2 = (0, 1), 3 = (1, 1); the two triangles are
/// corners 0, 1, 2 and 2, 1, 3.
pub open spec fn corner_offset(c: int) -> (int, int) {
    if c == 0 {
        (0, 0)
    } else if c == 1 {
        (1, 0)
    } else if c == 2 {
        (0, 1)
    } else if c == 3 {
        (0, 1)
    } else if c == 4 {
        (1, 0)
    } else {
        (1, 1)
    }
}

/// Integer grid point of a vertex index in a grid `quads_in_row` quads wide.
pub open spec fn grid_point_of(quads_in_row: int, vertex: int) -> (int, int) {
    let quad = vertex / 6;
    let d = corner_offset(vertex % 6);
    (quad % quads_in_row + d.0, quad / quads_in_row + d.1)
}

/// `offset + k * scale`, as a numerator and a denominator.
pub open spec fn along(offset: Frac, k: int, scale: Frac) -> (int, int) {
    (offset.num * scale.den + k * scale.num * offset.den, offset.den * scale.den)
}

/// Parameter block of one procedurally generated grid.
#[derive(Copy, Clone, PartialEq, Eq, Structural, Debug)]
pub struct Descriptor {
    /// Number of quads in a row.
    pub quads_in_row: u32,
    /// Number of rows of quads.
    pub rows_of_quads: u32,
    /// Location of the first x value.
    pub xoffset: Frac,
    /// Location of the first y value.
    pub yoffset: Frac,
    /// Step in x from one grid column to the next.
    pub xscale: Frac,
    /// Step in y from one grid row to the next.
    pub yscale: Frac,
    /// Code of the image channel that drives elevation.
    pub channel: i32,
    /// Constant depth offset of this grid.
    pub zdisplace: Frac,
}

impl Descriptor {
    pub open spec fn vertex_count(self) -> int {
        self.quads_in_row * self.rows_of_quads * 6
    }

    pub open spec fn wf(self) -> bool {
        &&& self.quads_in_row >= 1
        &&& self.rows_of_quads >= 1
        &&& self.xoffset.wf()
        &&& self.yoffset.wf()
        &&& self.xscale.wf()
        &&& self.yscale.wf()
        &&& self.zdisplace.wf()
        &&& self.vertex_count() <= u32::MAX
    }

    /// Grid point of a vertex index.
    pub open spec fn point_of(self, vertex: int) -> (int, int) {
        grid_point_of(self.quads_in_row as int, vertex)
    }

    /// A descriptor for a grid of `rowsize` by `nrows` vertices.
    pub fn new(
        rowsize: u32,
        nrows: u32,
        xoffset: Frac,
        yoffset: Frac,
        xscale: Frac,
        yscale: Frac,
        channel: i32,
        zdisplace: Frac,
    ) -> (r: Descriptor)
        requires
            rowsize >= 2,
            nrows >= 2,
            xoffset.wf(),
            yoffset.wf(),
            xscale.wf(),
            yscale.wf(),
            zdisplace.wf(),
            (rowsize - 1) * (nrows - 1) * 6 <= u32::MAX,
        ensures
            r.wf(),
            r.quads_in_row == rowsize - 1,
            r.rows_of_quads == nrows - 1,
            r.xoffset == xoffset,
            r.yoffset == yoffset,
            r.xscale == xscale,
            r.yscale == yscale,
            r.channel == channel,
            r.zdisplace == zdisplace,
    {
        Descriptor {
            quads_in_row: rowsize - 1,
            rows_of_quads: nrows - 1,
            xoffset,
            yoffset,
            xscale,
            yscale,
            channel,
            zdisplace,
        }
    }

    /// A descriptor for a grid of `rowsize` by `nrows` vertices that spans
    /// -1 to +1 in both x and y.
    pub fn default(rowsize: u32, nrows: u32, channel: i32, zdisplace: Frac) -> (r: Descriptor)
        requires
            rowsize >= 2,
            nrows >= 2,
            zdisplace.wf(),
            (rowsize - 1) * (nrows - 1) * 6 <= u32::MAX,
        ensures
            r.wf(),
            r.quads_in_row == rowsize - 1,
            r.rows_of_quads == nrows - 1,
            r.xoffset == (Frac { num: -1i32, den: 1 }),
            r.yoffset == (Frac { num: -1i32, den: 1 }),
            r.xscale == (Frac { num: 2, den: (rowsize - 1) as u32 }),
            r.yscale == (Frac { num: 2, den: (nrows - 1) as u32 }),
            r.channel == channel,
            r.zdisplace == zdisplace,
    {
        let quads_in_row = rowsize - 1;
        let rows_of_quads = nrows - 1;
        Descriptor {
            quads_in_row,
            rows_of_quads,
            xoffset: Frac::whole(-1),
            yoffset: Frac::whole(-1),
            xscale: Frac::new(2, quads_in_row),
            yscale: Frac::new(2, rows_of_quads),
            channel,
            zdisplace,
        }
    }

    /// The same grid for another channel and depth offset.
    pub fn another(&self, channel: i32, zdisplace: Frac) -> (r: Descriptor)
        ensures
            r == (Descriptor { channel, zdisplace, ..*self }),
    {
        Descriptor { channel, zdisplace, ..*self }
    }

    /// Number of vertices the grid generates.
    pub fn nverts(&self) -> (r: u32)
        requires
            self.wf(),
        ensures
            r == self.vertex_count(),
    {
        proof {
            assert(self.quads_in_row * self.rows_of_quads <= self.vertex_count()) by (nonlinear_arith)
                requires
                    self.quads_in_row * self.rows_of_quads >= 0,
                    self.vertex_count() == self.quads_in_row * self.rows_of_quads * 6,
            ;
        }
        self.quads_in_row * self.rows_of_quads * VERTS_PER_QUAD
    }

    /// Integer grid point `(column, row)` of a vertex index.
    pub fn grid_point(&self, vertex: u32) -> (r: (u32, u32))
        requires
            self.wf(),
            vertex < self.vertex_count(),
        ensures
            r.0 == self.point_of(vertex as int).0,
            r.1 == self.point_of(vertex as int).1,
            r.0 <= self.quads_in_row,
            r.1 <= self.rows_of_quads,
    {
        let quad = vertex / VERTS_PER_QUAD;
        let c = vertex % VERTS_PER_QUAD;
        let q = self.quads_in_row;
        proof {
            let qr = self.quads_in_row * self.rows_of_quads;
            assert(vertex < 6 * qr) by (nonlinear_arith)
                requires
                    vertex < self.quads_in_row * self.rows_of_quads * 6,
                    qr == self.quads_in_row * self.rows_of_quads,
            ;
            lemma_multiply_divide_lt(vertex as int, 6, qr);
            lemma_multiply_divide_lt(quad as int, q as int, self.rows_of_quads as int);
            lemma_mod_division_less_than_divisor(quad as int, q as int);
        }
        let col = quad % q;
        let row = quad / q;
        let (dx, dy): (u32, u32) = if c == 0 {
            (0, 0)
        } else if c == 1 {
            (1, 0)
        } else if c == 2 {
            (0, 1)
        } else if c == 3 {
            (0, 1)
        } else if c == 4 {
            (1, 0)
        } else {
            (1, 1)
        };
        (col + dx, row + dy)
    }
}


/// `a + b`, as a numerator and a denominator.
pub open spec fn sum(a: Frac, b: Frac) -> (int, int) {
    (a.num * b.den + b.num * a.den, a.den * b.den)
}

proof fn lemma_product_bound(x: int, y: int, bx: int, by: int)
    requires
        -bx <= x <= bx,
        -by <= y <= by,
    ensures
        -(bx * by) <= x * y <= bx * by,
{
    assert(-(bx * by) <= x * y <= bx * by) by (nonlinear_arith)
        requires
            -bx <= x <= bx,
            -by <= y <= by,
    ;
}

/// `offset + k * scale`, computed exactly.
fn place(offset: Frac, k: u32, scale: Frac) -> (r: Ratio)
    requires
        offset.wf(),
        scale.wf(),
    ensures
        r.wf(),
        r.num == along(offset, k as int, scale).0,
        r.den == along(offset, k as int, scale).1,
{
    let on = offset.num as i128;
    let od = offset.den as i128;
    let sn = scale.num as i128;
    let sd = scale.den as i128;
    let kk = k as i128;
    proof {
        lemma_product_bound(on as int, sd as int, 0x8000_0000, 0x1_0000_0000);
        lemma_product_bound(kk as int, sn as int, 0x1_0000_0000, 0x8000_0000);
        lemma_product_bound(kk * sn, od as int, 0x8000_0000_0000_0000, 0x1_0000_0000);
        assert(0 < offset.den * scale.den <= u64::MAX) by (nonlinear_arith)
            requires
                0 < offset.den <= u32::MAX,
                0 < scale.den <= u32::MAX,
        ;
    }
    let a = on * sd;
    let b = kk * sn * od;
    let den = (offset.den as u64) * (scale.den as u64);
    Ratio { num: a + b, den }
}

impl Descriptor {
    /// Position `(x, y)` of a vertex in the plane of the grid.
    pub open spec fn position_of(self, vertex: int) -> ((int, int), (int, int)) {
        let p = self.point_of(vertex);
        (along(self.xoffset, p.0, self.xscale), along(self.yoffset, p.1, self.yscale))
    }

    /// Exact position `(x, y)` of a vertex in the plane of the grid.
    pub fn position(&self, vertex: u32) -> (r: (Ratio, Ratio))
        requires
            self.wf(),
            vertex < self.vertex_count(),
        ensures
            r.0.wf(),
            r.1.wf(),
            (r.0.num as int, r.0.den as int) == self.position_of(vertex as int).0,
            (r.1.num as int, r.1.den as int) == self.position_of(vertex as int).1,
    {
        let (gx, gy) = self.grid_point(vertex);
        let x = place(self.xoffset, gx, self.xscale);
        let y = place(self.yoffset, gy, self.yscale);
        (x, y)
    }

    /// Texture coordinate `(u, v)` of a vertex: its grid point over the grid's
    /// size, both in `[0, 1]`.
    pub fn uv(&self, vertex: u32) -> (r: (Ratio, Ratio))
        requires
            self.wf(),
            vertex < self.vertex_count(),
        ensures
            r.0.wf(),
            r.1.wf(),
            r.0.num == self.point_of(vertex as int).0,
            r.0.den == self.quads_in_row,
            r.1.num == self.point_of(vertex as int).1,
            r.1.den == self.rows_of_quads,
            0 <= r.0.num <= r.0.den,
            0 <= r.1.num <= r.1.den,
    {
        let (gx, gy) = self.grid_point(vertex);
        (
            Ratio { num: gx as i128, den: self.quads_in_row as u64 },
            Ratio { num: gy as i128, den: self.rows_of_quads as u64 },
        )
    }

    /// Height of a vertex whose sampled elevation is `elevation`: the
    /// elevation plus this grid's depth offset, exactly.
    pub fn lift(&self, elevation: Frac) -> (r: Ratio)
        requires
            self.wf(),
            elevation.wf(),
        ensures
            r.wf(),
            (r.num as int, r.den as int) == sum(elevation, self.zdisplace),
    {
        let z = self.zdisplace;
        proof {
            lemma_product_bound(elevation.num as int, z.den as int, 0x8000_0000, 0x1_0000_0000);
            lemma_product_bound(z.num as int, elevation.den as int, 0x8000_0000, 0x1_0000_0000);
            assert(0 < elevation.den * z.den <= u64::MAX) by (nonlinear_arith)
                requires
                    0 < elevation.den <= u32::MAX,
                    0 < z.den <= u32::MAX,
            ;
        }
        Ratio {
            num: (elevation.num as i128) * (z.den as i128) + (z.num as i128) * (elevation.den as i128),
            den: (elevation.den as u64) * (z.den as u64),
        }
    }
}

/// Every vertex index of a grid lies on one of its grid points: a grid of
/// `q` by `r` quads generates `q * r * 6` vertices, each at a point in
/// `[0, q] x [0, r]`.
pub proof fn lemma_vertices_on_grid(d: Descriptor, vertex: int)
    requires
        d.wf(),
        0 <= vertex < d.vertex_count(),
    ensures
        d.vertex_count() == d.quads_in_row * d.rows_of_quads * 6,
        0 <= d.point_of(vertex).0 <= d.quads_in_row,
        0 <= d.point_of(vertex).1 <= d.rows_of_quads,
{
    let qr = d.quads_in_row * d.rows_of_quads;
    let quad = vertex / 6;
    assert(vertex < 6 * qr) by (nonlinear_arith)
        requires
            vertex < d.quads_in_row * d.rows_of_quads * 6,
            qr == d.quads_in_row * d.rows_of_quads,
    ;
    lemma_multiply_divide_lt(vertex, 6, qr);
    lemma_multiply_divide_lt(quad, d.quads_in_row as int, d.rows_of_quads as int);
    lemma_mod_division_less_than_divisor(quad, d.quads_in_row as int);
    lemma_mod_division_less_than_divisor(vertex, 6);
}

/// `offset + k * scale` lies between `offset` and `offset + n * scale` for
/// every `k` in `[0, n]`, when the scale is not negative.
pub proof fn lemma_along_between(offset: Frac, scale: Frac, k: int, n: int)
    requires
        offset.wf(),
        scale.wf(),
        scale.num >= 0,
        0 <= k <= n,
    ensures
        le(offset.num as int, offset.den as int, along(offset, k, scale).0, along(offset, k, scale).1),
        le(along(offset, k, scale).0, along(offset, k, scale).1, along(offset, n, scale).0, along(offset, n, scale).1),
{
    let on = offset.num as int;
    let od = offset.den as int;
    let sn = scale.num as int;
    let sd = scale.den as int;
    assert(on * (od * sd) <= (on * sd + k * sn * od) * od) by (nonlinear_arith)
        requires
            od > 0,
            sn >= 0,
            k >= 0,
    ;
    assert((on * sd + k * sn * od) * (od * sd) <= (on * sd + n * sn * od) * (od * sd)) by (nonlinear_arith)
        requires
            od > 0,
            sd > 0,
            sn >= 0,
            k <= n,
    ;
}

/// Every vertex of a grid with non-negative steps lies in
/// `[xoffset, xoffset + quads_in_row * xscale]` in x, and likewise in y.
pub proof fn lemma_vertices_in_extent(d: Descriptor, vertex: int)
    requires
        d.wf(),
        d.xscale.num >= 0,
        d.yscale.num >= 0,
        0 <= vertex < d.vertex_count(),
    ensures
        le(d.xoffset.num as int, d.xoffset.den as int, d.position_of(vertex).0.0, d.position_of(vertex).0.1),
        le(d.position_of(vertex).0.0, d.position_of(vertex).0.1,
            along(d.xoffset, d.quads_in_row as int, d.xscale).0,
            along(d.xoffset, d.quads_in_row as int, d.xscale).1),
        le(d.yoffset.num as int, d.yoffset.den as int, d.position_of(vertex).1.0, d.position_of(vertex).1.1),
        le(d.position_of(vertex).1.0, d.position_of(vertex).1.1,
            along(d.yoffset, d.rows_of_quads as int, d.yscale).0,
            along(d.yoffset, d.rows_of_quads as int, d.yscale).1),
{
    lemma_vertices_on_grid(d, vertex);
    let p = d.point_of(vertex);
    lemma_along_between(d.xoffset, d.xscale, p.0, d.quads_in_row as int);
    lemma_along_between(d.yoffset, d.yscale, p.1, d.rows_of_quads as int);
}

/// A grid that starts at -1 and steps by `2 / n` over `n` quads ends at
/// exactly +1, whatever `n`: every vertex of such a grid lies in `[-1, 1]`
/// on both axes.
pub proof fn lemma_default_extent(d: Descriptor, vertex: int)
    requires
        d.wf(),
        d.xoffset == (Frac { num: -1i32, den: 1 }),
        d.yoffset == (Frac { num: -1i32, den: 1 }),
        d.xscale == (Frac { num: 2, den: d.quads_in_row }),
        d.yscale == (Frac { num: 2, den: d.rows_of_quads }),
        0 <= vertex < d.vertex_count(),
    ensures
        same(along(d.xoffset, d.quads_in_row as int, d.xscale).0,
            along(d.xoffset, d.quads_in_row as int, d.xscale).1, 1, 1),
        same(along(d.yoffset, d.rows_of_quads as int, d.yscale).0,
            along(d.yoffset, d.rows_of_quads as int, d.yscale).1, 1, 1),
        le(-1, 1, d.position_of(vertex).0.0, d.position_of(vertex).0.1),
        le(d.position_of(vertex).0.0, d.position_of(vertex).0.1, 1, 1),
        le(-1, 1, d.position_of(vertex).1.0, d.position_of(vertex).1.1),
        le(d.position_of(vertex).1.0, d.position_of(vertex).1.1, 1, 1),
{
    lemma_vertices_in_extent(d, vertex);
    let q = d.quads_in_row as int;
    let r = d.rows_of_quads as int;
    assert(-1 * q + q * 2 * 1 == q);
    assert(-1 * r + r * 2 * 1 == r);
    let x = d.position_of(vertex).0;
    let y = d.position_of(vertex).1;
    assert(le(x.0, x.1, 1, 1)) by (nonlinear_arith)
        requires
            x.0 * q <= q * x.1,
            q > 0,
    ;
    assert(le(y.0, y.1, 1, 1)) by (nonlinear_arith)
        requires
            y.0 * r <= r * y.1,
            r > 0,
    ;
}

} // verus!
