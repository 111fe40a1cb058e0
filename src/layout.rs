//! The byte layout of vertex records and element indices, and the unit quad
//! that every rectangle is drawn from.
use vstd::prelude::*;

verus! {

/// Bit pattern of the IEEE-754 single `0.0`.
pub const F32_ZERO_BITS: u32 = 0;

/// Bit pattern of the IEEE-754 single `1.0`.
pub const F32_ONE_BITS: u32 = 0x3F80_0000;

/// Bit pattern of the IEEE-754 single `-1.0`.
pub const F32_MINUS_ONE_BITS: u32 = 0xBF80_0000;

/// Bytes taken by one vertex record: two 4-byte floats and one corner byte,
/// with no padding.
pub const VERTEX_STRIDE: usize = 9;

/// Offset of the 2-component float position inside a vertex record.
pub const POSITION_OFFSET: usize = 0;

/// Offset of the 1-byte corner index inside a vertex record.
pub const CORNER_OFFSET: usize = 8;

/// Bytes taken by one element index.
pub const ELEMENT_SIZE: usize = 4;

/// One vertex as it is uploaded: the position as the bit patterns of two
/// `f32` values, and the index of the rectangle corner it stands for.
#[derive(Clone, Copy, Debug, PartialEq, Eq)]
pub struct UnsafeRectVertex {
    pub gl_x: u32,
    pub gl_y: u32,
    pub index: u8,
}

/// The four little-endian bytes of `v`, least significant first.
pub open spec fn le_bytes(v: u32) -> Seq<u8> {
    seq![
        (v % 0x100) as u8,
        ((v / 0x100) % 0x100) as u8,
        ((v / 0x1_0000) % 0x100) as u8,
        ((v / 0x100_0000) % 0x100) as u8,
    ]
}

impl UnsafeRectVertex {
    pub fn new(gl_x: u32, gl_y: u32, index: u8) -> (r: UnsafeRectVertex)
        ensures
            r == (UnsafeRectVertex { gl_x, gl_y, index }),
    {
        UnsafeRectVertex { gl_x, gl_y, index }
    }

    /// The record as it lies in the vertex buffer: x, then y, then the corner.
    pub open spec fn bytes(self) -> Seq<u8> {
        le_bytes(self.gl_x) + le_bytes(self.gl_y) + seq![self.index]
    }
}

/// The vertex buffer's contents for `vs`: each record's bytes, in order.
pub open spec fn vertices_bytes(vs: Seq<UnsafeRectVertex>) -> Seq<u8>
    decreases vs.len(),
{
    if vs.len() == 0 {
        Seq::empty()
    } else {
        vertices_bytes(vs.drop_last()) + vs.last().bytes()
    }
}

/// The element buffer's contents for `es`: each index's little-endian bytes.
pub open spec fn elements_bytes(es: Seq<u32>) -> Seq<u8>
    decreases es.len(),
{
    if es.len() == 0 {
        Seq::empty()
    } else {
        elements_bytes(es.drop_last()) + le_bytes(es.last())
    }
}

/// Appends the little-endian bytes of `v` to `out`.
fn push_le_bytes(out: &mut Vec<u8>, v: u32)
    ensures
        final(out)@ == old(out)@ + le_bytes(v),
{
    out.push((v % 0x100) as u8);
    out.push(((v / 0x100) % 0x100) as u8);
    out.push(((v / 0x1_0000) % 0x100) as u8);
    out.push(((v / 0x100_0000) % 0x100) as u8);
    proof {
        assert(final(out)@ =~= old(out)@ + le_bytes(v));
    }
}

/// Packs vertex records into the bytes of a vertex buffer.
pub fn pack_vertices(vertices: &[UnsafeRectVertex]) -> (r: Vec<u8>)
    ensures
        r@ == vertices_bytes(vertices@),
{
    let mut out: Vec<u8> = Vec::new();
    let mut i: usize = 0;
    while i < vertices.len()
        invariant
            i <= vertices@.len(),
            out@ == vertices_bytes(vertices@.subrange(0, i as int)),
        decreases vertices@.len() - i,
    {
        let v = vertices[i];
        let ghost before = out@;
        push_le_bytes(&mut out, v.gl_x);
        push_le_bytes(&mut out, v.gl_y);
        out.push(v.index);
        proof {
            let next = vertices@.subrange(0, i + 1);
            assert(next.drop_last() =~= vertices@.subrange(0, i as int));
            assert(out@ =~= before + v.bytes());
        }
        i = i + 1;
    }
    proof {
        assert(vertices@.subrange(0, vertices@.len() as int) =~= vertices@);
    }
    out
}

/// Packs element indices into the bytes of an element buffer.
pub fn pack_elements(elements: &[u32]) -> (r: Vec<u8>)
    ensures
        r@ == elements_bytes(elements@),
{
    let mut out: Vec<u8> = Vec::new();
    let mut i: usize = 0;
    while i < elements.len()
        invariant
            i <= elements@.len(),
            out@ == elements_bytes(elements@.subrange(0, i as int)),
        decreases elements@.len() - i,
    {
        push_le_bytes(&mut out, elements[i]);
        proof {
            let next = elements@.subrange(0, i + 1);
            assert(next.drop_last() =~= elements@.subrange(0, i as int));
        }
        i = i + 1;
    }
    proof {
        assert(elements@.subrange(0, elements@.len() as int) =~= elements@);
    }
    out
}

/// The length of a packed vertex buffer is the stride times the count.
pub proof fn lemma_vertices_bytes_len(vs: Seq<UnsafeRectVertex>)
    ensures
        vertices_bytes(vs).len() == VERTEX_STRIDE * vs.len(),
    decreases vs.len(),
{
    if vs.len() > 0 {
        lemma_vertices_bytes_len(vs.drop_last());
    }
}

/// Record `k` of a packed vertex buffer sits at `k * VERTEX_STRIDE`, its corner
/// byte at `CORNER_OFFSET` inside it.
pub proof fn lemma_vertex_record_at(vs: Seq<UnsafeRectVertex>, k: int)
    requires
        0 <= k < vs.len(),
    ensures
        vertices_bytes(vs).subrange(
            k * VERTEX_STRIDE,
            k * VERTEX_STRIDE + VERTEX_STRIDE,
        ) == vs[k].bytes(),
        vertices_bytes(vs)[k * VERTEX_STRIDE + CORNER_OFFSET] == vs[k].index,
    decreases vs.len(),
{
    lemma_vertices_bytes_len(vs.drop_last());
    if k < vs.len() - 1 {
        lemma_vertex_record_at(vs.drop_last(), k);
        let a = vertices_bytes(vs.drop_last());
        let b = vs.last().bytes();
        assert(k * VERTEX_STRIDE + VERTEX_STRIDE <= a.len()) by (nonlinear_arith)
            requires
                k < vs.len() - 1,
                a.len() == VERTEX_STRIDE * (vs.len() - 1),
        ;
        assert((a + b).subrange(k * VERTEX_STRIDE, k * VERTEX_STRIDE + VERTEX_STRIDE)
            =~= a.subrange(k * VERTEX_STRIDE, k * VERTEX_STRIDE + VERTEX_STRIDE));
        assert(a.subrange(k * VERTEX_STRIDE, k * VERTEX_STRIDE + VERTEX_STRIDE)[CORNER_OFFSET as int]
            == a[k * VERTEX_STRIDE + CORNER_OFFSET]);
    } else {
        let a = vertices_bytes(vs.drop_last());
        let b = vs.last().bytes();
        assert(a.len() == k * VERTEX_STRIDE);
        assert((a + b).subrange(k * VERTEX_STRIDE, k * VERTEX_STRIDE + VERTEX_STRIDE) =~= b);
    }
}

/// The coordinate that the bit pattern `bits` stands for in the unit quad:
/// one of `0.0`, `1.0`, `-1.0`.
pub open spec fn unit_coord(bits: u32) -> int {
    if bits == F32_ONE_BITS {
        1
    } else if bits == F32_MINUS_ONE_BITS {
        -1
    } else {
        0
    }
}

/// The point a vertex stands for, in unit-quad coordinates.
pub open spec fn point_of(v: UnsafeRectVertex) -> (int, int) {
    (unit_coord(v.gl_x), unit_coord(v.gl_y))
}

/// The unit quad: logical corners `(0,0)`, `(1,0)`, `(0,-1)`, `(1,-1)`,
/// tagged with corner indices 0 to 3.
pub open spec fn unit_quad_spec() -> Seq<UnsafeRectVertex> {
    seq![
        UnsafeRectVertex { gl_x: F32_ZERO_BITS, gl_y: F32_ZERO_BITS, index: 0 },
        UnsafeRectVertex { gl_x: F32_ONE_BITS, gl_y: F32_ZERO_BITS, index: 1 },
        UnsafeRectVertex { gl_x: F32_ZERO_BITS, gl_y: F32_MINUS_ONE_BITS, index: 2 },
        UnsafeRectVertex { gl_x: F32_ONE_BITS, gl_y: F32_MINUS_ONE_BITS, index: 3 },
    ]
}

/// The unit quad's triangles `(0,3,2)` and `(0,1,3)`.
pub open spec fn unit_quad_elements_spec() -> Seq<u32> {
    seq![0, 3, 2, 0, 1, 3]
}

/// The unit quad's vertex records.
pub fn unit_quad_vertices() -> (r: Vec<UnsafeRectVertex>)
    ensures
        r@ == unit_quad_spec(),
{
    let r = vec![
        UnsafeRectVertex::new(F32_ZERO_BITS, F32_ZERO_BITS, 0),
        UnsafeRectVertex::new(F32_ONE_BITS, F32_ZERO_BITS, 1),
        UnsafeRectVertex::new(F32_ZERO_BITS, F32_MINUS_ONE_BITS, 2),
        UnsafeRectVertex::new(F32_ONE_BITS, F32_MINUS_ONE_BITS, 3),
    ];
    proof {
        assert(r@ =~= unit_quad_spec());
    }
    r
}

/// The unit quad's element indices.
pub fn unit_quad_elements() -> (r: Vec<u32>)
    ensures
        r@ == unit_quad_elements_spec(),
{
    let r = vec![0u32, 3, 2, 0, 1, 3];
    proof {
        assert(r@ =~= unit_quad_elements_spec());
    }
    r
}

/// Twice the signed area of the triangle `a`, `b`, `c`.
pub open spec fn doubled_signed_area(a: (int, int), b: (int, int), c: (int, int)) -> int {
    (b.0 - a.0) * (c.1 - a.1) - (b.1 - a.1) * (c.0 - a.0)
}

/// The point of the vertex that element `e` of the unit quad names.
pub open spec fn quad_point(e: int) -> (int, int) {
    point_of(unit_quad_spec()[unit_quad_elements_spec()[e] as int])
}

/// The unit quad has 4 vertices and 6 indices, so 2 triangles, and they
/// exactly cover the square `[0,1] x [-1,0]`: its vertices are the square's
/// four corners, each tagged with its own corner index; both triangles run
/// along the diagonal from `(0,0)` to `(1,-1)`; their third corners lie on
/// opposite sides of it; both have the same winding and half the square's
/// area each, so together they fill it without overlap.
pub proof fn lemma_unit_quad_covers_square()
    ensures
        unit_quad_spec().len() == 4,
        unit_quad_elements_spec().len() == 6,
        unit_quad_elements_spec().len() / 3 == 2,
        forall|e: int| 0 <= e < 6 ==> unit_quad_elements_spec()[e] < 4,
        forall|k: int| 0 <= k < 4 ==> unit_quad_spec()[k].index == k,
        unit_quad_spec().map_values(|v: UnsafeRectVertex| point_of(v)).to_set() == set![
            (0int, 0int),
            (1int, 0int),
            (0int, -1int),
            (1int, -1int),
        ],
        quad_point(0) == (0int, 0int) && quad_point(1) == (1int, -1int),
        quad_point(3) == (0int, 0int) && quad_point(5) == (1int, -1int),
        doubled_signed_area(quad_point(0), quad_point(1), quad_point(2)) == -1,
        doubled_signed_area(quad_point(3), quad_point(4), quad_point(5)) == -1,
        doubled_signed_area((0, 0), (1, -1), quad_point(2)) * doubled_signed_area(
            (0, 0),
            (1, -1),
            quad_point(4),
        ) < 0,
{
    assert(quad_point(0) == (0int, 0int));
    assert(quad_point(1) == (1int, -1int));
    assert(quad_point(2) == (0int, -1int));
    assert(quad_point(3) == (0int, 0int));
    assert(quad_point(4) == (1int, 0int));
    assert(quad_point(5) == (1int, -1int));
    assert(doubled_signed_area((0int, 0int), (1int, -1int), (0int, -1int)) == -1) by (nonlinear_arith);
    assert(doubled_signed_area((0int, 0int), (1int, 0int), (1int, -1int)) == -1) by (nonlinear_arith);
    assert(doubled_signed_area((0int, 0int), (1int, -1int), (1int, 0int)) == 1) by (nonlinear_arith);
    let pts = unit_quad_spec().map_values(|v: UnsafeRectVertex| point_of(v));
    assert(pts =~= seq![(0int, 0int), (1int, 0int), (0int, -1int), (1int, -1int)]);
    assert(pts.to_set() =~= set![(0int, 0int), (1int, 0int), (0int, -1int), (1int, -1int)]) by {
        assert forall|p: (int, int)| pts.to_set().contains(p) implies set![
            (0int, 0int),
            (1int, 0int),
            (0int, -1int),
            (1int, -1int),
        ].contains(p) by {
            let k = choose|k: int| 0 <= k < pts.len() && pts[k] == p;
        }
        assert(pts[0] == (0int, 0int));
        assert(pts[1] == (1int, 0int));
        assert(pts[2] == (0int, -1int));
        assert(pts[3] == (1int, -1int));
    }
}

/// `q` scaled by `d`.
pub open spec fn scaled(q: (int, int), d: int) -> (int, int) {
    (q.0 * d, q.1 * d)
}

/// Whether `p` lies in the clockwise triangle `a`, `b`, `c` (its edges
/// included): `p` is on the inner side of, or on, every edge.
pub open spec fn in_clockwise_triangle(p: (int, int), a: (int, int), b: (int, int), c: (int, int)) -> bool {
    doubled_signed_area(a, b, p) <= 0 && doubled_signed_area(b, c, p) <= 0 && doubled_signed_area(
        c,
        a,
        p,
    ) <= 0
}

/// Whether `p` lies strictly inside the clockwise triangle `a`, `b`, `c`.
pub open spec fn strictly_in_clockwise_triangle(
    p: (int, int),
    a: (int, int),
    b: (int, int),
    c: (int, int),
) -> bool {
    doubled_signed_area(a, b, p) < 0 && doubled_signed_area(b, c, p) < 0 && doubled_signed_area(
        c,
        a,
        p,
    ) < 0
}

/// Whether the point `(x / d, y / d)` lies in triangle `t` (0 or 1) of the
/// unit quad, strictly inside it if `strict`.
pub open spec fn in_quad_triangle(t: int, x: int, y: int, d: int, strict: bool) -> bool {
    let a = scaled(quad_point(3 * t), d);
    let b = scaled(quad_point(3 * t + 1), d);
    let c = scaled(quad_point(3 * t + 2), d);
    if strict {
        strictly_in_clockwise_triangle((x, y), a, b, c)
    } else {
        in_clockwise_triangle((x, y), a, b, c)
    }
}

proof fn lemma_scaled_sign(d: int, v: int)
    requires
        d > 0,
    ensures
        (d * v <= 0) == (v <= 0),
        (d * v < 0) == (v < 0),
{
    if v > 0 {
        assert(d * v > 0) by (nonlinear_arith)
            requires
                d > 0,
                v > 0,
        ;
    } else if v < 0 {
        assert(d * v < 0) by (nonlinear_arith)
            requires
                d > 0,
                v < 0,
        ;
    }
}

/// The unit quad's two triangles cover the square `[0,1] x [-1,0]` exactly:
/// a point with rational coordinates `(x / d, y / d)` lies in the square if
/// and only if it lies in one of the triangles, and no point lies strictly
/// inside both.
pub proof fn lemma_unit_quad_triangles_tile_square(x: int, y: int, d: int)
    requires
        d > 0,
    ensures
        (0 <= x <= d && -d <= y <= 0) == (in_quad_triangle(0, x, y, d, false) || in_quad_triangle(
            1,
            x,
            y,
            d,
            false,
        )),
        !(in_quad_triangle(0, x, y, d, true) && in_quad_triangle(1, x, y, d, true)),
{
    assert(quad_point(0) == (0int, 0int));
    assert(quad_point(1) == (1int, -1int));
    assert(quad_point(2) == (0int, -1int));
    assert(quad_point(3) == (0int, 0int));
    assert(quad_point(4) == (1int, 0int));
    assert(quad_point(5) == (1int, -1int));
    let o = (0int, 0int);
    let se = (d, -d);
    let sw = (0int, -d);
    let ne = (d, 0int);
    assert(scaled(quad_point(0), d) == o && scaled(quad_point(3), d) == o);
    assert(scaled(quad_point(1), d) == se && scaled(quad_point(5), d) == se);
    assert(scaled(quad_point(2), d) == sw);
    assert(scaled(quad_point(4), d) == ne);
    let p = (x, y);
    assert((d - 0) * (y - 0) - (-d - 0) * (x - 0) == d * (x + y)) by (nonlinear_arith);
    assert(doubled_signed_area(o, se, p) == d * (x + y));
    assert((0 - d) * (y - -d) - (-d - -d) * (x - d) == d * (-(y + d))) by (nonlinear_arith);
    assert(doubled_signed_area(se, sw, p) == d * (-(y + d)));
    assert((0 - 0) * (y - -d) - (0 - -d) * (x - 0) == d * (-x)) by (nonlinear_arith);
    assert(doubled_signed_area(sw, o, p) == d * (-x));
    assert((d - 0) * (y - 0) - (0 - 0) * (x - 0) == d * y) by (nonlinear_arith);
    assert(doubled_signed_area(o, ne, p) == d * y);
    assert((d - d) * (y - 0) - (-d - 0) * (x - d) == d * (x - d)) by (nonlinear_arith);
    assert(doubled_signed_area(ne, se, p) == d * (x - d));
    assert((0 - d) * (y - -d) - (0 - -d) * (x - d) == d * (-(x + y))) by (nonlinear_arith);
    assert(doubled_signed_area(se, o, p) == d * (-(x + y)));
    lemma_scaled_sign(d, x + y);
    lemma_scaled_sign(d, -(y + d));
    lemma_scaled_sign(d, -x);
    lemma_scaled_sign(d, y);
    lemma_scaled_sign(d, x - d);
    lemma_scaled_sign(d, -(x + y));
}

} // verus!
