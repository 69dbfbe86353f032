use vstd::prelude::*;

verus! {

/// A corner of the unit quad: its position in normalized device coordinates
/// and its texture coordinates (`u` to the right, `v` downwards).
#[derive(Clone, Copy, Debug, PartialEq, Eq, Structural)]
pub struct Vertex {
    pub x: i8,
    pub y: i8,
    pub u: u8,
    pub v: u8,
}

/// The corners of the unit quad: top-left, top-right, bottom-right, bottom-left.
pub open spec fn unit_quad_corners() -> Seq<Vertex> {
    seq![
        Vertex { x: -1i8, y: 1, u: 0, v: 0 },
        Vertex { x: 1, y: 1, u: 1, v: 0 },
        Vertex { x: 1, y: -1i8, u: 1, v: 1 },
        Vertex { x: -1i8, y: -1i8, u: 0, v: 1 },
    ]
}

/// The unit quad as two triangles over its corners.
pub open spec fn unit_quad_triangles() -> Seq<u16> {
    seq![0, 1, 2, 0, 2, 3]
}

/// The unit quad's corners, shared by every quad instance.
pub fn unit_quad_vertices() -> (vs: Vec<Vertex>)
    ensures
        vs@ == unit_quad_corners(),
{
    let vs = vec![
        Vertex { x: -1, y: 1, u: 0, v: 0 },
        Vertex { x: 1, y: 1, u: 1, v: 0 },
        Vertex { x: 1, y: -1, u: 1, v: 1 },
        Vertex { x: -1, y: -1, u: 0, v: 1 },
    ];
    assert(vs@ =~= unit_quad_corners());
    vs
}

/// The indices of the unit quad's two triangles.
pub fn unit_quad_indices() -> (is: Vec<u16>)
    ensures
        is@ == unit_quad_triangles(),
{
    let is = vec![0u16, 1, 2, 0, 2, 3];
    assert(is@ =~= unit_quad_triangles());
    is
}

/// Twice the signed area of triangle `a b c`: negative when its corners run
/// clockwise with y pointing up.
pub open spec fn signed_area2(a: Vertex, b: Vertex, c: Vertex) -> int {
    (b.x - a.x) * (c.y - a.y) - (b.y - a.y) * (c.x - a.x)
}

/// Twice the signed area of the `t`-th triangle of the unit quad.
pub open spec fn triangle_area2(t: int) -> int {
    let c = unit_quad_corners();
    let is = unit_quad_triangles();
    signed_area2(c[is[3 * t] as int], c[is[3 * t + 1] as int], c[is[3 * t + 2] as int])
}

/// Both triangles of the unit quad use valid corners and run clockwise, so
/// with clockwise front faces and back faces culled the quad stays visible.
pub proof fn lemma_unit_quad_front_facing()
    ensures
        forall|i: int| 0 <= i < 6 ==> #[trigger] unit_quad_triangles()[i] < 4,
        forall|t: int| 0 <= t < 2 ==> #[trigger] triangle_area2(t) < 0,
{
    let c = unit_quad_corners();
    let is = unit_quad_triangles();
    assert(is[0] == 0 && is[1] == 1 && is[2] == 2 && is[3] == 0 && is[4] == 2 && is[5] == 3);
    assert(c[0].x == -1 && c[0].y == 1 && c[1].x == 1 && c[1].y == 1);
    assert(c[2].x == 1 && c[2].y == -1 && c[3].x == -1 && c[3].y == -1);
    assert(signed_area2(c[0], c[1], c[2]) == -4);
    assert(signed_area2(c[0], c[2], c[3]) == -4);
    assert(triangle_area2(0) == signed_area2(c[0], c[1], c[2]));
    assert(triangle_area2(1) == signed_area2(c[0], c[2], c[3]));
}

} // verus!
