//! Vertex formats and the cube geometry of the sky.

use crate::format::{ChannelType, Format, SurfaceType};
use vstd::prelude::*;

verus! {

/// What a vertex attribute means to the shader.
#[derive(Clone, Copy, Debug, PartialEq, Eq, Structural)]
pub enum Semantic {
    Position,
    Color,
    TexCoord,
    Normal,
    Tangent,
}

/// One attribute of a vertex format: what it is, where it starts inside a
/// vertex and how its bits are laid out.
#[derive(Clone, Copy, Debug, PartialEq, Eq, Structural)]
pub struct Attribute {
    pub semantic: Semantic,
    /// Byte offset from the start of the vertex.
    pub offset: u32,
    pub format: Format,
}

/// A vertex that carries a position and nothing else.
///
/// On the GPU a position is three single-precision numbers. Here the three
/// coordinates are whole numbers, which is all the corners of a cube need;
/// the host widens them when it uploads the buffer.
#[derive(Clone, Copy, Debug, PartialEq, Eq)]
pub struct PosOnly {
    pub position: [i8; 3],
}

impl PosOnly {
    /// The position attribute: three floating-point channels at offset zero.
    pub open spec fn position_attribute() -> Attribute {
        Attribute {
            semantic: Semantic::Position,
            offset: 0,
            format: Format { surface: SurfaceType::R32G32B32, channel: ChannelType::Float },
        }
    }

    /// The attributes of this format, in buffer order.
    pub open spec fn spec_attributes() -> Seq<Attribute> {
        seq![Self::position_attribute()]
    }

    /// The attributes of this format, in buffer order.
    pub fn attributes() -> (r: Vec<Attribute>)
        ensures
            r@ == Self::spec_attributes(),
    {
        let mut r: Vec<Attribute> = Vec::new();
        r.push(
            Attribute {
                semantic: Semantic::Position,
                offset: 0,
                format: Format { surface: SurfaceType::R32G32B32, channel: ChannelType::Float },
            },
        );
        r
    }

    /// Size of one vertex in bytes, which is also the stride of a buffer of
    /// such vertices.
    pub fn size() -> (r: u8)
        ensures
            r == 12,
            r == Self::position_attribute().format.surface.spec_bytes(),
    {
        SurfaceType::R32G32B32.bytes()
    }
}

/// Number of vertices in the sky cube: six faces of two triangles each.
pub const SKYBOX_VERTEX_COUNT: usize = 36;

/// Corners of the sky cube, three per triangle, two triangles per face.
pub const SKYBOX_VERTICES: [[i8; 3]; 36] = [
    [-1, 1, -1],
    [-1, -1, -1],
    [1, -1, -1],
    [1, -1, -1],
    [1, 1, -1],
    [-1, 1, -1],
    [-1, -1, 1],
    [-1, -1, -1],
    [-1, 1, -1],
    [-1, 1, -1],
    [-1, 1, 1],
    [-1, -1, 1],
    [1, -1, -1],
    [1, -1, 1],
    [1, 1, 1],
    [1, 1, 1],
    [1, 1, -1],
    [1, -1, -1],
    [-1, -1, 1],
    [-1, 1, 1],
    [1, 1, 1],
    [1, 1, 1],
    [1, -1, 1],
    [-1, -1, 1],
    [-1, 1, -1],
    [1, 1, -1],
    [1, 1, 1],
    [1, 1, 1],
    [-1, 1, 1],
    [-1, 1, -1],
    [-1, -1, -1],
    [-1, -1, 1],
    [1, -1, -1],
    [1, -1, -1],
    [-1, -1, 1],
    [1, -1, 1],
];

/// Corner `i` of the sky cube as a point.
pub open spec fn corner(i: int) -> (int, int, int) {
    (
        SKYBOX_VERTICES[i][0] as int,
        SKYBOX_VERTICES[i][1] as int,
        SKYBOX_VERTICES[i][2] as int,
    )
}

/// Coordinate of point `p` along `axis` (0, 1 or 2).
pub open spec fn coordinate(p: (int, int, int), axis: int) -> int {
    if axis == 0 {
        p.0
    } else if axis == 1 {
        p.1
    } else {
        p.2
    }
}

/// Which way triangle `a b c` faces as seen from the cube's center.
///
/// This is the normal `(b - a) x (c - a)` dotted with `a`. It is negative when
/// the corners run counter-clockwise for a viewer at the center, positive when
/// they run clockwise, and zero when the triangle is degenerate or its plane
/// passes through the center.
pub open spec fn orientation(a: (int, int, int), b: (int, int, int), c: (int, int, int)) -> int {
    let u = (b.0 - a.0, b.1 - a.1, b.2 - a.2);
    let w = (c.0 - a.0, c.1 - a.1, c.2 - a.2);
    (u.1 * w.2 - u.2 * w.1) * a.0 + (u.2 * w.0 - u.0 * w.2) * a.1 + (u.0 * w.1 - u.1 * w.0) * a.2
}

/// Orientation of triangle `t` of the sky cube.
pub open spec fn facing(t: int) -> int {
    orientation(corner(3 * t), corner(3 * t + 1), corner(3 * t + 2))
}

/// True when all three corners of triangle `t` have coordinate `side` along
/// `axis`, that is, when the triangle lies in that face of the cube.
pub open spec fn lies_in_face(t: int, axis: int, side: int) -> bool {
    &&& coordinate(corner(3 * t), axis) == side
    &&& coordinate(corner(3 * t + 1), axis) == side
    &&& coordinate(corner(3 * t + 2), axis) == side
}

/// The face that triangles `2 * f` and `2 * f + 1` cover, as an axis and the
/// side of the cube along it.
pub open spec fn face(f: int) -> (int, int) {
    if f == 0 {
        (2, -1)
    } else if f == 1 {
        (0, -1)
    } else if f == 2 {
        (0, 1)
    } else if f == 3 {
        (2, 1)
    } else if f == 4 {
        (1, 1)
    } else {
        (1, -1)
    }
}

/// The sky cube as vertices, in drawing order.
pub open spec fn spec_skybox_vertices() -> Seq<PosOnly> {
    Seq::new(36, |i: int| PosOnly { position: SKYBOX_VERTICES[i] })
}

/// The sky cube as vertices, in drawing order: the same thirty-six vertices
/// on every call.
pub fn skybox_vertices() -> (r: Vec<PosOnly>)
    ensures
        r@ == spec_skybox_vertices(),
        r@.len() == SKYBOX_VERTEX_COUNT,
{
    let mut r: Vec<PosOnly> = Vec::new();
    let mut i: usize = 0;
    while i < SKYBOX_VERTEX_COUNT
        invariant
            i <= 36,
            r@.len() == i,
            forall|j: int| 0 <= j < i ==> r@[j] == spec_skybox_vertices()[j],
        decreases 36 - i,
    {
        r.push(PosOnly { position: SKYBOX_VERTICES[i] });
        i += 1;
    }
    assert(r@ =~= spec_skybox_vertices());
    r
}

/// The corners of the sky cube, one by one.
proof fn lemma_corner_table()
    ensures
        corner(0) == (-1int, 1int, -1int),
        corner(1) == (-1int, -1int, -1int),
        corner(2) == (1int, -1int, -1int),
        corner(3) == (1int, -1int, -1int),
        corner(4) == (1int, 1int, -1int),
        corner(5) == (-1int, 1int, -1int),
        corner(6) == (-1int, -1int, 1int),
        corner(7) == (-1int, -1int, -1int),
        corner(8) == (-1int, 1int, -1int),
        corner(9) == (-1int, 1int, -1int),
        corner(10) == (-1int, 1int, 1int),
        corner(11) == (-1int, -1int, 1int),
        corner(12) == (1int, -1int, -1int),
        corner(13) == (1int, -1int, 1int),
        corner(14) == (1int, 1int, 1int),
        corner(15) == (1int, 1int, 1int),
        corner(16) == (1int, 1int, -1int),
        corner(17) == (1int, -1int, -1int),
        corner(18) == (-1int, -1int, 1int),
        corner(19) == (-1int, 1int, 1int),
        corner(20) == (1int, 1int, 1int),
        corner(21) == (1int, 1int, 1int),
        corner(22) == (1int, -1int, 1int),
        corner(23) == (-1int, -1int, 1int),
        corner(24) == (-1int, 1int, -1int),
        corner(25) == (1int, 1int, -1int),
        corner(26) == (1int, 1int, 1int),
        corner(27) == (1int, 1int, 1int),
        corner(28) == (-1int, 1int, 1int),
        corner(29) == (-1int, 1int, -1int),
        corner(30) == (-1int, -1int, -1int),
        corner(31) == (-1int, -1int, 1int),
        corner(32) == (1int, -1int, -1int),
        corner(33) == (1int, -1int, -1int),
        corner(34) == (-1int, -1int, 1int),
        corner(35) == (1int, -1int, 1int),
{
}

/// Every corner of the sky cube is a corner of the cube spanning -1 to 1.
pub proof fn lemma_corners_on_unit_cube()
    ensures
        forall|i: int, axis: int|
            0 <= i < 36 && 0 <= axis < 3 ==> {
                let x = #[trigger] coordinate(corner(i), axis);
                x == -1 || x == 1
            },
{
    lemma_corner_table();
}

/// The twelve triangles of the sky cube all wind the same way: each one runs
/// counter-clockwise for a viewer at the center of the cube.
pub proof fn lemma_winding_is_consistent()
    ensures
        forall|t: int| 0 <= t < 12 ==> #[trigger] facing(t) == -4,
        forall|s: int, t: int| 0 <= s < 12 && 0 <= t < 12 ==> facing(s) == facing(t),
{
    lemma_corner_table();
    assert(facing(0) == -4) by (nonlinear_arith)
        requires
            corner(0) == (-1int, 1int, -1int),
            corner(1) == (-1int, -1int, -1int),
            corner(2) == (1int, -1int, -1int),
    ;
    assert(facing(1) == -4) by (nonlinear_arith)
        requires
            corner(3) == (1int, -1int, -1int),
            corner(4) == (1int, 1int, -1int),
            corner(5) == (-1int, 1int, -1int),
    ;
    assert(facing(2) == -4) by (nonlinear_arith)
        requires
            corner(6) == (-1int, -1int, 1int),
            corner(7) == (-1int, -1int, -1int),
            corner(8) == (-1int, 1int, -1int),
    ;
    assert(facing(3) == -4) by (nonlinear_arith)
        requires
            corner(9) == (-1int, 1int, -1int),
            corner(10) == (-1int, 1int, 1int),
            corner(11) == (-1int, -1int, 1int),
    ;
    assert(facing(4) == -4) by (nonlinear_arith)
        requires
            corner(12) == (1int, -1int, -1int),
            corner(13) == (1int, -1int, 1int),
            corner(14) == (1int, 1int, 1int),
    ;
    assert(facing(5) == -4) by (nonlinear_arith)
        requires
            corner(15) == (1int, 1int, 1int),
            corner(16) == (1int, 1int, -1int),
            corner(17) == (1int, -1int, -1int),
    ;
    assert(facing(6) == -4) by (nonlinear_arith)
        requires
            corner(18) == (-1int, -1int, 1int),
            corner(19) == (-1int, 1int, 1int),
            corner(20) == (1int, 1int, 1int),
    ;
    assert(facing(7) == -4) by (nonlinear_arith)
        requires
            corner(21) == (1int, 1int, 1int),
            corner(22) == (1int, -1int, 1int),
            corner(23) == (-1int, -1int, 1int),
    ;
    assert(facing(8) == -4) by (nonlinear_arith)
        requires
            corner(24) == (-1int, 1int, -1int),
            corner(25) == (1int, 1int, -1int),
            corner(26) == (1int, 1int, 1int),
    ;
    assert(facing(9) == -4) by (nonlinear_arith)
        requires
            corner(27) == (1int, 1int, 1int),
            corner(28) == (-1int, 1int, 1int),
            corner(29) == (-1int, 1int, -1int),
    ;
    assert(facing(10) == -4) by (nonlinear_arith)
        requires
            corner(30) == (-1int, -1int, -1int),
            corner(31) == (-1int, -1int, 1int),
            corner(32) == (1int, -1int, -1int),
    ;
    assert(facing(11) == -4) by (nonlinear_arith)
        requires
            corner(33) == (1int, -1int, -1int),
            corner(34) == (-1int, -1int, 1int),
            corner(35) == (1int, -1int, 1int),
    ;
}

/// Each face of the cube is covered by two consecutive triangles, and no two
/// pairs of triangles cover the same face.
pub proof fn lemma_two_triangles_per_face()
    ensures
        forall|f: int|
            0 <= f < 6 ==> {
                &&& #[trigger] lies_in_face(2 * f, face(f).0, face(f).1)
                &&& lies_in_face(2 * f + 1, face(f).0, face(f).1)
            },
        forall|f: int, g: int| 0 <= f < g < 6 ==> face(f) != face(g),
{
    lemma_corner_table();
}

} // verus!
