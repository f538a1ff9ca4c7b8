//! The cube mesh: six independent quads, one flat colour per face.
//!
//! Coordinates are held in cube units (every coordinate is -1 or 1) and colour
//! channels in tenths (3 stands for 0.3, 10 for 1.0), so the mesh is exact;
//! a backend converts both to 32-bit floats when it uploads them.
use vstd::prelude::*;

verus! {

/// Number of faces of the cube.
pub const FACE_COUNT: usize = 6;

/// Number of vertices of one face (each face is an independent quad).
pub const VERTICES_PER_FACE: usize = 4;

/// Number of vertices of the mesh.
pub const VERTEX_COUNT: usize = 24;

/// Number of indices of the mesh: two triangles per face.
pub const INDEX_COUNT: usize = 36;

/// The geometry of the cube, flattened for upload.
pub struct CubeData {
    /// Three coordinates per vertex, in cube units.
    pub positions: Vec<i8>,
    /// Triangle list: three vertex indices per triangle.
    pub elements: Vec<u16>,
    /// Four channels (red, green, blue, alpha) per vertex, in tenths.
    pub colors: Vec<u8>,
}

/// The coordinates of the 24 vertices, face by face: front, back, top,
/// bottom, right, left.
pub open spec fn cube_positions() -> Seq<int> {
    seq![
        -1, -1, 1, 1, -1, 1, 1, 1, 1, -1, 1, 1,
        -1, -1, -1, -1, 1, -1, 1, 1, -1, 1, -1, -1,
        -1, 1, -1, -1, 1, 1, 1, 1, 1, 1, 1, -1,
        -1, -1, -1, 1, -1, -1, 1, -1, 1, -1, -1, 1,
        1, -1, -1, 1, 1, -1, 1, 1, 1, 1, -1, 1,
        -1, -1, -1, -1, -1, 1, -1, 1, 1, -1, 1, -1,
    ]
}

/// Channel `c` of the colour of face `f`, in tenths: cyan, red, green, blue,
/// yellow, purple; every face is opaque.
pub open spec fn face_channel(f: int, c: int) -> u8 {
    if c == 3 {
        10
    } else if f == 0 {
        if c == 0 { 3 } else { 10 }
    } else if f == 1 {
        if c == 0 { 10 } else { 3 }
    } else if f == 2 {
        if c == 1 { 10 } else { 3 }
    } else if f == 3 {
        if c == 2 { 10 } else { 3 }
    } else if f == 4 {
        if c == 2 { 3 } else { 10 }
    } else {
        if c == 1 { 3 } else { 10 }
    }
}

/// Corner of its quad that the `k`-th index of a face refers to: the quad
/// `0, 1, 2, 3` is split into the triangles `0, 1, 2` and `0, 2, 3`.
pub open spec fn quad_corner(k: int) -> int {
    if k == 0 || k == 3 {
        0
    } else if k == 1 {
        1
    } else if k == 2 || k == 4 {
        2
    } else {
        3
    }
}

/// The `i`-th scalar of the colour array: every vertex of a face carries the
/// face's colour.
pub open spec fn color_scalar(i: int) -> u8 {
    face_channel(i / 16, i % 4)
}

/// The `k`-th index of the triangle list: the quad pattern of face `k / 6`,
/// offset by the face's first vertex.
pub open spec fn element_at(k: int) -> int {
    4 * (k / 6) + quad_corner(k % 6)
}

impl CubeData {
    /// Number of vertices described by the position array.
    pub open spec fn vertex_count(&self) -> nat {
        self.positions@.len() / 3
    }

    /// The mesh invariant: one RGBA colour for each three-coordinate
    /// position, 36 indices, each naming an existing vertex.
    pub open spec fn wf(&self) -> bool {
        &&& self.positions@.len() % 3 == 0
        &&& self.colors@.len() == 4 * self.positions@.len() / 3
        &&& self.elements@.len() == INDEX_COUNT
        &&& forall|k: int|
            0 <= k < self.elements@.len() ==> (#[trigger] self.elements@[k] as nat)
                < self.vertex_count()
    }
}

/// Builds the cube: 24 positions, 24 colours and 36 indices. The mesh is
/// always the same and construction cannot fail.
pub fn create_cube_data() -> (r: CubeData)
    ensures
        r.wf(),
        r.positions@.map_values(|x: i8| x as int) == cube_positions(),
        r.positions@.len() == 3 * VERTEX_COUNT,
        r.colors@.len() == 4 * VERTEX_COUNT,
        r.elements@.len() == INDEX_COUNT,
        forall|k: int| 0 <= k < r.elements@.len() ==> (#[trigger] r.elements@[k] as nat) < VERTEX_COUNT,
        forall|i: int| 0 <= i < r.colors@.len() ==> #[trigger] r.colors@[i] == color_scalar(i),
        forall|k: int|
            0 <= k < r.elements@.len() ==> #[trigger] r.elements@[k] as int == element_at(k),
{
    let positions: Vec<i8> = vec![
        -1, -1, 1, 1, -1, 1, 1, 1, 1, -1, 1, 1,
        -1, -1, -1, -1, 1, -1, 1, 1, -1, 1, -1, -1,
        -1, 1, -1, -1, 1, 1, 1, 1, 1, 1, 1, -1,
        -1, -1, -1, 1, -1, -1, 1, -1, 1, -1, -1, 1,
        1, -1, -1, 1, 1, -1, 1, 1, 1, 1, -1, 1,
        -1, -1, -1, -1, -1, 1, -1, 1, 1, -1, 1, -1,
    ];
    assert(positions@.map_values(|x: i8| x as int) =~= cube_positions());
    let colors = face_colors();
    let elements = face_elements();
    CubeData { positions, elements, colors }
}

/// The colour of face `f`, in tenths.
fn face_color(f: usize) -> (r: [u8; 4])
    requires
        f < FACE_COUNT,
    ensures
        forall|c: int| 0 <= c < 4 ==> #[trigger] r@[c] == face_channel(f as int, c),
{
    match f {
        0 => [3, 10, 10, 10],
        1 => [10, 3, 3, 10],
        2 => [3, 10, 3, 10],
        3 => [3, 3, 10, 10],
        4 => [10, 10, 3, 10],
        _ => [10, 3, 10, 10],
    }
}

/// The colour array: each face's colour repeated for its four vertices.
fn face_colors() -> (r: Vec<u8>)
    ensures
        r@.len() == 4 * VERTEX_COUNT,
        forall|i: int| 0 <= i < r@.len() ==> #[trigger] r@[i] == color_scalar(i),
{
    let mut colors: Vec<u8> = Vec::new();
    let mut f: usize = 0;
    while f < FACE_COUNT
        invariant
            f <= FACE_COUNT,
            colors@.len() == 16 * f,
            forall|i: int| 0 <= i < colors@.len() ==> #[trigger] colors@[i] == color_scalar(i),
        decreases FACE_COUNT - f,
    {
        let rgba = face_color(f);
        let mut v: usize = 0;
        while v < VERTICES_PER_FACE
            invariant
                f < FACE_COUNT,
                v <= VERTICES_PER_FACE,
                colors@.len() == 16 * f + 4 * v,
                forall|c: int| 0 <= c < 4 ==> #[trigger] rgba@[c] == face_channel(f as int, c),
                forall|i: int| 0 <= i < colors@.len() ==> #[trigger] colors@[i] == color_scalar(i),
            decreases VERTICES_PER_FACE - v,
        {
            let mut c: usize = 0;
            while c < 4
                invariant
                    f < FACE_COUNT,
                    v < VERTICES_PER_FACE,
                    c <= 4,
                    colors@.len() == 16 * f + 4 * v + c,
                    forall|c: int| 0 <= c < 4 ==> #[trigger] rgba@[c] == face_channel(f as int, c),
                    forall|i: int|
                        0 <= i < colors@.len() ==> #[trigger] colors@[i] == color_scalar(i),
                decreases 4 - c,
            {
                let ghost i = colors@.len() as int;
                assert(i / 16 == f as int && i % 4 == c as int);
                colors.push(rgba[c]);
                c = c + 1;
            }
            v = v + 1;
        }
        f = f + 1;
    }
    colors
}

/// The triangle list: two triangles per face, over that face's own vertices.
fn face_elements() -> (r: Vec<u16>)
    ensures
        r@.len() == INDEX_COUNT,
        forall|k: int| 0 <= k < r@.len() ==> #[trigger] r@[k] as int == element_at(k),
{
    let mut elements: Vec<u16> = Vec::new();
    let corners: [u16; 6] = [0, 1, 2, 0, 2, 3];
    let mut f: usize = 0;
    while f < FACE_COUNT
        invariant
            f <= FACE_COUNT,
            elements@.len() == 6 * f,
            corners@ == seq![0u16, 1, 2, 0, 2, 3],
            forall|k: int| 0 <= k < elements@.len() ==> #[trigger] elements@[k] as int == element_at(k),
        decreases FACE_COUNT - f,
    {
        let base: u16 = 4 * f as u16;
        let mut k: usize = 0;
        while k < 6
            invariant
                f < FACE_COUNT,
                base == 4 * f,
                k <= 6,
                elements@.len() == 6 * f + k,
                corners@ == seq![0u16, 1, 2, 0, 2, 3],
                forall|j: int| 0 <= j < elements@.len() ==> #[trigger] elements@[j] as int == element_at(j),
            decreases 6 - k,
        {
            let ghost j = elements@.len() as int;
            assert(j / 6 == f as int && j % 6 == k as int);
            assert(corners@[k as int] as int == quad_corner(k as int));
            elements.push(base + corners[k]);
            k = k + 1;
        }
        f = f + 1;
    }
    elements
}

} // verus!
