use vstd::prelude::*;

verus! {

/// The rule by which a flat vertex or index sequence groups into drawable primitives.
#[derive(Debug, Clone, Copy, PartialEq, Eq, Structural)]
pub enum PrimitiveType {
    Triangles,
    TriangleStrip,
    TriangleFan,
    Lines,
    LineStrip,
    LineLoop,
    Points,
}

/// Whether faces can be derived from this topology.
pub open spec fn is_triangle_topology(pt: PrimitiveType) -> bool {
    pt == PrimitiveType::Triangles || pt == PrimitiveType::TriangleStrip || pt
        == PrimitiveType::TriangleFan
}

/// Three vertex indices forming one triangle, in winding order.
#[derive(Debug, Clone, Copy, PartialEq, Eq, Structural)]
pub struct Face {
    pub a: u32,
    pub b: u32,
    pub c: u32,
}

impl View for Face {
    type V = (int, int, int);

    open spec fn view(&self) -> (int, int, int) {
        (self.a as int, self.b as int, self.c as int)
    }
}

/// Number of faces that `n` vertices form under a triangle topology.
pub open spec fn face_count(pt: PrimitiveType, n: int) -> int {
    if pt == PrimitiveType::Triangles {
        n / 3
    } else if n >= 2 {
        n - 2
    } else {
        0
    }
}

/// Corners of face `f` over the vertex sequence `idx`: contiguous triples for a
/// triangle list, a sliding window of width three for a strip, and triples
/// sharing the first vertex for a fan.
pub open spec fn face_corners(pt: PrimitiveType, idx: Seq<int>, f: int) -> (int, int, int) {
    if pt == PrimitiveType::Triangles {
        (idx[3 * f], idx[3 * f + 1], idx[3 * f + 2])
    } else if pt == PrimitiveType::TriangleFan {
        (idx[0], idx[f + 1], idx[f + 2])
    } else {
        (idx[f], idx[f + 1], idx[f + 2])
    }
}

/// The vertex sequence `0, 1, ..., n - 1` of non-indexed geometry.
pub open spec fn identity_indices(n: nat) -> Seq<int> {
    Seq::new(n, |i: int| i)
}

/// An index stream read as a sequence of integers.
pub open spec fn index_seq(indices: Seq<u32>) -> Seq<int> {
    Seq::new(indices.len(), |i: int| indices[i] as int)
}

/// What face decomposition needs of a vertex or index count: a triangle
/// topology, and a whole number of triangles for a triangle list.
pub open spec fn decomposable(pt: PrimitiveType, n: int) -> bool {
    &&& is_triangle_topology(pt)
    &&& (pt == PrimitiveType::Triangles ==> n % 3 == 0)
}

/// Determine all faces of non-indexed geometry with `num_vertices` vertices,
/// each as three indices into the vertex sequence.
pub fn calculate_faces(pt: PrimitiveType, num_vertices: usize) -> (faces: Vec<Face>)
    requires
        num_vertices >= 3,
        num_vertices <= u32::MAX as usize + 1,
        decomposable(pt, num_vertices as int),
    ensures
        faces.len() == face_count(pt, num_vertices as int),
        forall|f: int|
            0 <= f < faces.len() ==> #[trigger] faces[f]@ == face_corners(
                pt,
                identity_indices(num_vertices as nat),
                f,
            ),
{
    let mut faces: Vec<Face> = Vec::new();
    let ghost ids = identity_indices(num_vertices as nat);
    if pt == PrimitiveType::Triangles {
        let count: usize = num_vertices / 3;
        let mut f: usize = 0;
        while f < count
            invariant
                pt == PrimitiveType::Triangles,
                count == num_vertices / 3,
                num_vertices % 3 == 0,
                num_vertices <= u32::MAX as usize + 1,
                ids == identity_indices(num_vertices as nat),
                f <= count,
                faces.len() == f,
                forall|g: int| 0 <= g < f ==> #[trigger] faces[g]@ == face_corners(pt, ids, g),
            decreases count - f,
        {
            let i: usize = 3 * f;
            faces.push(Face { a: i as u32, b: (i + 1) as u32, c: (i + 2) as u32 });
            f = f + 1;
        }
    } else {
        let mut i: usize = 2;
        while i < num_vertices
            invariant
                pt == PrimitiveType::TriangleStrip || pt == PrimitiveType::TriangleFan,
                num_vertices >= 3,
                num_vertices <= u32::MAX as usize + 1,
                ids == identity_indices(num_vertices as nat),
                2 <= i <= num_vertices,
                faces.len() == i - 2,
                forall|g: int| 0 <= g < i - 2 ==> #[trigger] faces[g]@ == face_corners(pt, ids, g),
            decreases num_vertices - i,
        {
            let first: u32 = if pt == PrimitiveType::TriangleFan {
                0
            } else {
                (i - 2) as u32
            };
            faces.push(Face { a: first, b: (i - 1) as u32, c: i as u32 });
            i = i + 1;
        }
    }
    faces
}

/// Determine all faces of indexed geometry, each as three entries of the index stream.
pub fn calculate_indexed_faces(pt: PrimitiveType, indices: &[u32]) -> (faces: Vec<Face>)
    requires
        decomposable(pt, indices@.len() as int),
    ensures
        faces.len() == face_count(pt, indices@.len() as int),
        forall|f: int|
            0 <= f < faces.len() ==> #[trigger] faces[f]@ == face_corners(
                pt,
                index_seq(indices@),
                f,
            ),
{
    let mut faces: Vec<Face> = Vec::new();
    let ghost ids = index_seq(indices@);
    let n: usize = indices.len();
    if pt == PrimitiveType::Triangles {
        let count: usize = n / 3;
        let mut f: usize = 0;
        while f < count
            invariant
                pt == PrimitiveType::Triangles,
                n == indices@.len(),
                count == n / 3,
                ids == index_seq(indices@),
                f <= count,
                faces.len() == f,
                forall|g: int| 0 <= g < f ==> #[trigger] faces[g]@ == face_corners(pt, ids, g),
            decreases count - f,
        {
            let i: usize = 3 * f;
            faces.push(Face { a: indices[i], b: indices[i + 1], c: indices[i + 2] });
            f = f + 1;
        }
    } else {
        let mut i: usize = 2;
        while i < n
            invariant
                pt == PrimitiveType::TriangleStrip || pt == PrimitiveType::TriangleFan,
                n == indices@.len(),
                ids == index_seq(indices@),
                2 <= i,
                i <= n || n < 2,
                n < 2 ==> i == 2,
                faces.len() == i - 2,
                forall|g: int| 0 <= g < i - 2 ==> #[trigger] faces[g]@ == face_corners(pt, ids, g),
            decreases n - i,
        {
            let first: u32 = if pt == PrimitiveType::TriangleFan {
                indices[0]
            } else {
                indices[i - 2]
            };
            faces.push(Face { a: first, b: indices[i - 1], c: indices[i] });
            i = i + 1;
        }
    }
    faces
}

/// A triangle fan over `n >= 3` vertices or indices has exactly `n - 2` faces,
/// every one of them sharing the first vertex.
pub proof fn lemma_fan_face_count(idx: Seq<int>)
    requires
        idx.len() >= 3,
    ensures
        face_count(PrimitiveType::TriangleFan, idx.len() as int) == idx.len() - 2,
        forall|f: int|
            0 <= f < idx.len() - 2 ==> (#[trigger] face_corners(PrimitiveType::TriangleFan, idx, f)).0
                == idx[0],
{
}

/// A triangle list over `3 * n` vertices or indices has exactly `n` faces; a
/// count that is not a multiple of three cannot be decomposed as a list.
pub proof fn lemma_list_face_count(m: int, n: nat)
    requires
        m >= 0,
    ensures
        m == 3 * n ==> face_count(PrimitiveType::Triangles, m) == n,
        decomposable(PrimitiveType::Triangles, m) <==> m % 3 == 0,
{
}

} // verus!
