use vstd::prelude::*;
use crate::attributes::{AttributeArray, all_same, retrieve_vertex_count};

verus! {

/// One vertex as a caller writes it: position, color and normal together.
#[derive(Debug, Clone, Copy)]
pub struct Vertex<P> {
    pub position: P,
    pub color: P,
    pub normal: P,
}

impl<P> Vertex<P> {
    /// A vertex with the given position and color, and `normal` as its normal.
    pub fn new_with_normal(position: P, color: P, normal: P) -> (v: Vertex<P>)
        ensures
            v.position == position,
            v.color == color,
            v.normal == normal,
    {
        Vertex { position, color, normal }
    }
}

/// Geometry with position, color and normal channels, each its own buffer
/// (structure of arrays) bound to slots 0, 1 and 2.
#[derive(Debug)]
pub struct BasicGeometry<P> {
    pub positions: AttributeArray<P>,
    pub colors: AttributeArray<P>,
    pub normals: AttributeArray<P>,
}

impl<P: Copy> BasicGeometry<P> {
    /// Geometry with empty channels.
    pub fn new() -> (g: BasicGeometry<P>)
        ensures
            g.positions.local_buffer@.len() == 0,
            g.colors.local_buffer@.len() == 0,
            g.normals.local_buffer@.len() == 0,
            g.positions.descriptor.index == 0,
            g.colors.descriptor.index == 1,
            g.normals.descriptor.index == 2,
    {
        BasicGeometry {
            positions: AttributeArray::new(0, "position"),
            colors: AttributeArray::new(1, "color"),
            normals: AttributeArray::new(2, "normal"),
        }
    }

    /// Split `vertices` into one channel per attribute, keeping vertex order.
    pub fn from_vertices(vertices: &[Vertex<P>]) -> (g: BasicGeometry<P>)
        ensures
            g.positions.local_buffer@.len() == vertices@.len(),
            g.colors.local_buffer@.len() == vertices@.len(),
            g.normals.local_buffer@.len() == vertices@.len(),
            forall|i: int|
                0 <= i < vertices@.len() ==> {
                    &&& #[trigger] g.positions.local_buffer@[i] == vertices@[i].position
                    &&& g.colors.local_buffer@[i] == vertices@[i].color
                    &&& g.normals.local_buffer@[i] == vertices@[i].normal
                },
            g.positions.descriptor.index == 0,
            g.colors.descriptor.index == 1,
            g.normals.descriptor.index == 2,
    {
        let n = vertices.len();
        let mut g = BasicGeometry {
            positions: AttributeArray::with_capacity(0, "position", n),
            colors: AttributeArray::with_capacity(1, "color", n),
            normals: AttributeArray::with_capacity(2, "normal", n),
        };
        let mut i: usize = 0;
        while i < n
            invariant
                n == vertices@.len(),
                i <= n,
                g.positions.local_buffer@.len() == i,
                g.colors.local_buffer@.len() == i,
                g.normals.local_buffer@.len() == i,
                forall|j: int|
                    0 <= j < i ==> {
                        &&& #[trigger] g.positions.local_buffer@[j] == vertices@[j].position
                        &&& g.colors.local_buffer@[j] == vertices@[j].color
                        &&& g.normals.local_buffer@[j] == vertices@[j].normal
                    },
                g.positions.descriptor.index == 0,
                g.colors.descriptor.index == 1,
                g.normals.descriptor.index == 2,
            decreases n - i,
        {
            let v = vertices[i];
            g.positions.local_buffer.push(v.position);
            g.colors.local_buffer.push(v.color);
            g.normals.local_buffer.push(v.normal);
            i = i + 1;
        }
        g
    }

    /// The number of vertices: the common length of the channels, or nothing
    /// when their lengths disagree.
    pub fn vertex_count(&self) -> (count: Option<usize>)
        ensures
            count == (if self.positions.local_buffer@.len() == self.colors.local_buffer@.len()
                && self.colors.local_buffer@.len() == self.normals.local_buffer@.len() {
                Some(self.positions.local_buffer@.len() as usize)
            } else {
                None::<usize>
            }),
    {
        let lengths: [usize; 3] = [
            self.positions.local_buffer.len(),
            self.colors.local_buffer.len(),
            self.normals.local_buffer.len(),
        ];
        let r = retrieve_vertex_count(lengths.as_slice());
        proof {
            let s = lengths@;
            if !(s[0] == s[1] && s[1] == s[2]) {
                assert(!all_same(s));
            }
        }
        r
    }
}

} // verus!
