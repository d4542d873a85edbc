use vstd::prelude::*;
use crate::attributes::AttributeArray;

verus! {

/// Geometry of independent line segments: two vertices per segment, each with
/// a position, a color and a line width, connected by an index stream.
#[derive(Debug)]
pub struct LineGeometry<P, W> {
    pub positions: AttributeArray<P>,
    pub colors: AttributeArray<P>,
    pub widths: AttributeArray<W>,
    pub indices: Vec<u32>,
}

impl<P: Copy, W: Copy> LineGeometry<P, W> {
    /// All channels have one value per vertex, two vertices per segment, and
    /// index `i` names vertex `i`.
    pub open spec fn wf(&self) -> bool {
        let n = self.positions.local_buffer.len();
        &&& self.colors.local_buffer.len() == n
        &&& self.widths.local_buffer.len() == n
        &&& n % 2 == 0
        &&& self.indices.len() == n
        &&& forall|i: int| 0 <= i < n ==> #[trigger] self.indices@[i] == i
    }

    /// Geometry with no segments, its channels bound to slots 0, 1 and 2.
    pub fn new() -> (g: LineGeometry<P, W>)
        ensures
            g.wf(),
            g.positions.local_buffer.len() == 0,
            g.positions.descriptor.index == 0,
            g.colors.descriptor.index == 1,
            g.widths.descriptor.index == 2,
    {
        LineGeometry {
            positions: AttributeArray::new(0, "position"),
            colors: AttributeArray::new(1, "color"),
            widths: AttributeArray::new(2, "width"),
            indices: Vec::new(),
        }
    }

    /// Append a segment from `begin` to `end`, drawn in `color` with `width`.
    pub fn add_segment(&mut self, begin: P, end: P, color: P, width: W)
        requires
            old(self).wf(),
            old(self).positions.local_buffer.len() + 2 <= u32::MAX,
        ensures
            final(self).wf(),
            final(self).positions.local_buffer@ == old(self).positions.local_buffer@.push(
                begin,
            ).push(end),
            final(self).colors.local_buffer@ == old(self).colors.local_buffer@.push(color).push(
                color,
            ),
            final(self).widths.local_buffer@ == old(self).widths.local_buffer@.push(width).push(
                width,
            ),
            final(self).positions.descriptor == old(self).positions.descriptor,
            final(self).colors.descriptor == old(self).colors.descriptor,
            final(self).widths.descriptor == old(self).widths.descriptor,
    {
        self.positions.local_buffer.push(begin);
        self.positions.local_buffer.push(end);
        self.colors.local_buffer.push(color);
        self.colors.local_buffer.push(color);
        self.widths.local_buffer.push(width);
        self.widths.local_buffer.push(width);
        let index0 = self.positions.local_buffer.len() - 2;
        let index1 = index0 + 1;
        self.indices.push(index0 as u32);
        self.indices.push(index1 as u32);
    }
}

} // verus!
