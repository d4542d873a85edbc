use vstd::prelude::*;

verus! {

/// One cubic Bézier curve: four ordered control points.
#[derive(Debug, Clone, Copy)]
pub struct BezierCurveParameters<P> {
    /// The four control points that describe this curve
    pub control_points: [P; 4],
}

/// A bicubic Bézier patch: four curves (rows) of four control points each, and
/// a display color.
#[derive(Debug, Clone, Copy)]
pub struct BezierPatchParameters<P> {
    /// The four Bézier curves that make up the patch
    pub curves: [BezierCurveParameters<P>; 4],
    /// Color of this patch
    pub color: P,
}

/// An ordered collection of patches, with the symbol that binds the model into
/// an L-system's interpretation table (none: the model is not instantiated).
#[derive(Debug, Clone)]
pub struct BezierModelParameters<P> {
    /// The name this model can be referenced by in the L-system
    pub symbol: Option<char>,
    /// The patches this model is made of
    pub patches: Vec<BezierPatchParameters<P>>,
}

/// Names one control point: patch, curve within the patch, point within the curve.
#[derive(Debug, Clone, Copy, PartialEq, Eq, Structural)]
pub struct ControlPointId {
    pub patch: usize,
    pub curve: usize,
    pub point: usize,
}

/// Whether `id` names a control point of a model with `num_patches` patches.
pub open spec fn valid_id(num_patches: int, id: ControlPointId) -> bool {
    &&& id.patch < num_patches
    &&& id.curve < 4
    &&& id.point < 4
}

/// The control point that `id` names.
pub open spec fn control_point<P>(patches: Seq<BezierPatchParameters<P>>, id: ControlPointId) -> P {
    patches[id.patch as int].curves[id.curve as int].control_points[id.point as int]
}

/// `after` is `before` with the control point `id` moved to `p`: the same
/// number of patches, the same colors, every other control point unchanged.
pub open spec fn point_moved<P>(
    before: Seq<BezierPatchParameters<P>>,
    after: Seq<BezierPatchParameters<P>>,
    id: ControlPointId,
    p: P,
) -> bool {
    &&& after.len() == before.len()
    &&& forall|i: int| 0 <= i < before.len() ==> (#[trigger] after[i]).color == before[i].color
    &&& forall|other: ControlPointId|
        valid_id(before.len() as int, other) ==> #[trigger] control_point(after, other) == if other
            == id {
            p
        } else {
            control_point(before, other)
        }
}

impl<P> BezierCurveParameters<P> {
    /// A curve through the given four control points.
    pub fn from_points(pts: [P; 4]) -> (c: BezierCurveParameters<P>)
        ensures
            c.control_points == pts,
    {
        BezierCurveParameters { control_points: pts }
    }
}

impl<P> BezierModelParameters<P> {
    /// A model with no patches and no symbol.
    pub fn empty() -> (m: BezierModelParameters<P>)
        ensures
            m.symbol is None,
            m.patches@.len() == 0,
    {
        BezierModelParameters { symbol: None, patches: Vec::new() }
    }
}

impl<P: Copy> BezierModelParameters<P> {
    /// Move the control point named by `id` to `p`; every other control point,
    /// every color and the symbol stay as they were.
    pub fn set_control_point(&mut self, id: ControlPointId, p: P)
        requires
            valid_id(old(self).patches@.len() as int, id),
        ensures
            final(self).symbol == old(self).symbol,
            point_moved(old(self).patches@, final(self).patches@, id, p),
    {
        let mut patch = self.patches[id.patch];
        let mut curve = patch.curves[id.curve];
        curve.control_points[id.point] = p;
        patch.curves[id.curve] = curve;
        self.patches.set(id.patch, patch);
    }
}

} // verus!
