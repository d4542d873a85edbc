use vstd::prelude::*;
use crate::bezier::{
    BezierModelParameters,
    BezierPatchParameters,
    ControlPointId,
    control_point,
    point_moved,
    valid_id,
};

verus! {

/// Position of a control point in the fixed enumeration order: patch by patch,
/// curve by curve, point by point, sixteen to a patch.
pub open spec fn slot(id: ControlPointId) -> int {
    16 * id.patch + 4 * id.curve + id.point
}

/// Whether enumeration position `s` is a control point of a visible patch whose
/// proximity sphere meets the one around the cursor. `hits` holds one entry per
/// control point in enumeration order; `active` one per patch.
pub open spec fn is_hit(active: Seq<bool>, hits: Seq<bool>, s: int) -> bool {
    &&& 0 <= s < hits.len()
    &&& active[s / 16]
    &&& hits[s]
}

/// `r` is what a press picks: the first hit in enumeration order, or nothing
/// when no visible control point is hit.
pub open spec fn is_first_hit(active: Seq<bool>, hits: Seq<bool>, r: Option<ControlPointId>) -> bool {
    match r {
        Some(id) => {
            &&& valid_id(active.len() as int, id)
            &&& is_hit(active, hits, slot(id))
            &&& forall|t: int| 0 <= t < slot(id) ==> !#[trigger] is_hit(active, hits, t)
        },
        None => forall|t: int| !#[trigger] is_hit(active, hits, t),
    }
}

/// Pick the control point under the cursor: the first control point, in the
/// order patch, curve, point, of a visible patch that is hit. Overlapping
/// points resolve to enumeration order, not to the nearest one.
pub fn pick_control_point(active: &[bool], hits: &[bool]) -> (r: Option<ControlPointId>)
    requires
        hits@.len() == 16 * active@.len(),
    ensures
        is_first_hit(active@, hits@, r),
{
    let n: usize = hits.len();
    let mut i: usize = 0;
    while i < active.len()
        invariant
            hits@.len() == 16 * active@.len(),
            n == hits@.len(),
            i <= active@.len(),
            forall|t: int| 0 <= t < 16 * i ==> !#[trigger] is_hit(active@, hits@, t),
        decreases active@.len() - i,
    {
        if active[i] {
            let mut j: usize = 0;
            while j < 4
                invariant
                    hits@.len() == 16 * active@.len(),
                    n == hits@.len(),
                    i < active@.len(),
                    active@[i as int],
                    j <= 4,
                    forall|t: int| 0 <= t < 16 * i + 4 * j ==> !#[trigger] is_hit(active@, hits@, t),
                decreases 4 - j,
            {
                let mut k: usize = 0;
                while k < 4
                    invariant
                        hits@.len() == 16 * active@.len(),
                        n == hits@.len(),
                        i < active@.len(),
                        active@[i as int],
                        j < 4,
                        k <= 4,
                        forall|t: int|
                            0 <= t < 16 * i + 4 * j + k ==> !#[trigger] is_hit(active@, hits@, t),
                    decreases 4 - k,
                {
                    let s: usize = 16 * i + 4 * j + k;
                    assert(s / 16 == i);
                    if hits[s] {
                        return Some(ControlPointId { patch: i, curve: j, point: k });
                    }
                    k = k + 1;
                }
                j = j + 1;
            }
        } else {
            assert forall|t: int| 16 * i <= t < 16 * i + 16 implies !#[trigger] is_hit(
                active@,
                hits@,
                t,
            ) by {
                assert(t / 16 == i);
            }
        }
        i = i + 1;
    }
    assert forall|t: int| !#[trigger] is_hit(active@, hits@, t) by {
        if 0 <= t < hits@.len() {
            assert(t < 16 * active@.len());
        }
    }
    None
}

/// A control point being dragged: where the cursor last was, the depth of the
/// grabbed point (captured once, at the press), and which point it is.
#[derive(Debug, Clone, Copy)]
pub struct DragSession<D> {
    /// Cursor column at the press, then at each move
    pub origin_x: u32,
    /// Cursor row at the press, then at each move
    pub origin_y: u32,
    /// Depth-buffer value under the cursor at the press
    pub depth: D,
    /// The control point under edit
    pub target: ControlPointId,
}

/// Whether a control point is being dragged.
#[derive(Debug, Clone, Copy)]
pub enum DragState<D> {
    Idle,
    Dragging(DragSession<D>),
}

/// What the owner of the meshes has to rebuild after a drag step.
#[derive(Debug, Clone, Copy, PartialEq, Eq, Structural)]
pub enum DragAction {
    /// Nothing changed
    Nothing,
    /// Only the control-point and control-curve visualisations of this patch
    RefreshControls(usize),
    /// The whole surface mesh of this patch: tessellation and normals
    RebuildPatch(usize),
}

/// The press, move and release protocol that turns mouse events into edits of
/// one control point.
#[derive(Debug, Clone, Copy)]
pub struct DragController<D> {
    pub state: DragState<D>,
}

/// State after a press at `(x, y)` with depth `depth` under the cursor: a
/// drag of the picked point, or no change on a miss.
pub open spec fn press_state<D>(
    state: DragState<D>,
    x: u32,
    y: u32,
    depth: D,
    picked: Option<ControlPointId>,
) -> DragState<D> {
    match picked {
        Some(id) => DragState::Dragging(DragSession { origin_x: x, origin_y: y, depth, target: id }),
        None => state,
    }
}

/// State after the cursor moved to `(x, y)` inside the viewport.
pub open spec fn moved_state<D>(state: DragState<D>, x: u32, y: u32) -> DragState<D> {
    match state {
        DragState::Dragging(s) => DragState::Dragging(DragSession { origin_x: x, origin_y: y, ..s }),
        DragState::Idle => state,
    }
}

/// What ending a drag asks for: the full rebuild of the dragged point's patch.
pub open spec fn finish_action<D>(state: DragState<D>) -> DragAction {
    match state {
        DragState::Dragging(s) => DragAction::RebuildPatch(s.target.patch),
        DragState::Idle => DragAction::Nothing,
    }
}

/// Whether the dragged point, if any, is a control point of a model with
/// `num_patches` patches.
pub open spec fn target_in<D>(state: DragState<D>, num_patches: int) -> bool {
    match state {
        DragState::Dragging(s) => valid_id(num_patches, s.target),
        DragState::Idle => true,
    }
}

impl<D: Copy> DragController<D> {
    /// A controller with no drag in progress.
    pub fn new() -> (c: DragController<D>)
        ensures
            c.state is Idle,
    {
        DragController { state: DragState::Idle }
    }

    /// Whether a drag is in progress; camera navigation is suppressed meanwhile.
    pub fn is_dragging(&self) -> (b: bool)
        ensures
            b == (self.state is Dragging),
    {
        match &self.state {
            DragState::Dragging(_) => true,
            DragState::Idle => false,
        }
    }

    /// The drag in progress, if any.
    pub fn session(&self) -> (s: Option<&DragSession<D>>)
        ensures
            match self.state {
                DragState::Dragging(d) => s == Some(&d),
                DragState::Idle => s is None,
            },
    {
        match &self.state {
            DragState::Dragging(d) => Some(d),
            DragState::Idle => None,
        }
    }

    /// Whether the dragged point, if any, exists in `model`.
    pub fn target_valid_for<P>(&self, model: &BezierModelParameters<P>) -> (b: bool)
        ensures
            b == target_in(self.state, model.patches@.len() as int),
    {
        match &self.state {
            DragState::Dragging(s) => s.target.patch < model.patches.len() && s.target.curve < 4
                && s.target.point < 4,
            DragState::Idle => true,
        }
    }

    /// Primary-button press at `(x, y)`, where `depth` is the depth-buffer value
    /// under the cursor. `hits` tells, for every control point in enumeration
    /// order, whether its proximity sphere meets the one around the unprojected
    /// cursor; `active` which patches are visible. On a hit the first hit point
    /// starts a drag; on a miss nothing changes. Returns whether a point was
    /// picked.
    pub fn press(&mut self, x: u32, y: u32, depth: D, active: &[bool], hits: &[bool]) -> (picked:
        Option<ControlPointId>)
        requires
            hits@.len() == 16 * active@.len(),
        ensures
            is_first_hit(active@, hits@, picked),
            final(self).state == press_state(old(self).state, x, y, depth, picked),
    {
        let picked = pick_control_point(active, hits);
        match picked {
            Some(id) => {
                self.state = DragState::Dragging(DragSession { origin_x: x, origin_y: y, depth, target: id });
            },
            None => {},
        }
        picked
    }

    /// Cursor moved to `(x, y)` inside the viewport, where `point` is that
    /// position unprojected at the depth captured at the press. During a drag
    /// the dragged control point moves there, and only its patch's control
    /// visualisations need refreshing; otherwise nothing happens.
    pub fn drag_to<P: Copy>(
        &mut self,
        model: &mut BezierModelParameters<P>,
        x: u32,
        y: u32,
        point: P,
    ) -> (action: DragAction)
        requires
            target_in(old(self).state, old(model).patches@.len() as int),
        ensures
            final(self).state == moved_state(old(self).state, x, y),
            final(model).symbol == old(model).symbol,
            match old(self).state {
                DragState::Dragging(s) => {
                    &&& action == DragAction::RefreshControls(s.target.patch)
                    &&& point_moved(old(model).patches@, final(model).patches@, s.target, point)
                },
                DragState::Idle => {
                    &&& action == DragAction::Nothing
                    &&& final(model).patches@ == old(model).patches@
                },
            },
    {
        match self.state {
            DragState::Dragging(s) => {
                model.set_control_point(s.target, point);
                self.state = DragState::Dragging(DragSession { origin_x: x, origin_y: y, ..s });
                DragAction::RefreshControls(s.target.patch)
            },
            DragState::Idle => DragAction::Nothing,
        }
    }

    /// Primary-button release, or the cursor leaving the viewport: the drag, if
    /// any, ends and its patch gets a full rebuild. The model is not touched.
    pub fn release(&mut self) -> (action: DragAction)
        ensures
            final(self).state is Idle,
            action == finish_action(old(self).state),
    {
        let action = match self.state {
            DragState::Dragging(s) => DragAction::RebuildPatch(s.target.patch),
            DragState::Idle => DragAction::Nothing,
        };
        self.state = DragState::Idle;
        action
    }
}

/// A press on a visible control point that is the first hit picks it and
/// starts a drag at the depth under the cursor. A move then puts that point
/// where the cursor unprojects, keeps the captured depth for the next move,
/// and refreshes only the patch's control visualisations. The release ends the
/// drag with exactly one full rebuild of that patch, and the point stays where
/// the last move put it.
pub proof fn lemma_press_drag_release<D, P>(
    state: DragState<D>,
    before: Seq<BezierPatchParameters<P>>,
    after: Seq<BezierPatchParameters<P>>,
    active: Seq<bool>,
    hits: Seq<bool>,
    id: ControlPointId,
    x0: u32,
    y0: u32,
    depth: D,
    x1: u32,
    y1: u32,
    p: P,
)
    requires
        active.len() == before.len(),
        hits.len() == 16 * active.len(),
        is_first_hit(active, hits, Some(id)),
        point_moved(before, after, id, p),
    ensures
        press_state(state, x0, y0, depth, Some(id)) == DragState::Dragging(
            DragSession { origin_x: x0, origin_y: y0, depth, target: id },
        ),
        target_in(press_state(state, x0, y0, depth, Some(id)), before.len() as int),
        moved_state(press_state(state, x0, y0, depth, Some(id)), x1, y1) == DragState::Dragging(
            DragSession { origin_x: x1, origin_y: y1, depth, target: id },
        ),
        control_point(after, id) == p,
        finish_action(moved_state(press_state(state, x0, y0, depth, Some(id)), x1, y1))
            == DragAction::RebuildPatch(id.patch),
{
}

/// A press where no control point of a visible patch is within reach picks
/// nothing and leaves the drag state as it was; a press never touches the model.
pub proof fn lemma_pick_miss<D>(
    state: DragState<D>,
    active: Seq<bool>,
    hits: Seq<bool>,
    picked: Option<ControlPointId>,
    x: u32,
    y: u32,
    depth: D,
)
    requires
        hits.len() == 16 * active.len(),
        forall|s: int| 0 <= s < hits.len() && #[trigger] active[s / 16] ==> !hits[s],
        is_first_hit(active, hits, picked),
    ensures
        picked is None,
        press_state(state, x, y, depth, picked) == state,
{
    if let Some(id) = picked {
        assert(is_hit(active, hits, slot(id)));
    }
}

} // verus!
