use vstd::prelude::*;

verus! {

/// View and projection of the camera, and the current model transformation
/// with a stack of saved ones for hierarchical rendering.
#[derive(Debug, Clone)]
pub struct RenderParameters<M> {
    /// Saved model transformations, oldest first
    pub matrix_stack: Vec<M>,
    /// The camera view matrix
    pub view: M,
    /// The projection matrix
    pub projection: M,
    /// The current model transformation
    pub model: M,
}

impl<M: Copy> RenderParameters<M> {
    /// The saved model transformations, oldest first.
    pub open spec fn saved(&self) -> Seq<M> {
        self.matrix_stack@
    }

    /// Parameters for the given view and projection, with `identity` as the
    /// model transformation and nothing saved.
    pub fn new(view: M, projection: M, identity: M) -> (p: RenderParameters<M>)
        ensures
            p.view == view,
            p.projection == projection,
            p.model == identity,
            p.saved() == Seq::<M>::empty(),
    {
        RenderParameters { matrix_stack: Vec::new(), view, projection, model: identity }
    }

    /// Save the current model transformation.
    pub fn push_matrix(&mut self)
        ensures
            final(self).saved() == old(self).saved().push(old(self).model),
            final(self).model == old(self).model,
            final(self).view == old(self).view,
            final(self).projection == old(self).projection,
    {
        self.matrix_stack.push(self.model);
    }

    /// Restore the most recently saved model transformation.
    pub fn pop_matrix(&mut self)
        requires
            old(self).saved().len() > 0,
        ensures
            final(self).saved() == old(self).saved().drop_last(),
            final(self).model == old(self).saved().last(),
            final(self).view == old(self).view,
            final(self).projection == old(self).projection,
    {
        let m = self.matrix_stack.pop();
        self.model = m.unwrap();
    }
}

} // verus!
