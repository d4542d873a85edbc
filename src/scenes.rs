use vstd::prelude::*;

verus! {

/// What the scene stack should do once the current scene has been shown,
/// decided from within that scene.
#[derive(Debug)]
pub enum SceneAction<S> {
    /// Do nothing
    Nothing,
    /// Pop the current scene off the stack
    PopScene,
    /// Push the given scene; it becomes the current one
    PushScene(S),
}

/// A stack of scenes; the topmost one is shown and receives input.
#[derive(Debug)]
pub struct SceneManager<S> {
    scenes: Vec<S>,
}

impl<S> SceneManager<S> {
    /// The scenes, bottom first.
    pub closed spec fn scenes(&self) -> Seq<S> {
        self.scenes@
    }

    /// An empty scene stack.
    pub fn new() -> (m: SceneManager<S>)
        ensures
            m.scenes() == Seq::<S>::empty(),
    {
        SceneManager { scenes: Vec::new() }
    }

    /// Number of scenes on the stack.
    pub fn len(&self) -> (n: usize)
        ensures
            n == self.scenes().len(),
    {
        self.scenes.len()
    }

    /// Push a scene; it is the current one from now on.
    pub fn push_scene(&mut self, scene: S)
        ensures
            final(self).scenes() == old(self).scenes().push(scene),
    {
        self.scenes.push(scene);
    }

    /// Remove the current scene.
    pub fn pop_scene(&mut self)
        requires
            old(self).scenes().len() > 0,
        ensures
            final(self).scenes() == old(self).scenes().drop_last(),
    {
        self.scenes.pop();
    }

    /// The current scene: the topmost one.
    pub fn current_scene(&self) -> (s: &S)
        requires
            self.scenes().len() > 0,
        ensures
            *s == self.scenes().last(),
    {
        let n = self.scenes.len();
        &self.scenes[n - 1]
    }

    /// Carry out what a scene asked for.
    pub fn process_action(&mut self, action: SceneAction<S>)
        requires
            action is PopScene ==> old(self).scenes().len() > 0,
        ensures
            match action {
                SceneAction::Nothing => final(self).scenes() == old(self).scenes(),
                SceneAction::PopScene => final(self).scenes() == old(self).scenes().drop_last(),
                SceneAction::PushScene(s) => final(self).scenes() == old(self).scenes().push(s),
            },
    {
        match action {
            SceneAction::PushScene(scene) => self.push_scene(scene),
            SceneAction::PopScene => self.pop_scene(),
            SceneAction::Nothing => {},
        }
    }
}

} // verus!
