use vstd::prelude::*;
use std::collections::HashMap;

verus! {

broadcast use vstd::std_specs::hash::group_hash_axioms;

/// The key under which the meshes of the model with symbol `c` are kept.
pub open spec fn symbol_key(c: char) -> u32 {
    c as u32
}

/// The meshes of each Bézier model that has a symbol, so that every placement
/// of a model in an L-system shares the same mesh instances (`M` is a shared,
/// read-only handle).
#[derive(Debug)]
pub struct BezierMeshManager<M> {
    mesh_map: HashMap<u32, Vec<M>>,
}

impl<M> BezierMeshManager<M> {
    /// The meshes kept, by model symbol.
    pub closed spec fn meshes(&self) -> Map<u32, Vec<M>> {
        self.mesh_map@
    }

    /// A manager that keeps no meshes.
    pub fn new() -> (m: BezierMeshManager<M>)
        ensures
            m.meshes() == Map::<u32, Vec<M>>::empty(),
    {
        BezierMeshManager { mesh_map: HashMap::new() }
    }

    /// Keep `meshes` for the model with symbol `symbol`, replacing what was
    /// kept for it. A model without a symbol is not instantiated and is ignored.
    pub fn update_meshes(&mut self, symbol: Option<char>, meshes: Vec<M>)
        ensures
            match symbol {
                Some(c) => final(self).meshes() == old(self).meshes().insert(symbol_key(c), meshes),
                None => final(self).meshes() == old(self).meshes(),
            },
    {
        if let Some(c) = symbol {
            self.mesh_map.insert(c as u32, meshes);
        }
    }

    /// Forget the meshes of the model with symbol `c`, if any.
    pub fn remove_meshes(&mut self, c: char)
        ensures
            final(self).meshes() == old(self).meshes().remove(symbol_key(c)),
    {
        let k: u32 = c as u32;
        self.mesh_map.remove(&k);
    }

    /// Keep the meshes of the model `from` under its new symbol `to`, without
    /// regenerating them. Nothing happens when `from` has no meshes.
    pub fn rename_meshes(&mut self, from: char, to: char)
        ensures
            if old(self).meshes().contains_key(symbol_key(from)) {
                final(self).meshes() == old(self).meshes().remove(symbol_key(from)).insert(
                    symbol_key(to),
                    old(self).meshes()[symbol_key(from)],
                )
            } else {
                final(self).meshes() == old(self).meshes()
            },
    {
        let k: u32 = from as u32;
        if let Some(meshes) = self.mesh_map.remove(&k) {
            self.mesh_map.insert(to as u32, meshes);
        }
    }

    /// Whether meshes are kept for the model with symbol `c`.
    pub fn has_meshes(&self, c: char) -> (b: bool)
        ensures
            b == self.meshes().contains_key(symbol_key(c)),
    {
        let k: u32 = c as u32;
        self.mesh_map.contains_key(&k)
    }

    /// The meshes kept for the model with symbol `c`.
    pub fn retrieve_meshes(&self, c: char) -> (meshes: &Vec<M>)
        requires
            self.meshes().contains_key(symbol_key(c)),
        ensures
            *meshes == self.meshes()[symbol_key(c)],
    {
        let k: u32 = c as u32;
        self.mesh_map.get(&k).unwrap()
    }
}

} // verus!
