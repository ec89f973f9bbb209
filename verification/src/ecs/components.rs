use vstd::prelude::*;

verus! {

/// Refers to an asset kept by the asset store.
#[derive(Debug, Clone, Copy, PartialEq, Eq, Structural)]
pub struct Handle {
    pub id: usize,
}

/// Draws a mesh with a material.
#[derive(Debug, Clone, Copy, PartialEq, Eq, Structural)]
pub struct MeshRenderable {
    pub mesh: Handle,
    pub material: Handle,
}

impl MeshRenderable {
    /// Draws `mesh` with `material`.
    pub fn new(mesh: Handle, material: Handle) -> (r: Self)
        ensures
            r.mesh == mesh,
            r.material == material,
    {
        Self { mesh, material }
    }
}

} // verus!
