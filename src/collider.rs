//! The structure of a collider: its shape, how it responds to collisions, and
//! its collision layer. Shape and surface material are type parameters, so
//! that the geometry and the coefficients can be whatever numbers the physics
//! solver works in.
use vstd::prelude::*;

verus! {

/// How a collider responds to collisions. Solid ones respond when attached
/// to bodies, with the given surface material; triggers only cause an event.
#[derive(Clone, Copy, Debug)]
pub enum ColliderType<M> {
    Solid(M),
    Trigger,
}

/// A component that lets a game object collide with others or act as a
/// trigger.
#[derive(Clone, Copy, Debug)]
pub struct Collider<S, M> {
    pub shape: S,
    pub ty: ColliderType<M>,
    /// Collision layer, consulted by a mask matrix to decide which layers
    /// may collide. Defaults to 0.
    pub layer: usize,
}

impl<S, M> Collider<S, M> {
    /// A solid collider of the given shape and material, on layer 0.
    pub fn solid(shape: S, material: M) -> (r: Self)
        ensures
            r.shape == shape,
            r.ty == ColliderType::Solid(material),
            r.layer == 0,
    {
        Collider { shape, ty: ColliderType::Solid(material), layer: 0 }
    }

    /// The same collider, made solid with the given surface material.
    pub fn with_material(self, mat: M) -> (r: Self)
        ensures
            r == (Collider { ty: ColliderType::Solid(mat), ..self }),
    {
        Collider { ty: ColliderType::Solid(mat), ..self }
    }

    /// The same collider, turned into a trigger.
    pub fn trigger(self) -> (r: Self)
        ensures
            r == (Collider { ty: ColliderType::<M>::Trigger, ..self }),
    {
        Collider { ty: ColliderType::Trigger, ..self }
    }

    /// The same collider on another collision layer.
    pub fn with_layer(self, layer: usize) -> (r: Self)
        ensures
            r == (Collider { layer, ..self }),
    {
        Collider { layer, ..self }
    }

    /// Whether the collider responds to collisions.
    pub fn is_solid(&self) -> (r: bool)
        ensures
            r == (self.ty is Solid),
    {
        match self.ty {
            ColliderType::Solid(_) => true,
            ColliderType::Trigger => false,
        }
    }
}

} // verus!
