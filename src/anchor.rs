//! Anchors: identified point entities.

use crate::ids::{get_id, is_id};
use vstd::prelude::*;

verus! {

/// A point entity with a fresh identifier. Its geometry `G` (position and
/// local transform) belongs to the host: the anchor carries it and never reads it.
pub struct Anchor<G> {
    id: String,
    geometry: G,
}

impl<G> Anchor<G> {
    /// The anchor's identifier.
    pub closed spec fn id(&self) -> Seq<char> {
        self.id@
    }

    /// The geometry the anchor carries.
    pub closed spec fn geometry(&self) -> G {
        self.geometry
    }

    /// Every anchor's identifier has the shape `is_id` describes.
    pub open spec fn wf(&self) -> bool {
        is_id(self.id())
    }

    /// An anchor with a fresh identifier that carries `geometry`.
    pub fn new(geometry: G) -> (r: Self)
        ensures
            r.wf(),
            r.geometry() == geometry,
    {
        let id = get_id();
        Anchor { id, geometry }
    }

    /// A copy of the identifier.
    pub fn get_id(&self) -> (r: String)
        ensures
            r@ == self.id(),
    {
        self.id.clone()
    }

    /// The geometry the anchor carries.
    pub fn geometry_ref(&self) -> (r: &G)
        ensures
            *r == self.geometry(),
    {
        &self.geometry
    }

    /// Replaces the geometry; the identifier stays.
    pub fn set_geometry(&mut self, geometry: G)
        ensures
            final(self).id() == old(self).id(),
            final(self).wf() == old(self).wf(),
            final(self).geometry() == geometry,
    {
        self.geometry = geometry;
    }
}

} // verus!
