//! Elements: identified, typed, ordered groups of anchors.

use crate::anchor::Anchor;
use crate::ids::{get_id, is_id};
use vstd::prelude::*;

verus! {

/// What an element draws from its anchors.
#[derive(Clone, Copy, Debug, PartialEq, Eq, Structural)]
pub enum GeometryType {
    Line,
    Quad,
}

/// The identifiers of `anchors`, in order.
pub open spec fn ids_of<G>(anchors: Seq<Anchor<G>>) -> Seq<Seq<char>> {
    anchors.map_values(|a: Anchor<G>| a.id())
}

/// The identifier at `index` of `ids`, or `None` when `index` is out of range.
pub open spec fn id_at(ids: Seq<Seq<char>>, index: int) -> Option<Seq<char>> {
    if 0 <= index < ids.len() {
        Some(ids[index])
    } else {
        None
    }
}

/// An identified group of anchors, kept in the order they were added, with a
/// geometry type and a local transform `T` that belongs to the host.
pub struct Element<G, T> {
    id: String,
    geometry_type: GeometryType,
    geometry: Vec<Anchor<G>>,
    transform: T,
}

impl<G, T> Element<G, T> {
    /// The element's identifier.
    pub closed spec fn id(&self) -> Seq<char> {
        self.id@
    }

    /// The element's geometry type.
    pub closed spec fn kind(&self) -> GeometryType {
        self.geometry_type
    }

    /// The anchors, in the order they were added.
    pub closed spec fn anchors(&self) -> Seq<Anchor<G>> {
        self.geometry@
    }

    /// The element's local transform.
    pub closed spec fn transform(&self) -> T {
        self.transform
    }

    /// The anchors' identifiers, in order.
    pub open spec fn anchor_ids(&self) -> Seq<Seq<char>> {
        ids_of(self.anchors())
    }

    /// The identifier of the anchor at `index`, if there is one.
    pub open spec fn anchor_id_at(&self, index: int) -> Option<Seq<char>> {
        id_at(self.anchor_ids(), index)
    }

    /// The element and each of its anchors carry an identifier of the shape `is_id` describes.
    pub open spec fn wf(&self) -> bool {
        &&& is_id(self.id())
        &&& forall|i: int| 0 <= i < self.anchors().len() ==> (#[trigger] self.anchors()[i]).wf()
    }

    /// An element with a fresh identifier, no anchors and local transform `transform`.
    pub fn new(geometry_type: GeometryType, transform: T) -> (r: Self)
        ensures
            r.wf(),
            r.kind() == geometry_type,
            r.anchors() == Seq::<Anchor<G>>::empty(),
            r.transform() == transform,
    {
        let id = get_id();
        Element { id, geometry_type, geometry: Vec::new(), transform }
    }

    /// Appends a new anchor carrying `geometry` and returns its identifier.
    pub fn add_anchor(&mut self, geometry: G) -> (r: String)
        ensures
            final(self).id() == old(self).id(),
            final(self).kind() == old(self).kind(),
            final(self).transform() == old(self).transform(),
            final(self).anchors().len() == old(self).anchors().len() + 1,
            final(self).anchors().drop_last() == old(self).anchors(),
            final(self).anchors().last().geometry() == geometry,
            final(self).anchors().last().id() == r@,
            is_id(r@),
            old(self).wf() ==> final(self).wf(),
    {
        let anchor = Anchor::new(geometry);
        let id = anchor.get_id();
        self.geometry.push(anchor);
        proof {
            assert(self.anchors().drop_last() =~= old(self).anchors());
        }
        id
    }

    /// The identifier of the anchor at `index`, or `None` when there is no such anchor.
    pub fn get_anchor(&self, index: usize) -> (r: Option<String>)
        ensures
            r matches Some(s) ==> self.anchor_id_at(index as int) == Some(s@),
            r is None ==> self.anchor_id_at(index as int) is None,
    {
        if index < self.geometry.len() {
            Some(self.geometry[index].get_id())
        } else {
            None
        }
    }

    /// A copy of the element's identifier.
    pub fn get_id(&self) -> (r: String)
        ensures
            r@ == self.id(),
    {
        self.id.clone()
    }

    /// How many anchors the element holds.
    pub fn get_anchor_count(&self) -> (r: usize)
        ensures
            r == self.anchors().len(),
    {
        self.geometry.len()
    }

    /// The element's geometry type.
    pub fn geometry_type(&self) -> (r: GeometryType)
        ensures
            r == self.kind(),
    {
        self.geometry_type
    }

    /// The element's local transform.
    pub fn transform_ref(&self) -> (r: &T)
        ensures
            *r == self.transform(),
    {
        &self.transform
    }

    /// After `add_anchor` returned `id`, the index the anchor went to yields
    /// `id`, the indexes before it yield what they did, and every index past
    /// the end yields nothing.
    pub proof fn lemma_get_anchor_after_add(before: Self, after: Self, id: Seq<char>)
        requires
            after.anchors().len() == before.anchors().len() + 1,
            after.anchors().drop_last() == before.anchors(),
            after.anchors().last().id() == id,
        ensures
            after.anchor_id_at(before.anchors().len() as int) == Some(id),
            forall|i: int| 0 <= i < before.anchors().len() ==>
                #[trigger] after.anchor_id_at(i) == before.anchor_id_at(i),
            forall|i: int| i >= after.anchors().len() ==> (#[trigger] after.anchor_id_at(i)) is None,
    {
        assert forall|i: int| 0 <= i < before.anchors().len() implies
            #[trigger] after.anchor_id_at(i) == before.anchor_id_at(i) by {
            assert(after.anchors()[i] == after.anchors().drop_last()[i]);
        }
    }
}

} // verus!
