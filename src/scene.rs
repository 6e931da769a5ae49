//! The scene: the root that owns every element and resolves them by id.

use crate::element::{Element, GeometryType};
use crate::ids::is_id;
use vstd::prelude::*;

verus! {

/// `i` is the first position of `ids` that holds `id`.
pub open spec fn is_first_match(ids: Seq<Seq<char>>, id: Seq<char>, i: int) -> bool {
    &&& 0 <= i < ids.len()
    &&& ids[i] == id
    &&& forall|j: int| 0 <= j < i ==> ids[j] != id
}

/// The first position of `ids` that holds `id`, or `None` when none does.
pub open spec fn first_match(ids: Seq<Seq<char>>, id: Seq<char>) -> Option<int> {
    if exists|i: int| is_first_match(ids, id, i) {
        Some(choose|i: int| is_first_match(ids, id, i))
    } else {
        None
    }
}

/// A first match is the only one.
pub proof fn lemma_first_match_at(ids: Seq<Seq<char>>, id: Seq<char>, i: int)
    requires
        is_first_match(ids, id, i),
    ensures
        first_match(ids, id) == Some(i),
{
    let k = choose|k: int| is_first_match(ids, id, k);
    assert(is_first_match(ids, id, k));
    if k < i {
        assert(ids[k] != id);
    } else if i < k {
        assert(ids[i] != id);
    }
}

/// The elements of a scene, in the order they were added, and a camera
/// transform `T` that belongs to the host.
pub struct Scene<G, T> {
    elements: Vec<Element<G, T>>,
    camera: T,
}

impl<G, T> Scene<G, T> {
    /// The elements, in the order they were added.
    pub closed spec fn elements(&self) -> Seq<Element<G, T>> {
        self.elements@
    }

    /// The camera transform.
    pub closed spec fn camera(&self) -> T {
        self.camera
    }

    /// The elements' identifiers, in order.
    pub open spec fn element_ids(&self) -> Seq<Seq<char>> {
        self.elements().map_values(|e: Element<G, T>| e.id())
    }

    /// Where the element with identifier `id` stands: the first one that has it.
    pub open spec fn element_index(&self, id: Seq<char>) -> Option<int> {
        first_match(self.element_ids(), id)
    }

    /// How many anchors the element with identifier `id` holds, if there is one.
    pub open spec fn anchor_count_of(&self, id: Seq<char>) -> Option<nat> {
        match self.element_index(id) {
            Some(i) => Some(self.elements()[i].anchors().len()),
            None => None,
        }
    }

    /// The identifier of anchor `index` of the element with identifier `id`.
    pub open spec fn anchor_of(&self, id: Seq<char>, index: int) -> Option<Seq<char>> {
        match self.element_index(id) {
            Some(i) => self.elements()[i].anchor_id_at(index),
            None => None,
        }
    }

    /// Every element is well formed.
    pub open spec fn wf(&self) -> bool {
        forall|i: int| 0 <= i < self.elements().len() ==> (#[trigger] self.elements()[i]).wf()
    }

    /// `after` is `before` with one more element, of identifier `id`, type
    /// `geometry_type` and transform `transform`, that holds a single anchor
    /// carrying `seed`.
    pub open spec fn is_seeded_addition(
        before: Self,
        after: Self,
        id: Seq<char>,
        geometry_type: GeometryType,
        transform: T,
        seed: G,
    ) -> bool {
        &&& after.camera() == before.camera()
        &&& after.elements().len() == before.elements().len() + 1
        &&& after.elements().drop_last() == before.elements()
        &&& after.elements().last().id() == id
        &&& after.elements().last().kind() == geometry_type
        &&& after.elements().last().transform() == transform
        &&& after.elements().last().anchors().len() == 1
        &&& after.elements().last().anchors()[0].geometry() == seed
    }

    /// An empty scene that looks through `camera`.
    pub fn new(camera: T) -> (r: Self)
        ensures
            r.wf(),
            r.elements() == Seq::<Element<G, T>>::empty(),
            r.camera() == camera,
    {
        Scene { elements: Vec::new(), camera }
    }

    /// Adds an element of type `geometry_type` with local transform
    /// `transform`, seeded with one anchor that carries `seed`, and returns
    /// the element's identifier.
    pub fn add_element(&mut self, geometry_type: GeometryType, transform: T, seed: G) -> (r: String)
        ensures
            Self::is_seeded_addition(*old(self), *final(self), r@, geometry_type, transform, seed),
            is_id(r@),
            old(self).wf() ==> final(self).wf(),
    {
        let mut el = Element::new(geometry_type, transform);
        el.add_anchor(seed);
        let id = el.get_id();
        self.elements.push(el);
        proof {
            assert(self.elements().drop_last() =~= old(self).elements());
        }
        id
    }

    /// Scans for the element with identifier `id`.
    fn position_of(&self, id: &String) -> (r: Option<usize>)
        ensures
            r matches Some(i) ==> self.element_index(id@) == Some(i as int),
            r is None ==> self.element_index(id@) is None,
    {
        let n = self.elements.len();
        let mut i: usize = 0;
        while i < n
            invariant
                n == self.elements().len(),
                i <= n,
                forall|j: int| 0 <= j < i ==> self.element_ids()[j] != id@,
            decreases n - i,
        {
            let candidate = self.elements[i].get_id();
            if candidate == *id {
                proof {
                    assert(is_first_match(self.element_ids(), id@, i as int));
                    lemma_first_match_at(self.element_ids(), id@, i as int);
                }
                return Some(i);
            }
            i = i + 1;
        }
        proof {
            assert(!exists|k: int| is_first_match(self.element_ids(), id@, k));
        }
        None
    }

    /// The identifier of anchor `anchor_index` of the element with identifier
    /// `element_id`, or `None` when either is missing.
    pub fn get_anchor(&self, element_id: String, anchor_index: usize) -> (r: Option<String>)
        ensures
            r matches Some(s) ==> self.anchor_of(element_id@, anchor_index as int) == Some(s@),
            r is None ==> self.anchor_of(element_id@, anchor_index as int) is None,
    {
        match self.position_of(&element_id) {
            Some(i) => self.elements[i].get_anchor(anchor_index),
            None => None,
        }
    }

    /// The anchor count of the element with identifier `id`, as a one-item
    /// summary, or `None` when there is no such element.
    pub fn render(&self, id: String) -> (r: Option<Vec<usize>>)
        ensures
            r matches Some(v) ==> v@.len() == 1 && self.anchor_count_of(id@) == Some(v@[0] as nat),
            r is None ==> self.anchor_count_of(id@) is None,
    {
        match self.position_of(&id) {
            Some(i) => {
                let count = self.elements[i].get_anchor_count();
                let summary = vec![count];
                Some(summary)
            },
            None => None,
        }
    }
    /// The camera transform.
    pub fn camera_ref(&self) -> (r: &T)
        ensures
            *r == self.camera(),
    {
        &self.camera
    }

    /// How many elements the scene holds.
    pub fn element_count(&self) -> (r: usize)
        ensures
            r == self.elements().len(),
    {
        self.elements.len()
    }

    /// An element that `add_element` just added, under an identifier no
    /// earlier element had, is found by that identifier and reports its one
    /// seeded anchor.
    pub proof fn lemma_added_element_renders_one_anchor(
        before: Self,
        after: Self,
        id: Seq<char>,
        geometry_type: GeometryType,
        transform: T,
        seed: G,
    )
        requires
            Self::is_seeded_addition(before, after, id, geometry_type, transform, seed),
            !before.element_ids().contains(id),
        ensures
            after.element_index(id) == Some(before.elements().len() as int),
            after.anchor_count_of(id) == Some(1nat),
    {
        let n = before.elements().len() as int;
        assert forall|j: int| 0 <= j < n implies after.element_ids()[j] != id by {
            assert(after.elements()[j] == after.elements().drop_last()[j]);
            assert(before.element_ids()[j] == after.element_ids()[j]);
        }
        assert(is_first_match(after.element_ids(), id, n));
        lemma_first_match_at(after.element_ids(), id, n);
    }

    /// In a well-formed scene, a string that does not have the shape of an
    /// identifier names no element: nothing is rendered or read through it.
    pub proof fn lemma_non_id_not_found(scene: Self, id: Seq<char>, anchor_index: int)
        requires
            scene.wf(),
            !is_id(id),
        ensures
            scene.element_index(id) is None,
            scene.anchor_count_of(id) is None,
            scene.anchor_of(id, anchor_index) is None,
    {
        assert forall|k: int| !is_first_match(scene.element_ids(), id, k) by {
            if 0 <= k < scene.elements().len() {
                assert(scene.elements()[k].wf());
            }
        }
    }
}

} // verus!
