//! Parts of the Cubism model.
use vstd::prelude::*;

use crate::facet::id_views;
use crate::model::{find_id, Model, PartParent};
use crate::ModelData;

verus! {

/// A static part.
#[derive(Clone, Debug, Default, Eq, Hash, PartialEq)]
pub struct StaticPart {
    /// The index of a part.
    pub index: usize,
    /// The ID of a part.
    pub id: String,
    /// The parent of a part.
    pub parent: PartParent,
}

/// Static parts, in index order from `start` up to `end`.
pub struct StaticParts<'a> {
    model: &'a Model,
    start: usize,
    end: usize,
}

impl<'a> StaticParts<'a> {
    #[verifier::type_invariant]
    spec fn inv(&self) -> bool {
        &&& self.model.wf()
        &&& self.start <= self.end <= self.model.spec_parts().len()
    }

    /// The model read from.
    pub closed spec fn spec_model(&self) -> &'a Model {
        self.model
    }

    /// All the parts of the model.
    pub fn new(model: &'a Model) -> (r: Self)
        requires
            model.wf(),
        ensures
            r.spec_model() == model,
            r.spec_range() == (0nat, model.spec_parts().len()),
    {
        StaticParts { model, start: 0, end: model.part_count() }
    }
}

impl<'a> ModelData for StaticParts<'a> {
    type Data = StaticPart;

    open spec fn spec_ids(&self) -> Seq<Seq<char>> {
        id_views(self.spec_model().spec_parts().ids@)
    }

    open spec fn describes(&self, index: int, data: StaticPart) -> bool {
        let p = self.spec_model().spec_parts();
        &&& data.index == index
        &&& data.id@ == p.ids@[index]@
        &&& data.parent == p.parent_indices@[index]
    }

    closed spec fn spec_range(&self) -> (nat, nat) {
        (self.start as nat, self.end as nat)
    }

    fn range(&self) -> (r: (usize, usize)) {
        proof {
            use_type_invariant(self);
        }
        (self.start, self.end)
    }

    fn set_range(&mut self, start: usize, end: usize) {
        proof {
            use_type_invariant(&*self);
            assert(self.spec_ids().len() == self.model.spec_parts().len());
        }
        *self = StaticParts { model: self.model, start, end };
    }

    fn count(&self) -> (r: usize) {
        self.model.part_count()
    }

    fn index(&self, id: &str) -> (r: Option<usize>) {
        find_id(self.model.part_ids(), id)
    }

    fn get_index_unchecked(&self, index: usize) -> (r: StaticPart) {
        proof {
            use_type_invariant(self);
        }
        StaticPart {
            index,
            id: self.model.part_ids()[index].clone(),
            parent: self.model.part_parent()[index],
        }
    }
}

} // verus!
