//! Parameters of the Cubism model.
use vstd::prelude::*;

use crate::facet::id_views;
use crate::model::{copy_of, find_id, Model};
use crate::ModelData;

verus! {

/// A static parameter.
#[derive(Clone, Debug, Default, PartialEq)]
pub struct StaticParameter {
    /// The index of a parameter.
    pub index: usize,
    /// The ID of a parameter.
    pub id: String,
    /// The minimal value of a parameter, as a single-precision bit pattern.
    pub min_value: u32,
    /// The maximal value of a parameter, as a single-precision bit pattern.
    pub max_value: u32,
    /// The default value of a parameter, as a single-precision bit pattern.
    pub default_value: u32,
    /// The key values of a parameter, as single-precision bit patterns.
    pub key_values: Vec<u32>,
}

/// Static parameters, in index order from `start` up to `end`.
pub struct StaticParameters<'a> {
    model: &'a Model,
    start: usize,
    end: usize,
}

impl<'a> StaticParameters<'a> {
    #[verifier::type_invariant]
    spec fn inv(&self) -> bool {
        &&& self.model.wf()
        &&& self.start <= self.end <= self.model.spec_parameters().len()
    }

    /// The model read from.
    pub closed spec fn spec_model(&self) -> &'a Model {
        self.model
    }

    /// All the parameters of the model.
    pub fn new(model: &'a Model) -> (r: Self)
        requires
            model.wf(),
        ensures
            r.spec_model() == model,
            r.spec_range() == (0nat, model.spec_parameters().len()),
    {
        StaticParameters { model, start: 0, end: model.parameter_count() }
    }
}

impl<'a> ModelData for StaticParameters<'a> {
    type Data = StaticParameter;

    open spec fn spec_ids(&self) -> Seq<Seq<char>> {
        id_views(self.spec_model().spec_parameters().ids@)
    }

    open spec fn describes(&self, index: int, data: StaticParameter) -> bool {
        let p = self.spec_model().spec_parameters();
        &&& data.index == index
        &&& data.id@ == p.ids@[index]@
        &&& data.min_value == p.min_values@[index]
        &&& data.max_value == p.max_values@[index]
        &&& data.default_value == p.default_values@[index]
        &&& data.key_values@ == p.key_values@[index]@
    }

    closed spec fn spec_range(&self) -> (nat, nat) {
        (self.start as nat, self.end as nat)
    }

    fn range(&self) -> (r: (usize, usize)) {
        proof {
            use_type_invariant(self);
        }
        (self.start, self.end)
    }

    fn set_range(&mut self, start: usize, end: usize) {
        proof {
            use_type_invariant(&*self);
            assert(self.spec_ids().len() == self.model.spec_parameters().len());
        }
        *self = StaticParameters { model: self.model, start, end };
    }

    fn count(&self) -> (r: usize) {
        self.model.parameter_count()
    }

    fn index(&self, id: &str) -> (r: Option<usize>) {
        find_id(self.model.parameter_ids(), id)
    }

    fn get_index_unchecked(&self, index: usize) -> (r: StaticParameter) {
        proof {
            use_type_invariant(self);
        }
        let ids = self.model.parameter_ids();
        StaticParameter {
            index,
            id: ids[index].clone(),
            min_value: self.model.parameter_min_values()[index],
            max_value: self.model.parameter_max_values()[index],
            default_value: self.model.parameter_default_values()[index],
            key_values: copy_of(self.model.parameter_key_values()[index].as_slice()),
        }
    }
}

} // verus!
