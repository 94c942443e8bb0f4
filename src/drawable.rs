//! Drawables of the Cubism model.
use vstd::prelude::*;

use crate::error::Error;
use crate::facet::{dynamic_flags_ok, id_views, opacities_ok};
use crate::flags::{ConstantFlags, DynamicFlags};
use crate::model::{copy_of, find_id, first_invalid_flag, Model, Vector2};
use crate::ModelData;

verus! {

/// A static drawable.
#[derive(Clone, Debug, PartialEq)]
pub struct StaticDrawable {
    /// The index of a drawable.
    pub index: usize,
    /// The ID of a drawable.
    pub id: String,
    /// The constant flags of a drawable.
    pub constant_flags: ConstantFlags,
    /// The texture index of a drawable.
    pub texture_index: usize,
    /// The indices of the drawables masking this one.
    pub masks: Vec<usize>,
    /// The texture coordinates of the vertices.
    pub vertex_uvs: Vec<Vector2>,
    /// The triangle indices.
    pub indices: Vec<usize>,
}

/// Widens each value.
fn widen_u32(s: &[u32]) -> (r: Vec<usize>)
    ensures
        r@.len() == s@.len(),
        forall|i: int| 0 <= i < s@.len() ==> r@[i] == s@[i],
{
    let mut r: Vec<usize> = Vec::new();
    let mut i: usize = 0;
    while i < s.len()
        invariant
            0 <= i <= s@.len(),
            r@.len() == i,
            forall|j: int| 0 <= j < i ==> r@[j] == s@[j],
        decreases s@.len() - i,
    {
        r.push(s[i] as usize);
        i += 1;
    }
    r
}

/// Widens each value.
fn widen_u16(s: &[u16]) -> (r: Vec<usize>)
    ensures
        r@.len() == s@.len(),
        forall|i: int| 0 <= i < s@.len() ==> r@[i] == s@[i],
{
    let mut r: Vec<usize> = Vec::new();
    let mut i: usize = 0;
    while i < s.len()
        invariant
            0 <= i <= s@.len(),
            r@.len() == i,
            forall|j: int| 0 <= j < i ==> r@[j] == s@[j],
        decreases s@.len() - i,
    {
        r.push(s[i] as usize);
        i += 1;
    }
    r
}

/// Static drawables, in index order from `start` up to `end`.
pub struct StaticDrawables<'a> {
    model: &'a Model,
    start: usize,
    end: usize,
}

impl<'a> StaticDrawables<'a> {
    #[verifier::type_invariant]
    spec fn inv(&self) -> bool {
        &&& self.model.wf()
        &&& self.start <= self.end <= self.model.spec_drawables().len()
    }

    /// The model read from.
    pub closed spec fn spec_model(&self) -> &'a Model {
        self.model
    }

    /// All the drawables of the model.
    pub fn new(model: &'a Model) -> (r: Self)
        requires
            model.wf(),
        ensures
            r.spec_model() == model,
            r.spec_range() == (0nat, model.spec_drawables().len()),
    {
        StaticDrawables { model, start: 0, end: model.drawable_count() }
    }
}

impl<'a> ModelData for StaticDrawables<'a> {
    type Data = StaticDrawable;

    open spec fn spec_ids(&self) -> Seq<Seq<char>> {
        id_views(self.spec_model().spec_drawables().ids@)
    }

    open spec fn describes(&self, index: int, data: StaticDrawable) -> bool {
        let d = self.spec_model().spec_drawables();
        &&& data.index == index
        &&& data.id@ == d.ids@[index]@
        &&& data.constant_flags == d.constant_flags@[index]
        &&& data.texture_index == d.texture_indices@[index]
        &&& data.masks@.len() == d.masks@[index]@.len()
        &&& forall|k: int| 0 <= k < data.masks@.len() ==> data.masks@[k] == d.masks@[index]@[k]
        &&& data.vertex_uvs@ == d.vertex_uvs@[index]@
        &&& data.indices@.len() == d.indices@[index]@.len()
        &&& forall|k: int|
            0 <= k < data.indices@.len() ==> data.indices@[k] == d.indices@[index]@[k]
    }

    closed spec fn spec_range(&self) -> (nat, nat) {
        (self.start as nat, self.end as nat)
    }

    fn range(&self) -> (r: (usize, usize)) {
        proof {
            use_type_invariant(self);
        }
        (self.start, self.end)
    }

    fn set_range(&mut self, start: usize, end: usize) {
        proof {
            use_type_invariant(&*self);
            assert(self.spec_ids().len() == self.model.spec_drawables().len());
        }
        *self = StaticDrawables { model: self.model, start, end };
    }

    fn count(&self) -> (r: usize) {
        self.model.drawable_count()
    }

    fn index(&self, id: &str) -> (r: Option<usize>) {
        find_id(self.model.drawable_ids(), id)
    }

    fn get_index_unchecked(&self, index: usize) -> (r: StaticDrawable) {
        proof {
            use_type_invariant(self);
        }
        StaticDrawable {
            index,
            id: self.model.drawable_ids()[index].clone(),
            constant_flags: self.model.drawable_constant_flags()[index],
            texture_index: self.model.drawable_texture_indices()[index] as usize,
            masks: widen_u32(self.model.drawable_masks()[index].as_slice()),
            vertex_uvs: copy_of(self.model.drawable_vertex_uvs()[index].as_slice()),
            indices: widen_u16(self.model.drawable_indices()[index].as_slice()),
        }
    }
}

/// A dynamic drawable.
#[derive(Clone, Debug, PartialEq)]
pub struct DynamicDrawable {
    /// The index of a drawable.
    pub index: usize,
    /// The ID of a drawable.
    pub id: String,
    /// The dynamic flags of a drawable.
    pub dynamic_flags: DynamicFlags,
    /// The draw order of a drawable.
    pub draw_order: i32,
    /// The render order of a drawable.
    pub render_order: i32,
    /// The opacity of a drawable, as a single-precision bit pattern.
    pub opacity: u32,
    /// The positions of the vertices.
    pub vertex_positions: Vec<Vector2>,
}

/// Dynamic drawables, in index order from `start` up to `end`.
pub struct DynamicDrawables<'a> {
    model: &'a Model,
    start: usize,
    end: usize,
}

impl<'a> DynamicDrawables<'a> {
    #[verifier::type_invariant]
    spec fn inv(&self) -> bool {
        &&& self.model.wf()
        &&& self.start <= self.end <= self.model.spec_drawables().len()
    }

    /// The model read from.
    pub closed spec fn spec_model(&self) -> &'a Model {
        self.model
    }

    /// All the drawables of the model.
    pub fn new(model: &'a Model) -> (r: Self)
        requires
            model.wf(),
        ensures
            r.spec_model() == model,
            r.spec_range() == (0nat, model.spec_drawables().len()),
    {
        DynamicDrawables { model, start: 0, end: model.drawable_count() }
    }
}

impl<'a> ModelData for DynamicDrawables<'a> {
    type Data = Result<DynamicDrawable, Error>;

    open spec fn spec_ids(&self) -> Seq<Seq<char>> {
        id_views(self.spec_model().spec_drawables().ids@)
    }

    open spec fn describes(&self, index: int, data: Result<DynamicDrawable, Error>) -> bool {
        let d = self.spec_model().spec_drawables();
        if !dynamic_flags_ok(d.dynamic_flags@) {
            data matches Err(Error::InvalidFlags(kind, bits)) && kind == "dynamic" && exists|i: int|
                first_invalid_flag(d.dynamic_flags@, i) && d.dynamic_flags@[i].bits == bits
        } else if !opacities_ok(d.opacities@) {
            data matches Err(Error::GetDataError(what)) && what == "drawable opacities"
        } else {
            data matches Ok(x) && {
                &&& x.index == index
                &&& x.id@ == d.ids@[index]@
                &&& x.dynamic_flags == d.dynamic_flags@[index]
                &&& x.draw_order == d.draw_orders@[index]
                &&& x.render_order == d.render_orders@[index]
                &&& x.opacity == d.opacities@[index]
                &&& x.vertex_positions@ == d.vertex_positions@[index]@
            }
        }
    }

    closed spec fn spec_range(&self) -> (nat, nat) {
        (self.start as nat, self.end as nat)
    }

    fn range(&self) -> (r: (usize, usize)) {
        proof {
            use_type_invariant(self);
        }
        (self.start, self.end)
    }

    fn set_range(&mut self, start: usize, end: usize) {
        proof {
            use_type_invariant(&*self);
            assert(self.spec_ids().len() == self.model.spec_drawables().len());
        }
        *self = DynamicDrawables { model: self.model, start, end };
    }

    fn count(&self) -> (r: usize) {
        self.model.drawable_count()
    }

    fn index(&self, id: &str) -> (r: Option<usize>) {
        find_id(self.model.drawable_ids(), id)
    }

    fn get_index_unchecked(&self, index: usize) -> (r: Result<DynamicDrawable, Error>) {
        proof {
            use_type_invariant(self);
        }
        let flags = match self.model.drawable_dynamic_flags() {
            Ok(f) => f,
            Err(e) => {
                return Err(e);
            },
        };
        let opacities = match self.model.drawable_opacities() {
            Ok(o) => o,
            Err(e) => {
                return Err(e);
            },
        };
        Ok(
            DynamicDrawable {
                index,
                id: self.model.drawable_ids()[index].clone(),
                dynamic_flags: flags[index],
                draw_order: self.model.drawable_draw_orders()[index],
                render_order: self.model.drawable_render_orders()[index],
                opacity: opacities[index],
                vertex_positions: copy_of(self.model.drawable_vertex_positions()[index].as_slice()),
            },
        )
    }
}

} // verus!
