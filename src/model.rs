//! Cubism model.
use vstd::prelude::*;

use aligned_utils::bytes::AlignedBytes;

use crate::drawable::{DynamicDrawables, StaticDrawables};
use crate::error::Error;
use crate::facet::{
    check_opacities, drawables_fault, dynamic_flags_ok, id_views, opacities_ok,
    parameters_fault, parts_fault, Drawables, Parameters, Parts, RawDrawables, RawParameters,
    RawParts,
};
use crate::flags::{ConstantFlags, DynamicFlags};
use crate::ieee;
use crate::moc::{aligned_alignment, aligned_contents, Moc, ALIGN_OF_MODEL};
use crate::parameter::StaticParameters;
use crate::part::StaticParts;
use crate::ModelData;

verus! {

/// Two dimension vector, each coordinate held as its single-precision bit pattern.
#[derive(Clone, Copy, Debug)]
pub struct Vector2 {
    /// Bits of the x coordinate.
    pub x: u32,
    /// Bits of the y coordinate.
    pub y: u32,
}

impl Vector2 {
    /// Creates [`Vector2`] from the bit patterns of its coordinates.
    pub fn new(x: u32, y: u32) -> (r: Self)
        ensures
            r.x == x,
            r.y == y,
    {
        Vector2 { x, y }
    }

    /// Returns the x value of a vector.
    pub fn x(&self) -> (r: u32)
        ensures
            r == self.x,
    {
        self.x
    }

    /// Returns the y value of a vector.
    pub fn y(&self) -> (r: u32)
        ensures
            r == self.y,
    {
        self.y
    }

    /// Returns the x value and y value of a vector.
    pub fn x_y(&self) -> (r: (u32, u32))
        ensures
            r == (self.x, self.y),
    {
        (self.x, self.y)
    }
}

impl Default for Vector2 {
    fn default() -> (r: Self)
        ensures
            r.x == 0 && r.y == 0,
    {
        Vector2 { x: 0, y: 0 }
    }
}

impl PartialEq for Vector2 {
    fn eq(&self, other: &Self) -> (r: bool) {
        ieee::eq(self.x, other.x) && ieee::eq(self.y, other.y)
    }
}

impl vstd::std_specs::cmp::PartialEqSpecImpl for Vector2 {
    open spec fn obeys_eq_spec() -> bool {
        true
    }

    open spec fn eq_spec(&self, other: &Self) -> bool {
        ieee::spec_eq(self.x, other.x) && ieee::spec_eq(self.y, other.y)
    }
}

/// The parent index of a part.
///
/// A part has a parent, or it is a root.
#[derive(Clone, Copy, Debug, Eq, Hash, PartialEq, Structural)]
pub struct PartParent(pub i32);

impl PartParent {
    /// The parent index of a part when the part is a root.
    pub const ROOT: i32 = -1;

    /// The parent, or `None` for a root.
    pub open spec fn spec_parent(self) -> Option<nat> {
        if self.0 <= Self::ROOT {
            None
        } else {
            Some(self.0 as nat)
        }
    }

    /// Whether the raw value is a root or an index.
    pub open spec fn spec_is_valid(self) -> bool {
        self.0 >= Self::ROOT
    }

    /// Creates [`PartParent`].
    pub fn new(parent_index: Option<usize>) -> (r: Self)
        requires
            parent_index matches Some(i) ==> i <= i32::MAX,
        ensures
            r.spec_is_valid(),
            r.spec_parent() == match parent_index {
                Some(i) => Some(i as nat),
                None => None::<nat>,
            },
    {
        match parent_index {
            Some(i) => PartParent(i as i32),
            None => PartParent(Self::ROOT),
        }
    }

    /// Returns `true` if the raw value is a root or an index.
    pub fn is_valid(&self) -> (r: bool)
        ensures
            r == self.spec_is_valid(),
    {
        self.0 >= Self::ROOT
    }

    /// Checks if the parent index represents a root.
    pub fn is_root(&self) -> (r: bool)
        ensures
            r == (self.0 == Self::ROOT),
    {
        self.0 == Self::ROOT
    }

    /// Returns the parent index.
    ///
    /// Returns [`None`] if the parent index represents a root.
    pub fn parent(&self) -> (r: Option<usize>)
        ensures
            r matches Some(i) ==> self.spec_parent() == Some(i as nat),
            r is None ==> self.spec_parent() is None,
    {
        if self.0 <= Self::ROOT {
            None
        } else {
            Some(self.0 as usize)
        }
    }
}

impl Default for PartParent {
    fn default() -> (r: Self)
        ensures
            r.0 == Self::ROOT,
    {
        PartParent(Self::ROOT)
    }
}

/// The model canvas.
#[derive(Clone, Copy, Debug)]
pub struct Canvas {
    /// Canvas dimensions.
    pub size_in_pixels: Vector2,
    /// Origin of model on canvas.
    pub origin_in_pixels: Vector2,
    /// Bits of the aspect used for scaling pixels to units.
    pub pixels_per_unit: u32,
}

impl PartialEq for Canvas {
    fn eq(&self, other: &Self) -> (r: bool) {
        self.size_in_pixels.eq(&other.size_in_pixels) && self.origin_in_pixels.eq(
            &other.origin_in_pixels,
        ) && ieee::eq(self.pixels_per_unit, other.pixels_per_unit)
    }
}

impl vstd::std_specs::cmp::PartialEqSpecImpl for Canvas {
    open spec fn obeys_eq_spec() -> bool {
        true
    }

    open spec fn eq_spec(&self, other: &Self) -> bool {
        ieee::spec_eq(self.size_in_pixels.x, other.size_in_pixels.x) && ieee::spec_eq(
            self.size_in_pixels.y,
            other.size_in_pixels.y,
        ) && ieee::spec_eq(self.origin_in_pixels.x, other.origin_in_pixels.x) && ieee::spec_eq(
            self.origin_in_pixels.y,
            other.origin_in_pixels.y,
        ) && ieee::spec_eq(self.pixels_per_unit, other.pixels_per_unit)
    }
}

/// `i` is the position of the first identifier equal to `id`.
pub open spec fn is_first_index(ids: Seq<Seq<char>>, id: Seq<char>, i: int) -> bool {
    &&& 0 <= i < ids.len()
    &&& ids[i] == id
    &&& forall|j: int| 0 <= j < i ==> ids[j] != id
}

/// The result of looking `id` up among `ids`: the first position holding it.
pub open spec fn lookup_ok(ids: Seq<Seq<char>>, id: Seq<char>, r: Option<usize>) -> bool {
    match r {
        Some(i) => is_first_index(ids, id, i as int),
        None => forall|j: int| 0 <= j < ids.len() ==> ids[j] != id,
    }
}

/// Finds the first identifier equal to `id`.
pub fn find_id(ids: &[String], id: &str) -> (r: Option<usize>)
    ensures
        lookup_ok(id_views(ids@), id@, r),
{
    let key = id.to_owned();
    let ghost v = id_views(ids@);
    let mut i: usize = 0;
    while i < ids.len()
        invariant
            v == id_views(ids@),
            key@ == id@,
            0 <= i <= ids@.len(),
            forall|j: int| 0 <= j < i ==> v[j] != id@,
        decreases ids@.len() - i,
    {
        assert(v[i as int] == ids@[i as int]@);
        if ids[i] == key {
            return Some(i);
        }
        i += 1;
    }
    None
}

/// An instance buffer for the engine, zero-filled and aligned as it requires.
pub struct ModelBuffer {
    data: AlignedBytes,
}

/// Whether `n` bytes can be laid out at the model alignment.
pub open spec fn model_size_ok(n: nat) -> bool {
    0 < n && n + ALIGN_OF_MODEL <= isize::MAX
}

impl ModelBuffer {
    /// The buffer is aligned for the engine and not empty.
    pub closed spec fn wf(&self) -> bool {
        &&& aligned_alignment(self.data) == ALIGN_OF_MODEL
        &&& model_size_ok(aligned_contents(self.data).len())
    }

    /// The bytes held.
    pub closed spec fn contents(&self) -> Seq<u8> {
        aligned_contents(self.data)
    }

    /// The bytes, for the engine to read.
    pub fn as_slice(&self) -> (r: &[u8])
        ensures
            r@ == self.contents(),
    {
        &self.data
    }

    /// The bytes, for the engine to read and write.
    pub fn as_mut_slice(&mut self) -> (r: &mut [u8])
        ensures
            r@ == old(self).contents(),
            final(r)@ == final(self).contents(),
            final(self).wf() == old(self).wf(),
    {
        &mut self.data
    }
}

/// Allocates the instance buffer of the size the engine asked for; a size of
/// zero, or one too large to lay out, means the engine could not size it.
pub fn init_model(size: u32) -> (r: Result<ModelBuffer, Error>)
    ensures
        !model_size_ok(size as nat) ==> r matches Err(Error::InitializeModelError),
        model_size_ok(size as nat) ==> (r matches Ok(b) && b.wf() && b.contents() == Seq::new(
            size as nat,
            |i: int| 0u8,
        )),
{
    if size == 0 || size as usize > (isize::MAX as usize) - ALIGN_OF_MODEL {
        return Err(Error::InitializeModelError);
    }
    proof {
        crate::moc::lemma_alignments_are_powers_of_two();
    }
    let data = AlignedBytes::new_zeroed(size as usize, ALIGN_OF_MODEL);
    Ok(ModelBuffer { data })
}

/// What the engine reported for a freshly initialised model.
pub struct RawModel {
    /// The parameters.
    pub parameters: RawParameters,
    /// The parts.
    pub parts: RawParts,
    /// The drawables.
    pub drawables: RawDrawables,
}

/// The first fault in creating a model, if any: the engine's initialisation
/// failed, or one of the domains is malformed.
pub open spec fn model_fault(initialized: bool, raw: RawModel) -> Option<Error> {
    if !initialized {
        Some(Error::InitializeModelError)
    } else if parameters_fault(raw.parameters) is Some {
        parameters_fault(raw.parameters)
    } else if parts_fault(raw.parts) is Some {
        parts_fault(raw.parts)
    } else {
        drawables_fault(raw.drawables)
    }
}

/// What the engine's update pass leaves in the dynamic drawable arrays.
pub struct DrawableUpdate {
    /// The dynamic flags.
    pub dynamic_flags: Vec<DynamicFlags>,
    /// The draw orders.
    pub draw_orders: Vec<i32>,
    /// The render orders.
    pub render_orders: Vec<i32>,
    /// The opacities, as single-precision bit patterns.
    pub opacities: Vec<u32>,
    /// The vertex positions of each drawable.
    pub vertex_positions: Vec<Vec<Vector2>>,
}

/// Cubism model.
pub struct Model {
    moc: Moc,
    model: ModelBuffer,
    parameters: Parameters,
    parts: Parts,
    drawables: Drawables,
}

impl Model {
    /// The instance buffer and the three facets are well formed.
    pub open spec fn wf(&self) -> bool {
        &&& self.spec_buffer_wf()
        &&& self.spec_parameters().wf()
        &&& self.spec_parts().wf()
        &&& self.spec_drawables().wf()
        &&& self.spec_parameters().len() <= i32::MAX
        &&& self.spec_parts().len() <= i32::MAX
        &&& self.spec_drawables().len() <= i32::MAX
    }

    /// The instance buffer is aligned for the engine and not empty.
    pub closed spec fn spec_buffer_wf(&self) -> bool {
        self.model.wf()
    }

    /// The moc the model was made from.
    pub closed spec fn spec_moc(&self) -> Moc {
        self.moc
    }

    /// The parameters.
    pub closed spec fn spec_parameters(&self) -> Parameters {
        self.parameters
    }

    /// The parts.
    pub closed spec fn spec_parts(&self) -> Parts {
        self.parts
    }

    /// The drawables.
    pub closed spec fn spec_drawables(&self) -> Drawables {
        self.drawables
    }

    /// The instance buffer's bytes.
    pub closed spec fn spec_buffer(&self) -> Seq<u8> {
        self.model.contents()
    }

    /// Creates [`Model`] from its moc, the instance buffer the engine
    /// initialised, whether that initialisation succeeded, and what the engine
    /// then reported for the three domains.
    pub fn new(moc: Moc, model: ModelBuffer, initialized: bool, raw: RawModel) -> (r: Result<
        Self,
        Error,
    >)
        requires
            model.wf(),
        ensures
            r is Ok <==> model_fault(initialized, raw) is None,
            r matches Err(e) ==> model_fault(initialized, raw) == Some(e),
            r matches Ok(m) ==> {
                &&& m.wf()
                &&& m.spec_moc() == moc
                &&& m.spec_buffer() == model.contents()
                &&& m.spec_parameters().built_from(raw.parameters)
                &&& m.spec_parts().built_from(raw.parts)
                &&& m.spec_drawables().built_from(raw.drawables)
            },
    {
        if !initialized {
            return Err(Error::InitializeModelError);
        }
        let RawModel { parameters, parts, drawables } = raw;
        let parameters = match Parameters::new(parameters) {
            Ok(p) => p,
            Err(e) => {
                return Err(e);
            },
        };
        let parts = match Parts::new(parts) {
            Ok(p) => p,
            Err(e) => {
                return Err(e);
            },
        };
        let drawables = match Drawables::new(drawables) {
            Ok(d) => d,
            Err(e) => {
                return Err(e);
            },
        };
        Ok(Model { moc, model, parameters, parts, drawables })
    }

    /// Gets the model's [`Moc`].
    pub fn moc(&self) -> (r: Moc)
        ensures
            r.spec_version() == self.spec_moc().spec_version(),
            r.spec_latest() == self.spec_moc().spec_latest(),
            r.spec_bytes() == self.spec_moc().spec_bytes(),
    {
        self.moc.clone()
    }

    /// The instance buffer, for the engine to read.
    pub fn as_model_bytes(&self) -> (r: &[u8])
        requires
            self.wf(),
        ensures
            r@ == self.spec_buffer(),
    {
        self.model.as_slice()
    }

    /// The instance buffer, for the engine to read and write.
    ///
    /// After the engine has written to it, [`update`](Self::update) takes in
    /// what it computed.
    pub fn as_model_bytes_mut(&mut self) -> (r: &mut [u8])
        requires
            old(self).wf(),
        ensures
            r@ == old(self).spec_buffer(),
            final(r)@ == final(self).spec_buffer(),
            final(self).wf(),
            final(self).spec_moc() == old(self).spec_moc(),
            final(self).spec_parameters() == old(self).spec_parameters(),
            final(self).spec_parts() == old(self).spec_parts(),
            final(self).spec_drawables() == old(self).spec_drawables(),
    {
        self.model.as_mut_slice()
    }

    /// Takes in what the engine's update pass computed for the drawables.
    ///
    /// It should be called after the engine updated the model, which it
    /// should be asked to do after setting the parameter values or the part
    /// opacities. Arrays that do not match the drawables in length are refused.
    pub fn update(&mut self, state: DrawableUpdate) -> (r: Result<(), Error>)
        requires
            old(self).wf(),
        ensures
            final(self).wf(),
            final(self).spec_moc() == old(self).spec_moc(),
            final(self).spec_buffer() == old(self).spec_buffer(),
            final(self).spec_parameters() == old(self).spec_parameters(),
            final(self).spec_parts() == old(self).spec_parts(),
            update_fits(old(self).spec_drawables(), state) ==> r is Ok
                && final(self).spec_drawables() == old(self).spec_drawables().with_update(state),
            !update_fits(old(self).spec_drawables(), state) ==> r is Err
                && final(self).spec_drawables() == old(self).spec_drawables(),
    {
        let n = self.drawables.ids.len();
        if state.dynamic_flags.len() != n {
            return Err(Error::SliceLengthNotEqual(n, state.dynamic_flags.len()));
        }
        if state.draw_orders.len() != n {
            return Err(Error::SliceLengthNotEqual(n, state.draw_orders.len()));
        }
        if state.render_orders.len() != n {
            return Err(Error::SliceLengthNotEqual(n, state.render_orders.len()));
        }
        if state.opacities.len() != n {
            return Err(Error::SliceLengthNotEqual(n, state.opacities.len()));
        }
        if state.vertex_positions.len() != n {
            return Err(Error::SliceLengthNotEqual(n, state.vertex_positions.len()));
        }
        if let Some((expected, got)) = vertex_count_mismatch(&self.drawables, &state.vertex_positions) {
            return Err(Error::SliceLengthNotEqual(expected, got));
        }
        let DrawableUpdate {
            dynamic_flags,
            draw_orders,
            render_orders,
            opacities,
            vertex_positions,
        } = state;
        self.drawables.dynamic_flags = dynamic_flags;
        self.drawables.draw_orders = draw_orders;
        self.drawables.render_orders = render_orders;
        self.drawables.opacities = opacities;
        self.drawables.vertex_positions = vertex_positions;
        Ok(())
    }
}

impl Model {
    /// Returns the count of parameters.
    pub fn parameter_count(&self) -> (r: usize)
        ensures
            r == self.spec_parameters().len(),
    {
        self.parameters.ids.len()
    }

    /// Returns all IDs of parameters.
    pub fn parameter_ids(&self) -> (r: &[String])
        ensures
            r@ == self.spec_parameters().ids@,
    {
        self.parameters.ids.as_slice()
    }

    /// Returns the index of the first parameter with this ID, or [`None`] if
    /// no parameter has it.
    pub fn parameter_index(&self, id: &str) -> (r: Option<usize>)
        ensures
            lookup_ok(id_views(self.spec_parameters().ids@), id@, r),
    {
        find_id(self.parameters.ids.as_slice(), id)
    }

    /// Returns the minimal values of parameters.
    pub fn parameter_min_values(&self) -> (r: &[u32])
        ensures
            r@ == self.spec_parameters().min_values@,
    {
        self.parameters.min_values.as_slice()
    }

    /// Returns the maximal values of parameters.
    pub fn parameter_max_values(&self) -> (r: &[u32])
        ensures
            r@ == self.spec_parameters().max_values@,
    {
        self.parameters.max_values.as_slice()
    }

    /// Returns the default values of parameters.
    pub fn parameter_default_values(&self) -> (r: &[u32])
        ensures
            r@ == self.spec_parameters().default_values@,
    {
        self.parameters.default_values.as_slice()
    }

    /// Returns the values of parameters.
    pub fn parameter_values(&self) -> (r: &[u32])
        ensures
            r@ == self.spec_parameters().values@,
    {
        self.parameters.values.as_slice()
    }

    /// Sets the values of parameters; there must be one for each parameter.
    pub fn set_parameter_values(&mut self, values: &[u32])
        requires
            old(self).wf(),
            values@.len() == old(self).spec_parameters().len(),
        ensures
            final(self).wf(),
            final(self).spec_parameters() == (Parameters {
                values: final(self).spec_parameters().values,
                ..old(self).spec_parameters()
            }),
            final(self).spec_parameters().values@ == values@,
            final(self).spec_moc() == old(self).spec_moc(),
            final(self).spec_buffer() == old(self).spec_buffer(),
            final(self).spec_parts() == old(self).spec_parts(),
            final(self).spec_drawables() == old(self).spec_drawables(),
    {
        copy_into(&mut self.parameters.values, values);
    }

    /// Sets the value of the first parameter with this ID, which must exist,
    /// and returns its previous value.
    pub fn set_parameter_value(&mut self, id: &str, value: u32) -> (r: u32)
        requires
            old(self).wf(),
            id_views(old(self).spec_parameters().ids@).contains(id@),
        ensures
            final(self).wf(),
            exists|i: int|
                is_first_index(id_views(old(self).spec_parameters().ids@), id@, i) && r == old(
                    self,
                ).spec_parameters().values@[i] && final(self).spec_parameters().values@ == old(
                    self,
                ).spec_parameters().values@.update(i, value),
            final(self).spec_parameters() == (Parameters {
                values: final(self).spec_parameters().values,
                ..old(self).spec_parameters()
            }),
            final(self).spec_moc() == old(self).spec_moc(),
            final(self).spec_buffer() == old(self).spec_buffer(),
            final(self).spec_parts() == old(self).spec_parts(),
            final(self).spec_drawables() == old(self).spec_drawables(),
    {
        let index = find_id(self.parameters.ids.as_slice(), id);
        proof {
            if index is None {
                let k = choose|k: int|
                    0 <= k < id_views(self.parameters.ids@).len() && id_views(
                        self.parameters.ids@,
                    )[k] == id@;
            }
        }
        self.set_parameter_value_index_unchecked(index.unwrap(), value)
    }

    /// Sets the value of the parameter at `index`, which must be in bounds,
    /// and returns its previous value.
    pub fn set_parameter_value_index(&mut self, index: usize, value: u32) -> (r: u32)
        requires
            old(self).wf(),
            index < old(self).spec_parameters().len(),
        ensures
            final(self).wf(),
            r == old(self).spec_parameters().values@[index as int],
            final(self).spec_parameters().values@ == old(self).spec_parameters().values@.update(
                index as int,
                value,
            ),
            final(self).spec_parameters() == (Parameters {
                values: final(self).spec_parameters().values,
                ..old(self).spec_parameters()
            }),
            final(self).spec_moc() == old(self).spec_moc(),
            final(self).spec_buffer() == old(self).spec_buffer(),
            final(self).spec_parts() == old(self).spec_parts(),
            final(self).spec_drawables() == old(self).spec_drawables(),
    {
        self.set_parameter_value_index_unchecked(index, value)
    }

    /// Sets the value of the parameter at `index`, which the caller keeps in
    /// bounds, and returns its previous value.
    pub fn set_parameter_value_index_unchecked(&mut self, index: usize, value: u32) -> (r: u32)
        requires
            old(self).wf(),
            index < old(self).spec_parameters().len(),
        ensures
            final(self).wf(),
            r == old(self).spec_parameters().values@[index as int],
            final(self).spec_parameters().values@ == old(self).spec_parameters().values@.update(
                index as int,
                value,
            ),
            final(self).spec_parameters() == (Parameters {
                values: final(self).spec_parameters().values,
                ..old(self).spec_parameters()
            }),
            final(self).spec_moc() == old(self).spec_moc(),
            final(self).spec_buffer() == old(self).spec_buffer(),
            final(self).spec_parts() == old(self).spec_parts(),
            final(self).spec_drawables() == old(self).spec_drawables(),
    {
        let previous = self.parameters.values[index];
        self.parameters.values.set(index, value);
        previous
    }

    /// Returns the key values of parameters.
    pub fn parameter_key_values(&self) -> (r: &[Vec<u32>])
        ensures
            r@ == self.spec_parameters().key_values@,
    {
        self.parameters.key_values.as_slice()
    }

    /// Returns static parameters.
    pub fn static_parameters(&self) -> (r: StaticParameters<'_>)
        requires
            self.wf(),
        ensures
            r.spec_model() == self,
            r.spec_range() == (0nat, self.spec_parameters().len()),
    {
        StaticParameters::new(self)
    }

    /// Returns the count of parts.
    pub fn part_count(&self) -> (r: usize)
        ensures
            r == self.spec_parts().len(),
    {
        self.parts.ids.len()
    }

    /// Returns all IDs of parts.
    pub fn part_ids(&self) -> (r: &[String])
        ensures
            r@ == self.spec_parts().ids@,
    {
        self.parts.ids.as_slice()
    }

    /// Returns the index of the first part with this ID, or [`None`] if no
    /// part has it.
    pub fn part_index(&self, id: &str) -> (r: Option<usize>)
        ensures
            lookup_ok(id_views(self.spec_parts().ids@), id@, r),
    {
        find_id(self.parts.ids.as_slice(), id)
    }

    /// Returns the opacities of parts.
    pub fn part_opacities(&self) -> (r: &[u32])
        ensures
            r@ == self.spec_parts().opacities@,
    {
        self.parts.opacities.as_slice()
    }

    /// Sets the opacities of parts; there must be one for each part.
    pub fn set_part_opacities(&mut self, opacities: &[u32])
        requires
            old(self).wf(),
            opacities@.len() == old(self).spec_parts().len(),
        ensures
            final(self).wf(),
            final(self).spec_parts() == (Parts {
                opacities: final(self).spec_parts().opacities,
                ..old(self).spec_parts()
            }),
            final(self).spec_parts().opacities@ == opacities@,
            final(self).spec_moc() == old(self).spec_moc(),
            final(self).spec_buffer() == old(self).spec_buffer(),
            final(self).spec_parameters() == old(self).spec_parameters(),
            final(self).spec_drawables() == old(self).spec_drawables(),
    {
        copy_into(&mut self.parts.opacities, opacities);
    }

    /// Sets the opacity of the first part with this ID, which must exist, and
    /// returns its previous opacity.
    pub fn set_part_opacity(&mut self, id: &str, opacity: u32) -> (r: u32)
        requires
            old(self).wf(),
            id_views(old(self).spec_parts().ids@).contains(id@),
        ensures
            final(self).wf(),
            exists|i: int|
                is_first_index(id_views(old(self).spec_parts().ids@), id@, i) && r == old(
                    self,
                ).spec_parts().opacities@[i] && final(self).spec_parts().opacities@ == old(
                    self,
                ).spec_parts().opacities@.update(i, opacity),
            final(self).spec_parts() == (Parts {
                opacities: final(self).spec_parts().opacities,
                ..old(self).spec_parts()
            }),
            final(self).spec_moc() == old(self).spec_moc(),
            final(self).spec_buffer() == old(self).spec_buffer(),
            final(self).spec_parameters() == old(self).spec_parameters(),
            final(self).spec_drawables() == old(self).spec_drawables(),
    {
        let index = find_id(self.parts.ids.as_slice(), id);
        proof {
            if index is None {
                let k = choose|k: int|
                    0 <= k < id_views(self.parts.ids@).len() && id_views(self.parts.ids@)[k]
                        == id@;
            }
        }
        self.set_part_opacity_index_unchecked(index.unwrap(), opacity)
    }

    /// Sets the opacity of the part at `index`, which must be in bounds, and
    /// returns its previous opacity.
    pub fn set_part_opacity_index(&mut self, index: usize, opacity: u32) -> (r: u32)
        requires
            old(self).wf(),
            index < old(self).spec_parts().len(),
        ensures
            final(self).wf(),
            r == old(self).spec_parts().opacities@[index as int],
            final(self).spec_parts().opacities@ == old(self).spec_parts().opacities@.update(
                index as int,
                opacity,
            ),
            final(self).spec_parts() == (Parts {
                opacities: final(self).spec_parts().opacities,
                ..old(self).spec_parts()
            }),
            final(self).spec_moc() == old(self).spec_moc(),
            final(self).spec_buffer() == old(self).spec_buffer(),
            final(self).spec_parameters() == old(self).spec_parameters(),
            final(self).spec_drawables() == old(self).spec_drawables(),
    {
        self.set_part_opacity_index_unchecked(index, opacity)
    }

    /// Sets the opacity of the part at `index`, which the caller keeps in
    /// bounds, and returns its previous opacity.
    pub fn set_part_opacity_index_unchecked(&mut self, index: usize, opacity: u32) -> (r: u32)
        requires
            old(self).wf(),
            index < old(self).spec_parts().len(),
        ensures
            final(self).wf(),
            r == old(self).spec_parts().opacities@[index as int],
            final(self).spec_parts().opacities@ == old(self).spec_parts().opacities@.update(
                index as int,
                opacity,
            ),
            final(self).spec_parts() == (Parts {
                opacities: final(self).spec_parts().opacities,
                ..old(self).spec_parts()
            }),
            final(self).spec_moc() == old(self).spec_moc(),
            final(self).spec_buffer() == old(self).spec_buffer(),
            final(self).spec_parameters() == old(self).spec_parameters(),
            final(self).spec_drawables() == old(self).spec_drawables(),
    {
        let previous = self.parts.opacities[index];
        self.parts.opacities.set(index, opacity);
        previous
    }

    /// Returns the parent index of each part.
    pub fn part_parent(&self) -> (r: &[PartParent])
        ensures
            r@ == self.spec_parts().parent_indices@,
    {
        self.parts.parent_indices.as_slice()
    }

    /// Returns static parts.
    pub fn static_parts(&self) -> (r: StaticParts<'_>)
        requires
            self.wf(),
        ensures
            r.spec_model() == self,
            r.spec_range() == (0nat, self.spec_parts().len()),
    {
        StaticParts::new(self)
    }

    /// Returns the count of drawables.
    pub fn drawable_count(&self) -> (r: usize)
        ensures
            r == self.spec_drawables().len(),
    {
        self.drawables.ids.len()
    }

    /// Returns all IDs of drawables.
    pub fn drawable_ids(&self) -> (r: &[String])
        ensures
            r@ == self.spec_drawables().ids@,
    {
        self.drawables.ids.as_slice()
    }

    /// Returns the index of the first drawable with this ID, or [`None`] if
    /// no drawable has it.
    pub fn drawable_index(&self, id: &str) -> (r: Option<usize>)
        ensures
            lookup_ok(id_views(self.spec_drawables().ids@), id@, r),
    {
        find_id(self.drawables.ids.as_slice(), id)
    }

    /// Returns the constant flags of drawables.
    pub fn drawable_constant_flags(&self) -> (r: &[ConstantFlags])
        ensures
            r@ == self.spec_drawables().constant_flags@,
    {
        self.drawables.constant_flags.as_slice()
    }

    /// Returns the dynamic flags of drawables, checked anew since each update
    /// may change them: an undefined bit fails with the first such byte.
    pub fn drawable_dynamic_flags(&self) -> (r: Result<&[DynamicFlags], Error>)
        ensures
            dynamic_flags_ok(self.spec_drawables().dynamic_flags@) ==> (r matches Ok(v) && v@
                == self.spec_drawables().dynamic_flags@),
            !dynamic_flags_ok(self.spec_drawables().dynamic_flags@) ==> (r matches Err(
                Error::InvalidFlags(kind, bits),
            ) && kind == "dynamic" && exists|i: int|
                first_invalid_flag(self.spec_drawables().dynamic_flags@, i)
                    && self.spec_drawables().dynamic_flags@[i].bits == bits),
    {
        let v = &self.drawables.dynamic_flags;
        let mut i: usize = 0;
        while i < v.len()
            invariant
                v@ == self.spec_drawables().dynamic_flags@,
                0 <= i <= v@.len(),
                forall|j: int| 0 <= j < i ==> (#[trigger] v@[j]).spec_is_valid(),
            decreases v@.len() - i,
        {
            if !v[i].is_valid() {
                assert(first_invalid_flag(v@, i as int));
                return Err(Error::InvalidFlags("dynamic", v[i].bits()));
            }
            i += 1;
        }
        Ok(v.as_slice())
    }

    /// Returns the texture indices of drawables.
    pub fn drawable_texture_indices(&self) -> (r: &[u32])
        ensures
            r@ == self.spec_drawables().texture_indices@,
    {
        self.drawables.texture_indices.as_slice()
    }

    /// Returns the draw orders of drawables, as of the last update.
    pub fn drawable_draw_orders(&self) -> (r: &[i32])
        ensures
            r@ == self.spec_drawables().draw_orders@,
    {
        self.drawables.draw_orders.as_slice()
    }

    /// Returns the render orders of drawables, as of the last update.
    pub fn drawable_render_orders(&self) -> (r: &[i32])
        ensures
            r@ == self.spec_drawables().render_orders@,
    {
        self.drawables.render_orders.as_slice()
    }

    /// Returns the opacities of drawables, checked anew since each update may
    /// change them.
    pub fn drawable_opacities(&self) -> (r: Result<&[u32], Error>)
        ensures
            opacities_ok(self.spec_drawables().opacities@) ==> (r matches Ok(v) && v@
                == self.spec_drawables().opacities@),
            !opacities_ok(self.spec_drawables().opacities@) ==> (r matches Err(
                Error::GetDataError(what),
            ) && what == "drawable opacities"),
    {
        if check_opacities(&self.drawables.opacities) {
            Ok(self.drawables.opacities.as_slice())
        } else {
            Err(Error::GetDataError("drawable opacities"))
        }
    }

    /// Returns the masks of drawables.
    pub fn drawable_masks(&self) -> (r: &[Vec<u32>])
        ensures
            r@ == self.spec_drawables().masks@,
    {
        self.drawables.masks.as_slice()
    }

    /// Returns the vertex positions of drawables, as of the last update.
    pub fn drawable_vertex_positions(&self) -> (r: &[Vec<Vector2>])
        ensures
            r@ == self.spec_drawables().vertex_positions@,
    {
        self.drawables.vertex_positions.as_slice()
    }

    /// Returns the vertex uvs of drawables.
    pub fn drawable_vertex_uvs(&self) -> (r: &[Vec<Vector2>])
        ensures
            r@ == self.spec_drawables().vertex_uvs@,
    {
        self.drawables.vertex_uvs.as_slice()
    }

    /// Returns static drawables.
    pub fn static_drawables(&self) -> (r: StaticDrawables<'_>)
        requires
            self.wf(),
        ensures
            r.spec_model() == self,
            r.spec_range() == (0nat, self.spec_drawables().len()),
    {
        StaticDrawables::new(self)
    }

    /// Returns dynamic drawables, as of the last update.
    pub fn dynamic_drawables(&self) -> (r: DynamicDrawables<'_>)
        requires
            self.wf(),
        ensures
            r.spec_model() == self,
            r.spec_range() == (0nat, self.spec_drawables().len()),
    {
        DynamicDrawables::new(self)
    }

    /// Returns the triangle indices of drawables.
    pub fn drawable_indices(&self) -> (r: &[Vec<u16>])
        ensures
            r@ == self.spec_drawables().indices@,
    {
        self.drawables.indices.as_slice()
    }
}

/// `i` is the position of the first flag byte that sets an undefined bit.
pub open spec fn first_invalid_flag(v: Seq<DynamicFlags>, i: int) -> bool {
    &&& 0 <= i < v.len()
    &&& !v[i].spec_is_valid()
    &&& forall|j: int| 0 <= j < i ==> v[j].spec_is_valid()
}

/// Copies a slice of plain values.
pub fn copy_of<T: Copy>(s: &[T]) -> (r: Vec<T>)
    ensures
        r@ == s@,
{
    let mut r: Vec<T> = Vec::new();
    let mut i: usize = 0;
    while i < s.len()
        invariant
            0 <= i <= s@.len(),
            r@ == s@.subrange(0, i as int),
        decreases s@.len() - i,
    {
        r.push(s[i]);
        i += 1;
        assert(r@ =~= s@.subrange(0, i as int));
    }
    assert(r@ =~= s@);
    r
}

/// Overwrites `dst` with `src`, which has the same length.
fn copy_into(dst: &mut Vec<u32>, src: &[u32])
    requires
        old(dst)@.len() == src@.len(),
    ensures
        final(dst)@ == src@,
{
    let mut i: usize = 0;
    while i < src.len()
        invariant
            dst@.len() == src@.len(),
            0 <= i <= src@.len(),
            forall|j: int| 0 <= j < i ==> dst@[j] == src@[j],
        decreases src@.len() - i,
    {
        dst.set(i, src[i]);
        i += 1;
    }
    assert(dst@ =~= src@);
}

/// The first drawable whose new vertex positions differ in number from its
/// vertices, with the two lengths.
fn vertex_count_mismatch(d: &Drawables, positions: &Vec<Vec<Vector2>>) -> (r: Option<(usize, usize)>)
    requires
        d.wf(),
        positions@.len() == d.len(),
    ensures
        r is None <==> forall|i: int|
            0 <= i < d.len() ==> (#[trigger] positions@[i])@.len() == d.vertex_uvs@[i]@.len(),
{
    let n = d.ids.len();
    let mut i: usize = 0;
    while i < n
        invariant
            n == d.len(),
            d.wf(),
            positions@.len() == n,
            0 <= i <= n,
            forall|j: int|
                0 <= j < i ==> (#[trigger] positions@[j])@.len() == d.vertex_uvs@[j]@.len(),
        decreases n - i,
    {
        let expected = d.vertex_uvs[i].len();
        let got = positions[i].len();
        if expected != got {
            return Some((expected, got));
        }
        i += 1;
    }
    None
}

/// The arrays of an update match the drawables in length.
pub open spec fn update_fits(d: Drawables, state: DrawableUpdate) -> bool {
    let n = d.len();
    &&& state.dynamic_flags@.len() == n
    &&& state.draw_orders@.len() == n
    &&& state.render_orders@.len() == n
    &&& state.opacities@.len() == n
    &&& state.vertex_positions@.len() == n
    &&& forall|i: int|
        0 <= i < n ==> (#[trigger] state.vertex_positions@[i])@.len() == d.vertex_uvs@[i]@.len()
}

impl Drawables {
    /// The drawables with the dynamic arrays of an update in place.
    pub open spec fn with_update(self, state: DrawableUpdate) -> Drawables {
        Drawables {
            dynamic_flags: state.dynamic_flags,
            draw_orders: state.draw_orders,
            render_orders: state.render_orders,
            opacities: state.opacities,
            vertex_positions: state.vertex_positions,
            ..self
        }
    }
}

/// Setting the value of the parameter at `index` and reading the values back
/// gives that value exactly, unclamped, and every other value unchanged.
pub proof fn lemma_parameter_round_trip(before: Model, after: Model, index: int, value: u32)
    requires
        before.wf(),
        0 <= index < before.spec_parameters().len(),
        after.spec_parameters().values@ == before.spec_parameters().values@.update(index, value),
    ensures
        after.spec_parameters().values@[index] == value,
        after.spec_parameters().values@.len() == before.spec_parameters().values@.len(),
        forall|j: int|
            0 <= j < before.spec_parameters().len() && j != index ==> after.spec_parameters().values@[j]
                == before.spec_parameters().values@[j],
{
}

/// Taking in the same engine output a second time leaves the drawables as the
/// first time did: the dynamic facet depends on that output alone.
pub proof fn lemma_update_idempotent(d: Drawables, state: DrawableUpdate)
    ensures
        d.with_update(state).with_update(state) == d.with_update(state),
        d.wf() && update_fits(d, state) ==> d.with_update(state).wf(),
{
}

} // verus!
