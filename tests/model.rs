use cubism_core::drawable::StaticDrawable;
use cubism_core::facet::{slice_len, RawDrawables, RawParameters, RawParts};
use cubism_core::model::{init_model, DrawableUpdate, RawModel};
use cubism_core::{
    ConstantFlags, DynamicFlags, Error, Model, ModelData, Moc, MocBuffer, PartParent, Vector2,
};

const EPSILON: f32 = 0.0001;

fn bits(v: &[f32]) -> Vec<u32> {
    v.iter().map(|x| x.to_bits()).collect()
}

fn ids(names: &[&str]) -> Option<Vec<Option<String>>> {
    Some(names.iter().map(|s| Some(s.to_string())).collect())
}

fn test_moc() -> Moc {
    Moc::new(MocBuffer::new(&[0u8; 64]).ok().unwrap(), 3, 3, true).ok().unwrap()
}

fn raw_parameters(names: &[&str], ranges: &[(f32, f32)]) -> RawParameters {
    let n = names.len();
    let min: Vec<f32> = ranges.iter().map(|r| r.0).collect();
    let max: Vec<f32> = ranges.iter().map(|r| r.1).collect();
    RawParameters {
        count: n as i32,
        ids: ids(names),
        min_values: Some(bits(&min)),
        max_values: Some(bits(&max)),
        default_values: Some(bits(&min)),
        values: Some(bits(&min)),
        key_counts: Some(vec![2; n]),
        key_values: Some(ranges.iter().map(|r| Some(bits(&[r.0, r.1]))).collect()),
        lower_bounds: Some(min.iter().map(|m| (m - EPSILON).to_bits()).collect()),
        upper_bounds: Some(max.iter().map(|m| (m + EPSILON).to_bits()).collect()),
    }
}

fn raw_parts(names: &[&str]) -> RawParts {
    let n = names.len();
    RawParts {
        count: n as i32,
        ids: ids(names),
        opacities: Some(bits(&vec![1.0; n])),
        parent_indices: Some((0..n).map(|i| PartParent(i as i32 - 1)).collect()),
    }
}

fn triangle() -> Vec<Vector2> {
    vec![
        Vector2::new(0.0f32.to_bits(), 0.0f32.to_bits()),
        Vector2::new(1.0f32.to_bits(), 0.0f32.to_bits()),
        Vector2::new(0.0f32.to_bits(), 1.0f32.to_bits()),
    ]
}

fn raw_drawables(names: &[&str]) -> RawDrawables {
    let n = names.len();
    RawDrawables {
        count: n as i32,
        ids: ids(names),
        constant_flags: Some(vec![ConstantFlags::from_bits_retain(ConstantFlags::IS_DOUBLE_SIDED); n]),
        dynamic_flags: Some(vec![DynamicFlags::from_bits_retain(DynamicFlags::IS_VISIBLE); n]),
        texture_indices: Some(vec![0; n]),
        draw_orders: Some((0..n as i32).collect()),
        render_orders: Some((0..n as i32).collect()),
        opacities: Some(bits(&vec![1.0; n])),
        mask_counts: Some(vec![1; n]),
        masks: Some((0..n).map(|i| Some(vec![((i + 1) % n) as u32])).collect()),
        vertex_counts: Some(vec![3; n]),
        vertex_positions: Some(vec![Some(triangle()); n]),
        vertex_uvs: Some(vec![Some(triangle()); n]),
        index_counts: Some(vec![3; n]),
        indices: Some(vec![Some(vec![0, 1, 2]); n]),
    }
}

fn raw_model() -> RawModel {
    RawModel {
        parameters: raw_parameters(&["A", "B", "C"], &[(0.0, 1.0), (-1.0, 1.0), (0.0, 10.0)]),
        parts: raw_parts(&["Body", "Arm"]),
        drawables: raw_drawables(&["D0", "D1"]),
    }
}

fn build(raw: RawModel) -> Result<Model, Error> {
    Model::new(test_moc(), init_model(64).ok().unwrap(), true, raw)
}

fn frame(model: &Model) -> DrawableUpdate {
    let n = model.drawable_count();
    DrawableUpdate {
        dynamic_flags: vec![DynamicFlags::from_bits_retain(DynamicFlags::IS_VISIBLE); n],
        draw_orders: (0..n as i32).rev().collect(),
        render_orders: (0..n as i32).rev().collect(),
        opacities: bits(&vec![0.5; n]),
        vertex_positions: vec![triangle(); n],
    }
}

fn expect_error(raw: RawModel) -> Error {
    match build(raw) {
        Ok(_) => panic!("model accepted"),
        Err(e) => e,
    }
}

#[test]
fn scenario_three_parameters() {
    let mut model = build(raw_model()).ok().unwrap();
    assert_eq!(model.parameter_count(), 3);
    assert_eq!(model.parameter_index("B"), Some(1));
    model.set_parameter_value("B", 0.5f32.to_bits());
    let state = frame(&model);
    assert!(model.update(state).is_ok());
    assert_eq!(f32::from_bits(model.parameter_values()[1]), 0.5);
}

#[test]
fn scenario_triangle_index_count_not_multiple_of_three() {
    let mut raw = raw_model();
    raw.drawables.index_counts = Some(vec![3, 4]);
    raw.drawables.indices = Some(vec![Some(vec![0, 1, 2]), Some(vec![0, 1, 2, 0])]);
    assert!(matches!(expect_error(raw), Error::InvalidCount("drawable indices")));
}

#[test]
fn negative_index_count_and_missing_indices() {
    let mut raw = raw_model();
    raw.drawables.index_counts = Some(vec![-3, 3]);
    assert!(matches!(expect_error(raw), Error::InvalidCount("drawable indices")));
    let mut raw = raw_model();
    raw.drawables.indices = Some(vec![Some(vec![0, 1, 2]), None]);
    assert!(matches!(expect_error(raw), Error::GetDataError("drawable indices")));
    let mut raw = raw_model();
    raw.drawables.indices = Some(vec![None, Some(vec![0, 1])]);
    raw.drawables.index_counts = Some(vec![3, 2]);
    assert!(matches!(expect_error(raw), Error::GetDataError("drawable indices")));
}

#[test]
fn static_parameters_checked_access() {
    let model = build(raw_model()).ok().unwrap();
    let params = model.static_parameters();
    assert_eq!(params.count(), 3);
    for i in 0..params.count() {
        let p = params.get_index(i).unwrap();
        assert_eq!(p.index, i);
    }
    assert!(params.get_index(params.count()).is_none());
    let b = params.get("B");
    assert_eq!(b.id, "B");
    assert_eq!(f32::from_bits(b.min_value), -1.0);
    assert_eq!(f32::from_bits(b.max_value), 1.0);
    assert_eq!(b.key_values, bits(&[-1.0, 1.0]));
}

#[test]
fn collections_iterate_both_ways() {
    let model = build(raw_model()).ok().unwrap();
    let mut params = model.static_parameters();
    assert_eq!(params.len(), 3);
    assert_eq!(params.next().unwrap().id, "A");
    assert_eq!(params.next_back().unwrap().id, "C");
    assert_eq!(params.len(), 1);
    let rest = params.get_all();
    assert_eq!(rest.len(), 1);
    assert_eq!(rest[0].id, "B");
    let all: Vec<String> = model.static_parameters().get_all().into_iter().map(|p| p.id).collect();
    assert_eq!(all, vec!["A", "B", "C"]);
    let mut parts = model.static_parts();
    assert_eq!(parts.next_back().unwrap().parent, PartParent(0));
    assert!(parts.next().unwrap().parent.is_root());
    assert!(parts.next().is_none());
    assert!(parts.next_back().is_none());
}

#[test]
fn static_drawable_records() {
    let model = build(raw_model()).ok().unwrap();
    let drawables = model.static_drawables();
    assert_eq!(drawables.index("D1"), Some(1));
    assert_eq!(drawables.index("X"), None);
    let d: StaticDrawable = drawables.get("D1");
    assert_eq!(d.index, 1);
    assert_eq!(d.masks, vec![0]);
    assert_eq!(d.indices, vec![0, 1, 2]);
    assert_eq!(d.texture_index, 0);
    assert!(d.constant_flags.contains(ConstantFlags::IS_DOUBLE_SIDED));
    assert!(d.vertex_uvs == triangle());
    assert_eq!(model.static_drawables().get_all().len(), 2);
}

#[test]
fn set_parameter_round_trip() {
    let mut model = build(raw_model()).ok().unwrap();
    let previous = model.set_parameter_value("C", 7.25f32.to_bits());
    assert_eq!(previous, 0.0f32.to_bits());
    assert_eq!(model.parameter_values()[2], 7.25f32.to_bits());
    // No clamping: a value beyond the maximum is kept as it is.
    model.set_parameter_value_index(0, 42.0f32.to_bits());
    assert_eq!(model.parameter_values()[0], 42.0f32.to_bits());
    assert_eq!(model.set_parameter_value_index_unchecked(0, 1.0f32.to_bits()), 42.0f32.to_bits());
    model.set_parameter_values(&bits(&[0.25, 0.5, 0.75]));
    assert_eq!(model.parameter_values(), &bits(&[0.25, 0.5, 0.75])[..]);
    assert_eq!(model.parameter_min_values(), &bits(&[0.0, -1.0, 0.0])[..]);
    assert_eq!(model.parameter_max_values(), &bits(&[1.0, 1.0, 10.0])[..]);
    assert_eq!(model.parameter_default_values(), &bits(&[0.0, -1.0, 0.0])[..]);
    assert_eq!(model.parameter_key_values().len(), 3);
    assert_eq!(model.parameter_ids(), &["A".to_string(), "B".to_string(), "C".to_string()][..]);
}

#[test]
fn part_opacity_setters() {
    let mut model = build(raw_model()).ok().unwrap();
    assert_eq!(model.part_count(), 2);
    assert_eq!(model.part_index("Arm"), Some(1));
    assert_eq!(model.part_index("Leg"), None);
    assert_eq!(model.set_part_opacity("Arm", 0.25f32.to_bits()), 1.0f32.to_bits());
    assert_eq!(model.part_opacities()[1], 0.25f32.to_bits());
    assert_eq!(model.set_part_opacity_index(0, 0.0f32.to_bits()), 1.0f32.to_bits());
    assert_eq!(model.set_part_opacity_index_unchecked(0, 0.5f32.to_bits()), 0.0f32.to_bits());
    model.set_part_opacities(&bits(&[0.1, 0.2]));
    assert_eq!(model.part_opacities(), &bits(&[0.1, 0.2])[..]);
    assert_eq!(model.part_parent(), &[PartParent(-1), PartParent(0)][..]);
    assert_eq!(model.part_ids().len(), 2);
}

#[test]
fn duplicate_identifiers_resolve_to_the_first() {
    let mut raw = raw_model();
    raw.parameters = raw_parameters(&["A", "B", "A"], &[(0.0, 1.0), (0.0, 1.0), (0.0, 1.0)]);
    let mut model = build(raw).ok().unwrap();
    assert_eq!(model.parameter_index("A"), Some(0));
    model.set_parameter_value("A", 0.5f32.to_bits());
    assert_eq!(model.parameter_values(), &bits(&[0.5, 0.0, 0.0])[..]);
}

#[test]
fn update_replaces_dynamic_state() {
    let mut model = build(raw_model()).ok().unwrap();
    let state = frame(&model);
    assert!(model.update(state).is_ok());
    assert_eq!(model.drawable_draw_orders(), &[1, 0][..]);
    assert_eq!(model.drawable_render_orders(), &[1, 0][..]);
    assert_eq!(model.drawable_opacities().ok().unwrap(), &bits(&[0.5, 0.5])[..]);
    assert_eq!(model.drawable_dynamic_flags().ok().unwrap().len(), 2);
    let d = model.dynamic_drawables().get("D0").ok().unwrap();
    assert_eq!(d.draw_order, 1);
    assert_eq!(d.opacity, 0.5f32.to_bits());
    assert!(d.vertex_positions == triangle());
}

#[test]
fn updating_twice_with_the_same_output_is_idempotent() {
    let mut model = build(raw_model()).ok().unwrap();
    let state = frame(&model);
    assert!(model.update(state).is_ok());
    let first = model.dynamic_drawables().get_all();
    let values = model.parameter_values().to_vec();
    let state = frame(&model);
    assert!(model.update(state).is_ok());
    let second = model.dynamic_drawables().get_all();
    assert_eq!(model.parameter_values(), &values[..]);
    let first: Vec<_> = first.into_iter().map(|r| r.ok().unwrap()).collect();
    let second: Vec<_> = second.into_iter().map(|r| r.ok().unwrap()).collect();
    assert_eq!(first, second);
}

#[test]
fn copying_inputs_reproduces_the_state() {
    let mut source = build(raw_model()).ok().unwrap();
    source.set_parameter_value("B", 0.75f32.to_bits());
    source.set_part_opacity("Body", 0.5f32.to_bits());
    let state = frame(&source);
    assert!(source.update(state).is_ok());
    let mut copy = build(raw_model()).ok().unwrap();
    let values = source.parameter_values().to_vec();
    let opacities = source.part_opacities().to_vec();
    copy.set_parameter_values(&values);
    copy.set_part_opacities(&opacities);
    let state = frame(&copy);
    assert!(copy.update(state).is_ok());
    assert_eq!(copy.parameter_values(), source.parameter_values());
    assert_eq!(copy.part_opacities(), source.part_opacities());
    let a: Vec<_> = source.dynamic_drawables().get_all().into_iter().map(|r| r.ok().unwrap()).collect();
    let b: Vec<_> = copy.dynamic_drawables().get_all().into_iter().map(|r| r.ok().unwrap()).collect();
    assert_eq!(a, b);
    assert_eq!(copy.moc().moc_size(), source.moc().moc_size());
}

#[test]
fn update_with_wrong_lengths_is_refused() {
    let mut model = build(raw_model()).ok().unwrap();
    let mut state = frame(&model);
    state.draw_orders = vec![0];
    assert!(matches!(model.update(state), Err(Error::SliceLengthNotEqual(2, 1))));
    let mut state = frame(&model);
    state.vertex_positions = vec![triangle(), vec![]];
    assert!(matches!(model.update(state), Err(Error::SliceLengthNotEqual(3, 0))));
    assert_eq!(model.drawable_draw_orders(), &[0, 1][..]);
}

#[test]
fn dynamic_data_is_checked_on_each_read() {
    let mut model = build(raw_model()).ok().unwrap();
    let mut state = frame(&model);
    state.dynamic_flags[1] = DynamicFlags::from_bits_retain(0x41);
    assert!(model.update(state).is_ok());
    assert!(matches!(model.drawable_dynamic_flags(), Err(Error::InvalidFlags("dynamic", 0x41))));
    assert!(matches!(
        model.dynamic_drawables().get_index(0),
        Some(Err(Error::InvalidFlags("dynamic", 0x41)))
    ));
    let mut state = frame(&model);
    state.opacities[0] = 1.5f32.to_bits();
    assert!(model.update(state).is_ok());
    assert!(matches!(model.drawable_opacities(), Err(Error::GetDataError("drawable opacities"))));
    assert!(matches!(
        model.dynamic_drawables().get_index(1),
        Some(Err(Error::GetDataError("drawable opacities")))
    ));
    assert!(model.dynamic_drawables().get_index(2).is_none());
}

#[test]
fn initialisation_failures() {
    assert!(matches!(init_model(0), Err(Error::InitializeModelError)));
    let mut buffer = init_model(48).ok().unwrap();
    let bytes = buffer.as_mut_slice();
    assert_eq!(bytes.len(), 48);
    assert!(bytes.iter().all(|b| *b == 0));
    assert_eq!(bytes.as_ptr() as usize % cubism_core::ALIGN_OF_MODEL, 0);
    let result = Model::new(test_moc(), buffer, false, raw_model());
    assert!(matches!(result, Err(Error::InitializeModelError)));
}

#[test]
fn model_buffer_is_kept() {
    let mut buffer = init_model(32).ok().unwrap();
    buffer.as_mut_slice()[3] = 9;
    let mut model = Model::new(test_moc(), buffer, true, raw_model()).ok().unwrap();
    let bytes = model.as_model_bytes_mut();
    assert_eq!(bytes.len(), 32);
    assert_eq!(bytes[3], 9);
}

#[test]
fn negative_counts() {
    let mut raw = raw_model();
    raw.parameters.count = -1;
    assert!(matches!(expect_error(raw), Error::InvalidCount("parameter")));
    let mut raw = raw_model();
    raw.parts.count = -1;
    assert!(matches!(expect_error(raw), Error::InvalidCount("part")));
    let mut raw = raw_model();
    raw.drawables.count = -5;
    assert!(matches!(expect_error(raw), Error::InvalidCount("drawable")));
}

#[test]
fn parameter_faults() {
    let mut raw = raw_model();
    raw.parameters.ids = Some(vec![Some("A".to_string()), None, Some("C".to_string())]);
    assert!(matches!(expect_error(raw), Error::GetDataError("parameter ids")));
    let mut raw = raw_model();
    raw.parameters.min_values = None;
    assert!(matches!(expect_error(raw), Error::GetDataError("parameter min values")));
    let mut raw = raw_model();
    raw.parameters.max_values = Some(bits(&[1.0, -2.0, 10.0]));
    assert!(matches!(expect_error(raw), Error::GetDataError("parameter max values")));
    let mut raw = raw_model();
    raw.parameters.default_values = Some(bits(&[0.0, 0.0, 11.0]));
    assert!(matches!(expect_error(raw), Error::GetDataError("parameter default values")));
    let mut raw = raw_model();
    raw.parameters.values = Some(bits(&[0.0]));
    assert!(matches!(expect_error(raw), Error::GetDataError("parameter values")));
    let mut raw = raw_model();
    raw.parameters.key_counts = None;
    assert!(matches!(expect_error(raw), Error::GetDataError("parameter key counts")));
    let mut raw = raw_model();
    raw.parameters.key_values = Some(vec![Some(bits(&[0.0, 1.0])), Some(bits(&[0.0, 1.5])), Some(bits(&[0.0, 1.0]))]);
    assert!(matches!(expect_error(raw), Error::GetDataError("parameter key values")));
    let mut raw = raw_model();
    raw.parameters.key_counts = Some(vec![2, -1, 2]);
    assert!(matches!(expect_error(raw), Error::GetDataError("parameter key values")));
}

#[test]
fn parameter_tolerance_edges() {
    let mut raw = raw_model();
    raw.parameters.default_values = Some(bits(&[0.0 - EPSILON, 1.0 + EPSILON, 10.0 + EPSILON]));
    assert!(build(raw).is_ok());
    let mut raw = raw_model();
    raw.parameters.default_values = Some(bits(&[0.0 - 2.0 * EPSILON, 0.0, 0.0]));
    assert!(matches!(expect_error(raw), Error::GetDataError("parameter default values")));
}

#[test]
fn part_faults() {
    let mut raw = raw_model();
    raw.parts.ids = None;
    assert!(matches!(expect_error(raw), Error::GetDataError("part ids")));
    let mut raw = raw_model();
    raw.parts.opacities = None;
    assert!(matches!(expect_error(raw), Error::GetDataError("part opacities")));
    let mut raw = raw_model();
    raw.parts.parent_indices = Some(vec![PartParent(-2), PartParent(0)]);
    assert!(matches!(expect_error(raw), Error::GetDataError("part parent indices")));
    let mut raw = raw_model();
    raw.parts.parent_indices = Some(vec![PartParent(-1), PartParent(2)]);
    assert!(matches!(expect_error(raw), Error::GetDataError("part parent indices")));
}

#[test]
fn drawable_faults() {
    let mut raw = raw_model();
    raw.drawables.ids = Some(vec![Some("D0".to_string())]);
    assert!(matches!(expect_error(raw), Error::GetDataError("drawable ids")));
    let mut raw = raw_model();
    raw.drawables.constant_flags = Some(vec![ConstantFlags::from_bits_retain(0x10); 2]);
    assert!(matches!(expect_error(raw), Error::GetDataError("drawable constant flags")));
    let mut raw = raw_model();
    raw.drawables.dynamic_flags = Some(vec![DynamicFlags::from_bits_retain(0x80); 2]);
    assert!(matches!(expect_error(raw), Error::GetDataError("drawable dynamic flags")));
    let mut raw = raw_model();
    raw.drawables.texture_indices = Some(vec![0, 0x8000_0000]);
    assert!(matches!(expect_error(raw), Error::GetDataError("drawable texture indices")));
    let mut raw = raw_model();
    raw.drawables.draw_orders = None;
    assert!(matches!(expect_error(raw), Error::GetDataError("drawable draw orders")));
    let mut raw = raw_model();
    raw.drawables.render_orders = None;
    assert!(matches!(expect_error(raw), Error::GetDataError("drawable render orders")));
    let mut raw = raw_model();
    raw.drawables.opacities = Some(bits(&[1.0, 0.0 - 2.0 * EPSILON]));
    assert!(matches!(expect_error(raw), Error::GetDataError("drawable opacities")));
    let mut raw = raw_model();
    raw.drawables.mask_counts = None;
    assert!(matches!(expect_error(raw), Error::GetDataError("drawable mask counts")));
    let mut raw = raw_model();
    raw.drawables.masks = Some(vec![Some(vec![1]), Some(vec![0x8000_0000])]);
    assert!(matches!(expect_error(raw), Error::GetDataError("drawable masks")));
    let mut raw = raw_model();
    raw.drawables.vertex_counts = None;
    assert!(matches!(expect_error(raw), Error::GetDataError("drawable vertex counts")));
    let mut raw = raw_model();
    raw.drawables.vertex_positions = Some(vec![Some(triangle()), None]);
    assert!(matches!(expect_error(raw), Error::GetDataError("drawable vertex positions")));
    let mut raw = raw_model();
    raw.drawables.vertex_uvs = Some(vec![Some(triangle())]);
    assert!(matches!(expect_error(raw), Error::GetDataError("drawable vertex uvs")));
    let mut raw = raw_model();
    raw.drawables.index_counts = None;
    assert!(matches!(expect_error(raw), Error::GetDataError("drawable index counts")));
    let mut raw = raw_model();
    raw.drawables.indices = None;
    assert!(matches!(expect_error(raw), Error::GetDataError("drawable indices")));
}

#[test]
fn first_fault_wins() {
    let mut raw = raw_model();
    raw.parameters.values = None;
    raw.parts.count = -1;
    raw.drawables.ids = None;
    assert!(matches!(expect_error(raw), Error::GetDataError("parameter values")));
}

#[test]
fn empty_model() {
    let raw = RawModel {
        parameters: raw_parameters(&[], &[]),
        parts: raw_parts(&[]),
        drawables: raw_drawables(&[]),
    };
    let model = build(raw).ok().unwrap();
    assert_eq!(model.parameter_count(), 0);
    assert_eq!(model.part_count(), 0);
    assert_eq!(model.drawable_count(), 0);
    assert!(model.static_parameters().get_index(0).is_none());
    assert!(model.static_drawables().get_all().is_empty());
}

#[test]
fn readable_lengths() {
    assert_eq!(slice_len(5, 4), Some(5));
    assert_eq!(slice_len(0, 8), Some(0));
    assert_eq!(slice_len(-1, 4), None);
    assert_eq!(slice_len(i32::MAX, usize::MAX), None);
    assert_eq!(slice_len(3, 0), Some(3));
}
