use render_core::handle::HandleLedger;
use render_core::layout::{AttributeSlot, UploadReport, VertexLayoutBinding, VertexSchema};
use render_core::state::RenderState;

fn position_color_schema() -> VertexSchema {
    let slots = vec![
        AttributeSlot { location: 0, components: 3, normalized: false },
        AttributeSlot { location: 1, components: 3, normalized: false },
    ];
    VertexSchema::new(slots).unwrap_or_else(|| panic!("two distinct slots of three floats"))
}

#[test]
fn schema_rejects_empty_slot_list() {
    assert!(VertexSchema::new(Vec::new()).is_none());
}

#[test]
fn schema_rejects_component_count_out_of_range() {
    let slots = vec![AttributeSlot { location: 0, components: 5, normalized: false }];
    assert!(VertexSchema::new(slots).is_none());
    let slots = vec![AttributeSlot { location: 0, components: 0, normalized: false }];
    assert!(VertexSchema::new(slots).is_none());
}

#[test]
fn schema_rejects_duplicate_locations() {
    let slots = vec![
        AttributeSlot { location: 2, components: 3, normalized: false },
        AttributeSlot { location: 2, components: 3, normalized: false },
    ];
    assert!(VertexSchema::new(slots).is_none());
}

#[test]
fn position_color_stride_and_offsets() {
    let schema = position_color_schema();
    assert_eq!(schema.floats_per_vertex(), 6);
    // stride = 6 floats x 4 bytes; color starts after the 3 position floats
    assert_eq!(schema.stride_bytes(), 24);
    assert_eq!(schema.offset_bytes(0), 0);
    assert_eq!(schema.offset_bytes(1), 12);
}

#[test]
fn attribute_plan_matches_schema() {
    let schema = position_color_schema();
    let plan = schema.attribute_plan();
    assert_eq!(plan.len(), 2);
    assert_eq!(plan[0].location, 0);
    assert_eq!(plan[0].components, 3);
    assert!(!plan[0].normalized);
    assert_eq!(plan[0].stride_bytes, 24);
    assert_eq!(plan[0].offset_bytes, 0);
    assert_eq!(plan[1].location, 1);
    assert_eq!(plan[1].components, 3);
    assert_eq!(plan[1].stride_bytes, 24);
    assert_eq!(plan[1].offset_bytes, 12);
}

#[test]
fn data_not_cutting_into_whole_vertices_is_rejected_before_upload() {
    // this core's policy, pinned here: such data never reaches the driver
    let schema = position_color_schema();
    assert!(!schema.accepts(17));
    assert!(!schema.accepts(19));
    assert!(schema.accepts(0));
    assert!(schema.accepts(18));
}

#[test]
fn upload_counts_whole_vertices() {
    let mut buffers = HandleLedger::new();
    let mut arrays = HandleLedger::new();
    let schema = position_color_schema();
    // three vertices of (position x3, color x3), as the driver would get them
    let vertices: Vec<f32> = vec![
        -0.5, -0.5, 0.0, 1.0, 0.0, 0.0, //
        0.5, -0.5, 0.0, 0.0, 1.0, 0.0, //
        0.0, 0.5, 0.0, 0.0, 0.0, 1.0,
    ];
    assert!(schema.accepts(vertices.len()));
    let report = UploadReport { buffer: 11, array: 12 };
    let binding =
        VertexLayoutBinding::upload(schema, vertices.len(), report, &mut buffers, &mut arrays);
    assert_eq!(binding.vertex_count(), 3);
    assert_eq!(binding.buffer_id(), 11);
    assert_eq!(binding.array_id(), 12);
    assert!(buffers.contains(11));
    assert!(arrays.contains(12));
    assert_eq!(buffers.live_count(), 1);
    assert_eq!(arrays.live_count(), 1);
}

#[test]
fn buffer_and_array_names_may_collide() {
    // buffer names and vertex-array names come from different driver name
    // spaces; a driver numbering both from one is fine
    let mut buffers = HandleLedger::new();
    let mut arrays = HandleLedger::new();
    let schema = position_color_schema();
    let report = UploadReport { buffer: 1, array: 1 };
    let binding = VertexLayoutBinding::upload(schema, 18, report, &mut buffers, &mut arrays);
    assert_eq!(binding.buffer_id(), 1);
    assert_eq!(binding.array_id(), 1);
    assert_eq!(binding.vertex_count(), 3);
    binding.release(&mut buffers, &mut arrays);
    assert_eq!(buffers.live_count(), 0);
    assert_eq!(arrays.live_count(), 0);
}

#[test]
fn binding_release_frees_both_handles() {
    let mut buffers = HandleLedger::new();
    let mut arrays = HandleLedger::new();
    let schema = position_color_schema();
    let report = UploadReport { buffer: 11, array: 12 };
    let binding = VertexLayoutBinding::upload(schema, 18, report, &mut buffers, &mut arrays);
    binding.release(&mut buffers, &mut arrays);
    assert!(!buffers.contains(11));
    assert!(!arrays.contains(12));
    assert_eq!(buffers.live_count(), 0);
    assert_eq!(arrays.live_count(), 0);
}

#[test]
fn binding_bind_sets_active_array_only() {
    let mut buffers = HandleLedger::new();
    let mut arrays = HandleLedger::new();
    let schema = position_color_schema();
    let report = UploadReport { buffer: 11, array: 12 };
    let binding = VertexLayoutBinding::upload(schema, 18, report, &mut buffers, &mut arrays);
    let mut state = RenderState::new();
    binding.bind(&mut state);
    assert_eq!(state.active_array, Some(12));
    assert_eq!(state.active_program, None);
}
