use sprite_pipeline::draw::{DrawFailure, DrawSprite, GpuCommand, RenderCommandResult, RenderPassLog};
use sprite_pipeline::extract::{extract, CustomSprite, ExtractedSprites, SpriteEntity};
use sprite_pipeline::ids::{BufferId, DrawFunctionId, EntityRef, LayoutId, ShaderId, TextureId};
use sprite_pipeline::mesh::FixedQuadMesh;
use sprite_pipeline::pipeline::{CustomPipeline, CustomPipelineKey, SpecializedPipelines};
use sprite_pipeline::prepare::prepare;
use sprite_pipeline::queue::{queue, DrawItem, FrameDiagnostic, PhaseEntry, RenderPhase, RenderPhases, ViewInfo};
use sprite_pipeline::scalar::Scalar;
use sprite_pipeline::transform::{SpriteTransformMatrix, Vec3Data, WorldTransform};

fn scalar(v: f32) -> Scalar {
    Scalar { bits: v.to_bits() }
}

fn vec3(x: f32, y: f32, z: f32) -> Vec3Data {
    Vec3Data { x: scalar(x), y: scalar(y), z: scalar(z) }
}

fn translation_transform(x: f32, y: f32, z: f32) -> WorldTransform {
    WorldTransform {
        x_axis: vec3(1.0, 0.0, 0.0),
        y_axis: vec3(0.0, 1.0, 0.0),
        z_axis: vec3(0.0, 0.0, 1.0),
        translation: vec3(x, y, z),
    }
}

fn sprite_at(render: u64, z: f32, visible: bool, texture: u64) -> SpriteEntity {
    SpriteEntity {
        entity: EntityRef { render, main: render + 100 },
        transform: translation_transform(0.0, 0.0, z),
        visible,
        sprite: CustomSprite { texture: TextureId(texture) },
    }
}

fn test_pipeline() -> CustomPipeline {
    CustomPipeline::new(LayoutId(1), LayoutId(2), ShaderId(3))
}

fn empty_phase_for(view: u64) -> PhaseEntry {
    PhaseEntry { view, phase: RenderPhase { items: Vec::new() } }
}

#[test]
fn quad_mesh_holds_unit_quad() {
    let quad = FixedQuadMesh::new();
    let corners: Vec<(u32, u32, u32)> =
        quad.vertex_buffer.iter().map(|v| (v.x, v.y, v.z)).collect();
    assert_eq!(corners, vec![(0, 0, 0), (1, 0, 0), (1, 1, 0), (0, 1, 0)]);
    assert_eq!(quad.index_buffer, vec![0, 1, 2, 0, 2, 3]);
    assert!(quad.vertex_buffer_gpu.is_none());
    assert!(quad.index_buffer_gpu.is_none());
}

#[test]
fn depth_keys_order_like_the_reals() {
    let depths = [-3.5f32, -1.0, -0.0, 0.0, 0.5, 1.0, 2.0, 3.0];
    let keys: Vec<i64> = depths.iter().map(|d| scalar(*d).sort_key()).collect();
    for w in keys.windows(2) {
        assert!(w[0] <= w[1], "keys must ascend with the depths");
    }
    assert_eq!(scalar(-0.0).sort_key(), scalar(0.0).sort_key());
    assert!(scalar(-1.0).sort_key() < scalar(1.0).sort_key());
}

#[test]
fn translation_only_transform_extracts_identity_rows() {
    let m = SpriteTransformMatrix::from_transform(&translation_transform(5.0, 7.0, 2.0));
    assert_eq!(m.row_x.x, scalar(1.0));
    assert_eq!(m.row_x.y, scalar(0.0));
    assert_eq!(m.row_x.z, scalar(0.0));
    assert_eq!(m.row_x.w, scalar(5.0));
    assert_eq!(m.row_y.x, scalar(0.0));
    assert_eq!(m.row_y.y, scalar(1.0));
    assert_eq!(m.row_y.z, scalar(0.0));
    assert_eq!(m.row_y.w, scalar(7.0));
    assert_eq!(m.row_z.x, scalar(0.0));
    assert_eq!(m.row_z.y, scalar(0.0));
    assert_eq!(m.row_z.z, scalar(1.0));
    assert_eq!(m.row_z.w, scalar(2.0));
}

#[test]
fn rotated_transform_rows_are_the_transposed_columns() {
    let t = WorldTransform {
        x_axis: vec3(0.0, 1.0, 0.0),
        y_axis: vec3(-1.0, 0.0, 0.0),
        z_axis: vec3(0.0, 0.0, 1.0),
        translation: vec3(4.0, 5.0, 6.0),
    };
    let m = SpriteTransformMatrix::from_transform(&t);
    assert_eq!(m.row_x.x, scalar(0.0));
    assert_eq!(m.row_x.y, scalar(-1.0));
    assert_eq!(m.row_x.z, scalar(0.0));
    assert_eq!(m.row_x.w, scalar(4.0));
    assert_eq!(m.row_y.x, scalar(1.0));
    assert_eq!(m.row_y.y, scalar(0.0));
    assert_eq!(m.row_y.z, scalar(0.0));
    assert_eq!(m.row_y.w, scalar(5.0));
}

#[test]
fn invisible_entities_are_not_extracted() {
    let sprites = vec![
        sprite_at(1, 0.0, true, 10),
        sprite_at(2, 0.0, false, 10),
        sprite_at(3, 0.0, true, 10),
    ];
    let mut store = ExtractedSprites { entries: Vec::new() };
    extract(&sprites, &mut store);
    assert_eq!(store.entries.len(), 2);
    assert_eq!(store.entries[0].entity, EntityRef { render: 1, main: 101 });
    assert_eq!(store.entries[1].entity, EntityRef { render: 3, main: 103 });
}

#[test]
fn extraction_discards_the_previous_frame() {
    let frame_one = vec![sprite_at(1, 0.0, true, 10)];
    let mut store = ExtractedSprites { entries: Vec::new() };
    extract(&frame_one, &mut store);
    assert_eq!(store.entries.len(), 1);
    let frame_two = vec![sprite_at(1, 0.0, false, 10)];
    extract(&frame_two, &mut store);
    assert!(store.entries.is_empty(), "no stale carry-over across frames");
}

#[test]
fn draw_items_sort_ascending_by_depth() {
    let sprites = vec![
        sprite_at(1, 3.0, true, 10),
        sprite_at(2, 1.0, true, 10),
        sprite_at(3, 2.0, true, 10),
    ];
    let mut store = ExtractedSprites { entries: Vec::new() };
    extract(&sprites, &mut store);
    let mut phases = RenderPhases { entries: vec![empty_phase_for(50)] };
    let mut cache = SpecializedPipelines::new();
    let views = vec![ViewInfo {
        entity: 50,
        visible: sprites.iter().map(|s| s.entity).collect(),
        view_bind_group: 7,
    }];
    let pipeline = test_pipeline();
    let diags = queue(&mut cache, &pipeline, DrawFunctionId(9), &views, &mut phases, &store);
    assert!(diags.is_empty());
    let items = &phases.entries[0].phase.items;
    let depths: Vec<u32> = items.iter().map(|i| i.sort_key.bits).collect();
    assert_eq!(depths, vec![1.0f32.to_bits(), 2.0f32.to_bits(), 3.0f32.to_bits()]);
}

#[test]
fn equal_depths_keep_their_original_order() {
    let sprites = vec![
        sprite_at(1, 2.0, true, 10),
        sprite_at(2, 1.0, true, 10),
        sprite_at(3, 2.0, true, 10),
        sprite_at(4, 2.0, true, 10),
    ];
    let mut store = ExtractedSprites { entries: Vec::new() };
    extract(&sprites, &mut store);
    let mut phases = RenderPhases { entries: vec![empty_phase_for(50)] };
    let mut cache = SpecializedPipelines::new();
    let views = vec![ViewInfo {
        entity: 50,
        visible: sprites.iter().map(|s| s.entity).collect(),
        view_bind_group: 7,
    }];
    let pipeline = test_pipeline();
    queue(&mut cache, &pipeline, DrawFunctionId(9), &views, &mut phases, &store);
    let order: Vec<u64> = phases.entries[0].phase.items.iter().map(|i| i.entity.render).collect();
    assert_eq!(order, vec![2, 1, 3, 4], "ties broken by original iteration order");
}

#[test]
fn entity_outside_a_view_is_extracted_but_not_queued() {
    let sprites = vec![sprite_at(1, 0.0, true, 10)];
    let mut store = ExtractedSprites { entries: Vec::new() };
    extract(&sprites, &mut store);
    assert_eq!(store.entries.len(), 1, "still extracted for other views");
    let mut phases = RenderPhases { entries: vec![empty_phase_for(50)] };
    let mut cache = SpecializedPipelines::new();
    let views = vec![ViewInfo { entity: 50, visible: Vec::new(), view_bind_group: 7 }];
    let pipeline = test_pipeline();
    queue(&mut cache, &pipeline, DrawFunctionId(9), &views, &mut phases, &store);
    assert!(phases.entries[0].phase.items.is_empty());
}

#[test]
fn view_without_phase_is_skipped_with_a_diagnostic() {
    let sprites = vec![sprite_at(1, 0.0, true, 10)];
    let mut store = ExtractedSprites { entries: Vec::new() };
    extract(&sprites, &mut store);
    let mut phases = RenderPhases { entries: vec![empty_phase_for(60)] };
    let mut cache = SpecializedPipelines::new();
    let views = vec![
        ViewInfo { entity: 50, visible: vec![sprites[0].entity], view_bind_group: 7 },
        ViewInfo { entity: 60, visible: vec![sprites[0].entity], view_bind_group: 8 },
    ];
    let pipeline = test_pipeline();
    let diags = queue(&mut cache, &pipeline, DrawFunctionId(9), &views, &mut phases, &store);
    assert_eq!(diags, vec![FrameDiagnostic::MissingViewPhase { view: 50 }]);
    assert_eq!(phases.entries[0].phase.items.len(), 1, "the other view is unaffected");
}

#[test]
fn prepare_stages_the_matrix_bytes_verbatim() {
    let sprites = vec![sprite_at(1, 2.0, true, 10)];
    let mut store = ExtractedSprites { entries: Vec::new() };
    extract(&sprites, &mut store);
    let pipeline = test_pipeline();
    let out = prepare(&store, &vec![TextureId(10)], &pipeline);
    assert_eq!(out.entries.len(), 1);
    let prepared = &out.entries[0].prepared;
    assert_eq!(prepared.count, 1);
    assert_eq!(prepared.uniform_buffer.layout, LayoutId(2));
    assert_eq!(prepared.uniform_buffer.texture, TextureId(10));
    assert_eq!(prepared.instance_buffer.bytes.len(), 48);
    let m = &prepared.instance_buffer.contents;
    let words = [
        m.row_x.x.bits, m.row_x.y.bits, m.row_x.z.bits, m.row_x.w.bits,
        m.row_y.x.bits, m.row_y.y.bits, m.row_y.z.bits, m.row_y.w.bits,
        m.row_z.x.bits, m.row_z.y.bits, m.row_z.z.bits, m.row_z.w.bits,
    ];
    let expected: Vec<u8> = words.iter().flat_map(|w| w.to_ne_bytes()).collect();
    assert_eq!(prepared.instance_buffer.bytes, expected);
}

#[test]
fn nonresident_texture_is_excluded_from_prepared_data() {
    let sprites = vec![sprite_at(1, 0.0, true, 10), sprite_at(2, 0.0, true, 11)];
    let mut store = ExtractedSprites { entries: Vec::new() };
    extract(&sprites, &mut store);
    let pipeline = test_pipeline();
    let out = prepare(&store, &vec![TextureId(11)], &pipeline);
    assert_eq!(out.entries.len(), 1);
    assert_eq!(out.entries[0].entity, EntityRef { render: 2, main: 102 });
}

#[test]
fn draw_without_prepared_data_fails_that_item_only() {
    let mut quad = FixedQuadMesh::new();
    quad.write_buffers(BufferId(1), BufferId(2));
    let mut pass = RenderPassLog { commands: Vec::new() };
    let item = DrawItem {
        sort_key: scalar(0.0),
        entity: EntityRef { render: 1, main: 101 },
        pipeline: sprite_pipeline::ids::PipelineId(0),
        draw_function: DrawFunctionId(9),
        batch_start: 0,
        batch_end: 1,
    };
    let r = DrawSprite::render(&item, None, &quad, &mut pass);
    assert_eq!(r, RenderCommandResult::Failure(DrawFailure::MissingPreparedData));
    assert!(pass.commands.is_empty());
}

#[test]
fn draw_without_uploaded_quad_reports_the_missing_buffer() {
    let quad = FixedQuadMesh::new();
    let sprites = vec![sprite_at(1, 0.0, true, 10)];
    let mut store = ExtractedSprites { entries: Vec::new() };
    extract(&sprites, &mut store);
    let pipeline = test_pipeline();
    let out = prepare(&store, &vec![TextureId(10)], &pipeline);
    let mut pass = RenderPassLog { commands: Vec::new() };
    let item = DrawItem {
        sort_key: scalar(0.0),
        entity: EntityRef { render: 1, main: 101 },
        pipeline: sprite_pipeline::ids::PipelineId(0),
        draw_function: DrawFunctionId(9),
        batch_start: 0,
        batch_end: 1,
    };
    let r = DrawSprite::render(&item, Some(&out.entries[0].prepared), &quad, &mut pass);
    assert_eq!(r, RenderCommandResult::Failure(DrawFailure::MissingIndexBuffer));
    assert!(pass.commands.is_empty());

    let mut half = FixedQuadMesh::new();
    half.index_buffer_gpu = Some(BufferId(2));
    let r2 = DrawSprite::render(&item, Some(&out.entries[0].prepared), &half, &mut pass);
    assert_eq!(r2, RenderCommandResult::Failure(DrawFailure::MissingVertexBuffer));
    assert!(pass.commands.is_empty());
}

#[test]
fn specialization_is_idempotent_and_deterministic() {
    let pipeline = test_pipeline();
    let mut cache = SpecializedPipelines::new();
    let first = cache.specialize(&pipeline, CustomPipelineKey);
    let second = cache.specialize(&pipeline, CustomPipelineKey);
    assert_eq!(first, second, "one handle per key");
    assert_eq!(cache.len(), 1, "no duplicate objects");

    let a = pipeline.specialize(CustomPipelineKey);
    let b = pipeline.specialize(CustomPipelineKey);
    assert_eq!(a.label, Some(String::from("my pipeline")));
    assert_eq!(a.label, b.label);
    assert_eq!(a.layout, b.layout);
    assert_eq!(a.layout, vec![LayoutId(1), LayoutId(2)]);
    assert_eq!(a.vertex.shader, b.vertex.shader);
    assert_eq!(a.vertex.entry_point, b.vertex.entry_point);
    assert_eq!(a.vertex.shader_defs, b.vertex.shader_defs);
    assert_eq!(a.vertex.buffers.len(), 2);
    assert_eq!(a.vertex.buffers.len(), b.vertex.buffers.len());
    for (x, y) in a.vertex.buffers.iter().zip(b.vertex.buffers.iter()) {
        assert_eq!(x.array_stride, y.array_stride);
        assert_eq!(x.step_mode, y.step_mode);
        assert_eq!(x.attributes, y.attributes);
    }
    assert_eq!(a.vertex.buffers[0].array_stride, 12);
    assert_eq!(a.vertex.buffers[1].array_stride, 48);
    let fa = a.fragment.as_ref().expect("fragment stage");
    let fb = b.fragment.as_ref().expect("fragment stage");
    assert_eq!(fa.shader, fb.shader);
    assert_eq!(fa.entry_point, fb.entry_point);
    assert_eq!(fa.shader_defs, vec![String::from("SIXTEEN_BYTE_ALIGNMENT")]);
    assert_eq!(fa.shader_defs, fb.shader_defs);
    assert_eq!(fa.targets, fb.targets);
    assert_eq!(a.primitive, b.primitive);
    assert_eq!(a.depth_stencil, b.depth_stencil);
    assert_eq!(a.multisample, b.multisample);
    assert_eq!(a.multisample.count, 4);
    assert_eq!(a.zero_initialize_workgroup_memory, b.zero_initialize_workgroup_memory);
}

#[test]
fn cache_lookup_knows_built_handles_only() {
    let pipeline = test_pipeline();
    let mut cache = SpecializedPipelines::new();
    let id = cache.specialize(&pipeline, CustomPipelineKey);
    assert!(cache.get(id).is_some());
    assert!(cache.get(sprite_pipeline::ids::PipelineId(5)).is_none());
}

#[test]
fn pass_log_records_bind_commands_in_order() {
    let mut pass = RenderPassLog { commands: Vec::new() };
    let quad = {
        let mut q = FixedQuadMesh::new();
        q.write_buffers(BufferId(21), BufferId(22));
        q
    };
    let sprites = vec![sprite_at(1, 0.0, true, 10)];
    let mut store = ExtractedSprites { entries: Vec::new() };
    extract(&sprites, &mut store);
    let pipeline = test_pipeline();
    let out = prepare(&store, &vec![TextureId(10)], &pipeline);
    let item = DrawItem {
        sort_key: scalar(0.0),
        entity: EntityRef { render: 1, main: 101 },
        pipeline: sprite_pipeline::ids::PipelineId(0),
        draw_function: DrawFunctionId(9),
        batch_start: 0,
        batch_end: 1,
    };
    let r = DrawSprite::render(&item, Some(&out.entries[0].prepared), &quad, &mut pass);
    assert_eq!(r, RenderCommandResult::Success);
    assert_eq!(pass.commands.len(), 4);
    assert!(matches!(pass.commands[0], GpuCommand::BindVertexBuffer { slot: 0, .. }));
    assert!(matches!(pass.commands[1], GpuCommand::BindVertexBuffer { slot: 1, .. }));
    assert!(matches!(pass.commands[2], GpuCommand::BindIndexBuffer { .. }));
    assert!(matches!(
        pass.commands[3],
        GpuCommand::DrawIndexed { first_index: 0, index_count: 6, instance_count: 1, .. }
    ));
}
