use sprite_pipeline::draw::GpuCommand;
use sprite_pipeline::extract::{CustomSprite, ExtractedSprites, SpriteEntity};
use sprite_pipeline::frame::run_frame;
use sprite_pipeline::draw::RenderPassLog;
use sprite_pipeline::ids::{BufferId, DrawFunctionId, EntityRef, LayoutId, ShaderId, TextureId};
use sprite_pipeline::mesh::FixedQuadMesh;
use sprite_pipeline::pipeline::{CustomPipeline, SpecializedPipelines};
use sprite_pipeline::queue::{PhaseEntry, RenderPhase, RenderPhases, ViewInfo};
use sprite_pipeline::scalar::Scalar;
use sprite_pipeline::transform::{Vec3Data, WorldTransform};

fn scalar(v: f32) -> Scalar {
    Scalar { bits: v.to_bits() }
}

fn vec3(x: f32, y: f32, z: f32) -> Vec3Data {
    Vec3Data { x: scalar(x), y: scalar(y), z: scalar(z) }
}

fn origin_transform() -> WorldTransform {
    WorldTransform {
        x_axis: vec3(1.0, 0.0, 0.0),
        y_axis: vec3(0.0, 1.0, 0.0),
        z_axis: vec3(0.0, 0.0, 1.0),
        translation: vec3(0.0, 0.0, 0.0),
    }
}

fn origin_sprite(visible: bool) -> SpriteEntity {
    SpriteEntity {
        entity: EntityRef { render: 1, main: 101 },
        transform: origin_transform(),
        visible,
        sprite: CustomSprite { texture: TextureId(10) },
    }
}

fn uploaded_quad() -> FixedQuadMesh {
    let mut quad = FixedQuadMesh::new();
    quad.write_buffers(BufferId(21), BufferId(22));
    quad
}

fn one_view(visible: Vec<EntityRef>) -> Vec<ViewInfo> {
    vec![ViewInfo { entity: 50, visible, view_bind_group: 7 }]
}

fn fresh_phases() -> RenderPhases {
    RenderPhases { entries: vec![PhaseEntry { view: 50, phase: RenderPhase { items: Vec::new() } }] }
}

fn count_draws(pass: &RenderPassLog) -> usize {
    pass.commands.iter().filter(|c| matches!(c, GpuCommand::DrawIndexed { .. })).count()
}

#[test]
fn one_sprite_one_view_draws_once() {
    let sprites = vec![origin_sprite(true)];
    let views = one_view(vec![sprites[0].entity]);
    let resident = vec![TextureId(10)];
    let pipeline = CustomPipeline::new(LayoutId(1), LayoutId(2), ShaderId(3));
    let mut cache = SpecializedPipelines::new();
    let mut phases = fresh_phases();
    let mut store = ExtractedSprites { entries: Vec::new() };
    let quad = uploaded_quad();
    let mut pass = RenderPassLog { commands: Vec::new() };

    let (prepared, diags) = run_frame(
        &sprites,
        &views,
        &resident,
        &pipeline,
        DrawFunctionId(9),
        &mut cache,
        &mut phases,
        &mut store,
        &quad,
        &mut pass,
    );

    assert!(diags.is_empty());
    assert_eq!(store.entries.len(), 1);
    assert_eq!(phases.entries[0].phase.items.len(), 1, "exactly one draw item queued");
    assert_eq!(prepared.entries.len(), 1, "exactly one prepared entry");
    assert_eq!(count_draws(&pass), 1, "exactly one draw call");
    assert_eq!(pass.commands.len(), 7);
    assert!(matches!(pass.commands[0], GpuCommand::BindPipeline { .. }));
    assert!(matches!(pass.commands[1], GpuCommand::BindViewBindings { index: 0, bind_group: 7 }));
    assert!(matches!(pass.commands[2], GpuCommand::BindInstanceBindings { index: 1, .. }));
    assert!(matches!(
        pass.commands[6],
        GpuCommand::DrawIndexed { first_index: 0, index_count: 6, instance_count: 1, .. }
    ));
}

#[test]
fn entity_turning_invisible_leaves_no_stale_item() {
    let pipeline = CustomPipeline::new(LayoutId(1), LayoutId(2), ShaderId(3));
    let mut cache = SpecializedPipelines::new();
    let mut store = ExtractedSprites { entries: Vec::new() };
    let quad = uploaded_quad();
    let resident = vec![TextureId(10)];

    let frame_one = vec![origin_sprite(true)];
    let views = one_view(vec![frame_one[0].entity]);
    let mut phases = fresh_phases();
    let mut pass = RenderPassLog { commands: Vec::new() };
    run_frame(
        &frame_one, &views, &resident, &pipeline, DrawFunctionId(9),
        &mut cache, &mut phases, &mut store, &quad, &mut pass,
    );
    assert_eq!(phases.entries[0].phase.items.len(), 1);

    let frame_two = vec![origin_sprite(false)];
    let mut pass_two = RenderPassLog { commands: Vec::new() };
    run_frame(
        &frame_two, &views, &resident, &pipeline, DrawFunctionId(9),
        &mut cache, &mut phases, &mut store, &quad, &mut pass_two,
    );
    assert!(store.entries.is_empty(), "snapshot fully replaced");
    assert!(phases.entries[0].phase.items.is_empty(), "no stale draw item in any view");
    assert_eq!(count_draws(&pass_two), 0);
}

#[test]
fn nonresident_texture_skips_the_draw_without_failing() {
    let sprites = vec![origin_sprite(true)];
    let views = one_view(vec![sprites[0].entity]);
    let resident: Vec<TextureId> = Vec::new();
    let pipeline = CustomPipeline::new(LayoutId(1), LayoutId(2), ShaderId(3));
    let mut cache = SpecializedPipelines::new();
    let mut phases = fresh_phases();
    let mut store = ExtractedSprites { entries: Vec::new() };
    let quad = uploaded_quad();
    let mut pass = RenderPassLog { commands: Vec::new() };

    let (prepared, diags) = run_frame(
        &sprites, &views, &resident, &pipeline, DrawFunctionId(9),
        &mut cache, &mut phases, &mut store, &quad, &mut pass,
    );

    assert!(diags.is_empty(), "exclusion is not an error");
    assert_eq!(phases.entries[0].phase.items.len(), 1, "the item is still queued");
    assert!(prepared.entries.is_empty(), "excluded from this frame's prepared data");
    assert_eq!(count_draws(&pass), 0, "no draw call for the sprite");
    assert_eq!(pass.commands.len(), 2, "only the pipeline and view binds ran");
}

#[test]
fn sprite_outside_the_view_queues_nothing_for_it() {
    let sprites = vec![origin_sprite(true)];
    let views = one_view(Vec::new());
    let resident = vec![TextureId(10)];
    let pipeline = CustomPipeline::new(LayoutId(1), LayoutId(2), ShaderId(3));
    let mut cache = SpecializedPipelines::new();
    let mut phases = fresh_phases();
    let mut store = ExtractedSprites { entries: Vec::new() };
    let quad = uploaded_quad();
    let mut pass = RenderPassLog { commands: Vec::new() };

    run_frame(
        &sprites, &views, &resident, &pipeline, DrawFunctionId(9),
        &mut cache, &mut phases, &mut store, &quad, &mut pass,
    );

    assert_eq!(store.entries.len(), 1, "a valid snapshot entry remains for other views");
    assert!(phases.entries[0].phase.items.is_empty(), "zero draw items for this view");
    assert_eq!(count_draws(&pass), 0);
}

#[test]
fn two_views_see_their_own_sprites() {
    let near = SpriteEntity {
        entity: EntityRef { render: 1, main: 101 },
        transform: origin_transform(),
        visible: true,
        sprite: CustomSprite { texture: TextureId(10) },
    };
    let far = SpriteEntity {
        entity: EntityRef { render: 2, main: 102 },
        transform: origin_transform(),
        visible: true,
        sprite: CustomSprite { texture: TextureId(10) },
    };
    let sprites = vec![near, far];
    let views = vec![
        ViewInfo { entity: 50, visible: vec![near.entity, far.entity], view_bind_group: 7 },
        ViewInfo { entity: 60, visible: vec![far.entity], view_bind_group: 8 },
    ];
    let resident = vec![TextureId(10)];
    let pipeline = CustomPipeline::new(LayoutId(1), LayoutId(2), ShaderId(3));
    let mut cache = SpecializedPipelines::new();
    let mut phases = RenderPhases {
        entries: vec![
            PhaseEntry { view: 50, phase: RenderPhase { items: Vec::new() } },
            PhaseEntry { view: 60, phase: RenderPhase { items: Vec::new() } },
        ],
    };
    let mut store = ExtractedSprites { entries: Vec::new() };
    let quad = uploaded_quad();
    let mut pass = RenderPassLog { commands: Vec::new() };

    run_frame(
        &sprites, &views, &resident, &pipeline, DrawFunctionId(9),
        &mut cache, &mut phases, &mut store, &quad, &mut pass,
    );

    assert_eq!(phases.entries[0].phase.items.len(), 2);
    assert_eq!(phases.entries[1].phase.items.len(), 1);
    assert_eq!(phases.entries[1].phase.items[0].entity, far.entity);
    assert_eq!(count_draws(&pass), 3);
    assert_eq!(cache.len(), 1, "both views share the one specialized pipeline");
}
