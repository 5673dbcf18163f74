use vstd::prelude::*;

use crate::ids::{LayoutId, PipelineId, ShaderId};
use crate::scalar::Scalar;

verus! {

/// Samples per pixel of the render target the pipeline is built against; a
/// configuration constant of this renderer.
pub const MULTISAMPLE_SAMPLE_COUNT: u32 = 4;

/// Format of one vertex attribute.
#[derive(Clone, Copy, PartialEq, Eq, Structural, Debug)]
pub enum VertexFormatDesc {
    Float32x3,
    Float32x4,
}

/// One attribute of a vertex buffer layout.
#[derive(Clone, Copy, PartialEq, Eq, Structural, Debug)]
pub struct VertexAttributeDesc {
    pub format: VertexFormatDesc,
    pub offset: u64,
    pub shader_location: u32,
}

/// Whether a vertex buffer advances per vertex or per instance.
#[derive(Clone, Copy, PartialEq, Eq, Structural, Debug)]
pub enum VertexStepModeDesc {
    Vertex,
    Instance,
}

/// Layout of one vertex buffer: stride, step mode and attributes.
#[derive(Clone, Debug)]
pub struct VertexBufferLayoutDesc {
    pub array_stride: u64,
    pub step_mode: VertexStepModeDesc,
    pub attributes: Vec<VertexAttributeDesc>,
}

/// The vertex stage: shader, preprocessor definitions, entry point and the
/// vertex buffer layouts it consumes.
#[derive(Clone, Debug)]
pub struct VertexStateDesc {
    pub shader: ShaderId,
    pub shader_defs: Vec<String>,
    pub entry_point: String,
    pub buffers: Vec<VertexBufferLayoutDesc>,
}

/// Blend configuration of a color target.
#[derive(Clone, Copy, PartialEq, Eq, Structural, Debug)]
pub enum BlendStateDesc {
    AlphaBlending,
}

/// Which channels of a color target are written.
#[derive(Clone, Copy, PartialEq, Eq, Structural, Debug)]
pub enum ColorWritesDesc {
    All,
}

/// Texture format of a color or depth target.
#[derive(Clone, Copy, PartialEq, Eq, Structural, Debug)]
pub enum TextureFormatDesc {
    Rgba8UnormSrgb,
    Depth32Float,
}

/// One color target of the fragment stage.
#[derive(Clone, Copy, PartialEq, Eq, Structural, Debug)]
pub struct ColorTargetStateDesc {
    pub format: TextureFormatDesc,
    pub blend: Option<BlendStateDesc>,
    pub write_mask: ColorWritesDesc,
}

/// The fragment stage: shader, preprocessor definitions, entry point and
/// color targets.
#[derive(Clone, Debug)]
pub struct FragmentStateDesc {
    pub shader: ShaderId,
    pub shader_defs: Vec<String>,
    pub entry_point: String,
    pub targets: Vec<Option<ColorTargetStateDesc>>,
}

/// Winding order that counts as front-facing.
#[derive(Clone, Copy, PartialEq, Eq, Structural, Debug)]
pub enum FrontFaceDesc {
    Ccw,
}

/// Which side of a primitive is culled, where culling is on.
#[derive(Clone, Copy, PartialEq, Eq, Structural, Debug)]
pub enum FaceDesc {
    Front,
    Back,
}

/// How polygons are rasterized.
#[derive(Clone, Copy, PartialEq, Eq, Structural, Debug)]
pub enum PolygonModeDesc {
    Fill,
}

/// How vertices are assembled into primitives.
#[derive(Clone, Copy, PartialEq, Eq, Structural, Debug)]
pub enum PrimitiveTopologyDesc {
    TriangleList,
}

/// Width of one index of an index buffer.
#[derive(Clone, Copy, PartialEq, Eq, Structural, Debug)]
pub enum IndexFormatDesc {
    Uint16,
    Uint32,
}

/// Primitive assembly and rasterization state.
#[derive(Clone, Copy, PartialEq, Eq, Structural, Debug)]
pub struct PrimitiveStateDesc {
    pub topology: PrimitiveTopologyDesc,
    pub front_face: FrontFaceDesc,
    pub cull_mode: Option<FaceDesc>,
    pub unclipped_depth: bool,
    pub polygon_mode: PolygonModeDesc,
    pub conservative: bool,
    pub strip_index_format: Option<IndexFormatDesc>,
}

/// Comparison applied by a depth or stencil test.
#[derive(Clone, Copy, PartialEq, Eq, Structural, Debug)]
pub enum CompareFunctionDesc {
    Always,
}

/// Per-face stencil behaviour; this renderer leaves the stencil untouched.
#[derive(Clone, Copy, PartialEq, Eq, Structural, Debug)]
pub enum StencilFaceStateDesc {
    Ignore,
}

/// Stencil state of the depth-stencil target.
#[derive(Clone, Copy, PartialEq, Eq, Structural, Debug)]
pub struct StencilStateDesc {
    pub front: StencilFaceStateDesc,
    pub back: StencilFaceStateDesc,
    pub read_mask: u32,
    pub write_mask: u32,
}

/// Depth bias applied during rasterization.
#[derive(Clone, Copy, PartialEq, Eq, Structural, Debug)]
pub struct DepthBiasStateDesc {
    pub constant: i32,
    pub slope_scale: Scalar,
    pub clamp: Scalar,
}

/// Depth and stencil configuration, matching the target render target.
#[derive(Clone, Copy, PartialEq, Eq, Structural, Debug)]
pub struct DepthStencilStateDesc {
    pub format: TextureFormatDesc,
    pub depth_write_enabled: bool,
    pub depth_compare: CompareFunctionDesc,
    pub stencil: StencilStateDesc,
    pub bias: DepthBiasStateDesc,
}

/// Multisample configuration.
#[derive(Clone, Copy, PartialEq, Eq, Structural, Debug)]
pub struct MultisampleStateDesc {
    pub count: u32,
    pub mask: u64,
    pub alpha_to_coverage_enabled: bool,
}

/// A complete pipeline state object configuration: shader stages, bind-group
/// layouts, vertex layouts, blend, depth/stencil and multisample state.
/// Immutable once built; the cache hands out the same configuration for the
/// same key for the rest of the process.
#[derive(Clone, Debug)]
pub struct PipelineDescriptor {
    pub label: Option<String>,
    pub layout: Vec<LayoutId>,
    pub vertex: VertexStateDesc,
    pub fragment: Option<FragmentStateDesc>,
    pub primitive: PrimitiveStateDesc,
    pub depth_stencil: Option<DepthStencilStateDesc>,
    pub multisample: MultisampleStateDesc,
    pub zero_initialize_workgroup_memory: bool,
}

/// The specialization key. This renderer uses a single specialization, so
/// the key carries no data, but the cache treats it as an ordinary key.
#[derive(Clone, Copy, PartialEq, Eq, Structural, Debug, Hash)]
pub struct CustomPipelineKey;

/// The process-wide ingredients every specialization is built from: the
/// per-view bind-group layout, the per-sprite bind-group layout, and the
/// shader module.
#[derive(Clone, Copy, PartialEq, Eq, Structural, Debug)]
pub struct CustomPipeline {
    pub view_layout: LayoutId,
    pub uniform_layout: LayoutId,
    pub shader: ShaderId,
}

/// The exact configuration `CustomPipeline::specialize` owes for any key:
/// one quad-corner vertex buffer and one 48-byte per-instance buffer feeding
/// the vertex stage, alpha blending into an 8-bit sRGB color target, a
/// read-only depth target, and four-sample multisampling.
pub open spec fn descriptor_matches(d: PipelineDescriptor, p: CustomPipeline) -> bool {
    &&& d.label matches Some(l) && l@ == "my pipeline"@
    &&& d.layout@ == seq![p.view_layout, p.uniform_layout]
    &&& d.vertex.shader == p.shader
    &&& d.vertex.shader_defs@.len() == 0
    &&& d.vertex.entry_point@ == "vertex"@
    &&& d.vertex.buffers@.len() == 2
    &&& d.vertex.buffers@[0].array_stride == 12
    &&& d.vertex.buffers@[0].step_mode == VertexStepModeDesc::Vertex
    &&& d.vertex.buffers@[0].attributes@ == seq![
        (VertexAttributeDesc { format: VertexFormatDesc::Float32x3, offset: 0, shader_location: 0 }),
    ]
    &&& d.vertex.buffers@[1].array_stride == 48
    &&& d.vertex.buffers@[1].step_mode == VertexStepModeDesc::Instance
    &&& d.vertex.buffers@[1].attributes@ == seq![
        (VertexAttributeDesc { format: VertexFormatDesc::Float32x4, offset: 0, shader_location: 1 }),
        (VertexAttributeDesc { format: VertexFormatDesc::Float32x4, offset: 16, shader_location: 2 }),
        (VertexAttributeDesc { format: VertexFormatDesc::Float32x4, offset: 32, shader_location: 3 }),
    ]
    &&& d.fragment matches Some(f) && {
        &&& f.shader == p.shader
        &&& f.shader_defs@.len() == 1
        &&& f.shader_defs@[0]@ == "SIXTEEN_BYTE_ALIGNMENT"@
        &&& f.entry_point@ == "fragment"@
        &&& f.targets@ == seq![
            Some(
                ColorTargetStateDesc {
                    format: TextureFormatDesc::Rgba8UnormSrgb,
                    blend: Some(BlendStateDesc::AlphaBlending),
                    write_mask: ColorWritesDesc::All,
                },
            ),
        ]
    }
    &&& d.primitive == (PrimitiveStateDesc {
        topology: PrimitiveTopologyDesc::TriangleList,
        front_face: FrontFaceDesc::Ccw,
        cull_mode: None,
        unclipped_depth: false,
        polygon_mode: PolygonModeDesc::Fill,
        conservative: false,
        strip_index_format: None,
    })
    &&& d.depth_stencil matches Some(ds) && ds == (DepthStencilStateDesc {
        format: TextureFormatDesc::Depth32Float,
        depth_write_enabled: false,
        depth_compare: CompareFunctionDesc::Always,
        stencil: StencilStateDesc {
            front: StencilFaceStateDesc::Ignore,
            back: StencilFaceStateDesc::Ignore,
            read_mask: 0,
            write_mask: 0,
        },
        bias: DepthBiasStateDesc {
            constant: 0,
            slope_scale: Scalar { bits: 0 },
            clamp: Scalar { bits: 0 },
        },
    })
    &&& d.multisample == (MultisampleStateDesc {
        count: MULTISAMPLE_SAMPLE_COUNT as u32,
        mask: 0xFFFF_FFFF_FFFF_FFFFu64,
        alpha_to_coverage_enabled: false,
    })
    &&& d.zero_initialize_workgroup_memory == true
}

/// Structural identity of two vertex buffer layouts.
pub open spec fn vertex_buffer_layout_equiv(a: VertexBufferLayoutDesc, b: VertexBufferLayoutDesc) -> bool {
    &&& a.array_stride == b.array_stride
    &&& a.step_mode == b.step_mode
    &&& a.attributes@ == b.attributes@
}

/// Structural identity of two vertex stages.
pub open spec fn vertex_state_equiv(a: VertexStateDesc, b: VertexStateDesc) -> bool {
    &&& a.shader == b.shader
    &&& a.shader_defs@.len() == b.shader_defs@.len()
    &&& forall|i: int|
        0 <= i < a.shader_defs@.len() ==> a.shader_defs@[i]@ == b.shader_defs@[i]@
    &&& a.entry_point@ == b.entry_point@
    &&& a.buffers@.len() == b.buffers@.len()
    &&& forall|i: int|
        0 <= i < a.buffers@.len() ==> vertex_buffer_layout_equiv(a.buffers@[i], b.buffers@[i])
}

/// Structural identity of two fragment stages.
pub open spec fn fragment_state_equiv(a: FragmentStateDesc, b: FragmentStateDesc) -> bool {
    &&& a.shader == b.shader
    &&& a.shader_defs@.len() == b.shader_defs@.len()
    &&& forall|i: int|
        0 <= i < a.shader_defs@.len() ==> a.shader_defs@[i]@ == b.shader_defs@[i]@
    &&& a.entry_point@ == b.entry_point@
    &&& a.targets@ == b.targets@
}

/// Structural identity of two pipeline configurations: the same shader
/// references, the same layouts, the same vertex, blend, depth/stencil and
/// multisample settings.
pub open spec fn descriptor_equiv(a: PipelineDescriptor, b: PipelineDescriptor) -> bool {
    &&& match (a.label, b.label) {
        (Some(x), Some(y)) => x@ == y@,
        (None, None) => true,
        _ => false,
    }
    &&& a.layout@ == b.layout@
    &&& vertex_state_equiv(a.vertex, b.vertex)
    &&& match (a.fragment, b.fragment) {
        (Some(x), Some(y)) => fragment_state_equiv(x, y),
        (None, None) => true,
        _ => false,
    }
    &&& a.primitive == b.primitive
    &&& a.depth_stencil == b.depth_stencil
    &&& a.multisample == b.multisample
    &&& a.zero_initialize_workgroup_memory == b.zero_initialize_workgroup_memory
}

/// Specialization is deterministic: any two configurations built for the
/// same ingredients are structurally identical, whichever requests produced
/// them.
pub proof fn lemma_specialize_deterministic(
    a: PipelineDescriptor,
    b: PipelineDescriptor,
    p: CustomPipeline,
)
    requires
        descriptor_matches(a, p),
        descriptor_matches(b, p),
    ensures
        descriptor_equiv(a, b),
{
    assert(vertex_buffer_layout_equiv(a.vertex.buffers@[0], b.vertex.buffers@[0]));
    assert(vertex_buffer_layout_equiv(a.vertex.buffers@[1], b.vertex.buffers@[1]));
    assert(forall|i: int|
        0 <= i < a.vertex.buffers@.len() ==> vertex_buffer_layout_equiv(
            a.vertex.buffers@[i],
            b.vertex.buffers@[i],
        ));
}

impl CustomPipeline {
    /// Gather the process-wide ingredients: the host created the two
    /// bind-group layouts and loaded the shader module.
    pub fn new(view_layout: LayoutId, uniform_layout: LayoutId, shader: ShaderId) -> (r:
        CustomPipeline)
        ensures
            r == (CustomPipeline { view_layout, uniform_layout, shader }),
    {
        CustomPipeline { view_layout, uniform_layout, shader }
    }

    /// Build the pipeline configuration for a key. Every key yields the one
    /// configuration this renderer uses; the contract pins every field.
    pub fn specialize(&self, _key: CustomPipelineKey) -> (r: PipelineDescriptor)
        ensures
            descriptor_matches(r, *self),
    {
        let mut position_attributes: Vec<VertexAttributeDesc> = Vec::new();
        position_attributes.push(
            VertexAttributeDesc { format: VertexFormatDesc::Float32x3, offset: 0, shader_location: 0 },
        );
        let mut instance_attributes: Vec<VertexAttributeDesc> = Vec::new();
        instance_attributes.push(
            VertexAttributeDesc { format: VertexFormatDesc::Float32x4, offset: 0, shader_location: 1 },
        );
        instance_attributes.push(
            VertexAttributeDesc { format: VertexFormatDesc::Float32x4, offset: 16, shader_location: 2 },
        );
        instance_attributes.push(
            VertexAttributeDesc { format: VertexFormatDesc::Float32x4, offset: 32, shader_location: 3 },
        );
        let mut buffers: Vec<VertexBufferLayoutDesc> = Vec::new();
        buffers.push(
            VertexBufferLayoutDesc {
                array_stride: 12,
                step_mode: VertexStepModeDesc::Vertex,
                attributes: position_attributes,
            },
        );
        buffers.push(
            VertexBufferLayoutDesc {
                array_stride: 48,
                step_mode: VertexStepModeDesc::Instance,
                attributes: instance_attributes,
            },
        );
        let mut layout: Vec<LayoutId> = Vec::new();
        layout.push(self.view_layout);
        layout.push(self.uniform_layout);
        let mut fragment_defs: Vec<String> = Vec::new();
        fragment_defs.push(String::from_str("SIXTEEN_BYTE_ALIGNMENT"));
        let mut targets: Vec<Option<ColorTargetStateDesc>> = Vec::new();
        targets.push(
            Some(
                ColorTargetStateDesc {
                    format: TextureFormatDesc::Rgba8UnormSrgb,
                    blend: Some(BlendStateDesc::AlphaBlending),
                    write_mask: ColorWritesDesc::All,
                },
            ),
        );
        let r = PipelineDescriptor {
            label: Some(String::from_str("my pipeline")),
            layout,
            vertex: VertexStateDesc {
                shader: self.shader,
                shader_defs: Vec::new(),
                entry_point: String::from_str("vertex"),
                buffers,
            },
            fragment: Some(
                FragmentStateDesc {
                    shader: self.shader,
                    shader_defs: fragment_defs,
                    entry_point: String::from_str("fragment"),
                    targets,
                },
            ),
            primitive: PrimitiveStateDesc {
                topology: PrimitiveTopologyDesc::TriangleList,
                front_face: FrontFaceDesc::Ccw,
                cull_mode: None,
                unclipped_depth: false,
                polygon_mode: PolygonModeDesc::Fill,
                conservative: false,
                strip_index_format: None,
            },
            depth_stencil: Some(
                DepthStencilStateDesc {
                    format: TextureFormatDesc::Depth32Float,
                    depth_write_enabled: false,
                    depth_compare: CompareFunctionDesc::Always,
                    stencil: StencilStateDesc {
                        front: StencilFaceStateDesc::Ignore,
                        back: StencilFaceStateDesc::Ignore,
                        read_mask: 0,
                        write_mask: 0,
                    },
                    bias: DepthBiasStateDesc {
                        constant: 0,
                        slope_scale: Scalar { bits: 0 },
                        clamp: Scalar { bits: 0 },
                    },
                },
            ),
            multisample: MultisampleStateDesc {
                count: MULTISAMPLE_SAMPLE_COUNT,
                mask: 0xFFFF_FFFF_FFFF_FFFFu64,
                alpha_to_coverage_enabled: false,
            },
            zero_initialize_workgroup_memory: true,
        };
        proof {
            assert(r.layout@ =~= seq![self.view_layout, self.uniform_layout]);
            assert(r.vertex.buffers@[0].attributes@ =~= seq![
                (VertexAttributeDesc {
                    format: VertexFormatDesc::Float32x3,
                    offset: 0,
                    shader_location: 0,
                }),
            ]);
            assert(r.vertex.buffers@[1].attributes@ =~= seq![
                (VertexAttributeDesc {
                    format: VertexFormatDesc::Float32x4,
                    offset: 0,
                    shader_location: 1,
                }),
                (VertexAttributeDesc {
                    format: VertexFormatDesc::Float32x4,
                    offset: 16,
                    shader_location: 2,
                }),
                (VertexAttributeDesc {
                    format: VertexFormatDesc::Float32x4,
                    offset: 32,
                    shader_location: 3,
                }),
            ]);
            assert(r.fragment matches Some(f) && f.targets@ =~= seq![
                Some(
                    ColorTargetStateDesc {
                        format: TextureFormatDesc::Rgba8UnormSrgb,
                        blend: Some(BlendStateDesc::AlphaBlending),
                        write_mask: ColorWritesDesc::All,
                    },
                ),
            ]);
        }
        r
    }
}

/// The pipeline cache: pipeline state objects already built, keyed by their
/// specialization key. Handles are indices into the build order, so a key's
/// handle never changes once issued; repeated requests are idempotent and the
/// first build wins.
pub struct SpecializedPipelines {
    pub keys: Vec<CustomPipelineKey>,
    pub descriptors: Vec<PipelineDescriptor>,
}

impl SpecializedPipelines {
    /// One descriptor per key, each key cached at most once.
    pub open spec fn wf(self) -> bool {
        &&& self.keys@.len() == self.descriptors@.len()
        &&& forall|i: int, j: int|
            0 <= i < j < self.keys@.len() ==> self.keys@[i] != self.keys@[j]
    }

    pub open spec fn contains_key(self, k: CustomPipelineKey) -> bool {
        self.keys@.contains(k)
    }

    /// The slot a cached key occupies; meaningful only when the key is
    /// cached (unique then, by well-formedness).
    pub open spec fn key_slot(self, k: CustomPipelineKey) -> int {
        choose|i: int| 0 <= i < self.keys@.len() && self.keys@[i] == k
    }

    /// The handle a request for this key returns: the cached slot, or the
    /// next free slot when the key is not cached yet.
    pub open spec fn resolved_id(self, k: CustomPipelineKey) -> PipelineId {
        if self.contains_key(k) {
            PipelineId(self.key_slot(k) as u64)
        } else {
            PipelineId(self.keys@.len() as u64)
        }
    }

    /// Whether a handle refers to a built pipeline.
    pub open spec fn contains_id(self, id: PipelineId) -> bool {
        id.0 < self.descriptors@.len()
    }

    /// The configuration behind a handle.
    pub open spec fn descriptor_of(self, id: PipelineId) -> PipelineDescriptor {
        self.descriptors@[id.0 as int]
    }

    /// An empty cache.
    pub fn new() -> (r: SpecializedPipelines)
        ensures
            r.wf(),
            r.keys@.len() == 0,
            r.descriptors@.len() == 0,
    {
        SpecializedPipelines { keys: Vec::new(), descriptors: Vec::new() }
    }

    /// The number of built pipelines.
    pub fn len(&self) -> (n: usize)
        ensures
            n == self.descriptors@.len(),
    {
        self.descriptors.len()
    }

    /// Return the handle for a key, building and caching its configuration
    /// on first use. Requests for a cached key change nothing and return the
    /// handle issued at the first request, so repeated requests cannot
    /// produce divergent or duplicate objects.
    pub fn specialize(&mut self, pipeline: &CustomPipeline, key: CustomPipelineKey) -> (id:
        PipelineId)
        requires
            old(self).wf(),
            old(self).keys@.len() < 0x1000_0000,
        ensures
            final(self).wf(),
            id == old(self).resolved_id(key),
            final(self).contains_key(key),
            final(self).contains_id(id),
            final(self).resolved_id(key) == id,
            old(self).contains_key(key) ==> *final(self) == *old(self),
            !old(self).contains_key(key) ==> {
                &&& final(self).keys@ == old(self).keys@.push(key)
                &&& final(self).descriptors@.len() == old(self).descriptors@.len() + 1
                &&& forall|i: int|
                    0 <= i < old(self).descriptors@.len() ==> final(self).descriptors@[i]
                        == old(self).descriptors@[i]
                &&& descriptor_matches(
                    final(self).descriptors@[old(self).descriptors@.len() as int],
                    *pipeline,
                )
            },
    {
        let mut i: usize = 0;
        while i < self.keys.len()
            invariant
                *self == *old(self),
                self.wf(),
                i <= self.keys@.len(),
                forall|j: int| 0 <= j < i ==> self.keys@[j] != key,
            decreases self.keys@.len() - i,
        {
            if self.keys[i] == key {
                proof {
                    lemma_cached_key_slot(*self, key, i as int);
                }
                return PipelineId(i as u64);
            }
            i += 1;
        }
        proof {
            assert(!self.contains_key(key));
        }
        let descriptor = pipeline.specialize(key);
        let id = PipelineId(self.keys.len() as u64);
        self.keys.push(key);
        self.descriptors.push(descriptor);
        proof {
            let n = old(self).keys@.len() as int;
            assert(self.keys@[n] == key);
            assert(forall|a: int, b: int|
                0 <= a < b < self.keys@.len() ==> self.keys@[a] != self.keys@[b]);
            lemma_cached_key_slot(*self, key, n);
        }
        id
    }

    /// Look a handle up, as command encoding does before binding: the
    /// configuration if the handle refers to a built pipeline.
    pub fn get(&self, id: PipelineId) -> (r: Option<&PipelineDescriptor>)
        ensures
            match r {
                Some(d) => self.contains_id(id) && *d == self.descriptor_of(id),
                None => !self.contains_id(id),
            },
    {
        if id.0 < self.descriptors.len() as u64 {
            Some(&self.descriptors[id.0 as usize])
        } else {
            None
        }
    }
}

/// How the cache may differ across one stage that specializes one key: it
/// is unchanged, or that key was cached once, at the end, with a
/// configuration built from the given ingredients. First build wins; nothing
/// already cached moves or changes.
pub open spec fn cache_evolved(
    a: SpecializedPipelines,
    b: SpecializedPipelines,
    p: CustomPipeline,
    k: CustomPipelineKey,
) -> bool {
    ||| b == a
    ||| {
        &&& !a.contains_key(k)
        &&& b.keys@ == a.keys@.push(k)
        &&& b.descriptors@.len() == a.descriptors@.len() + 1
        &&& forall|i: int| 0 <= i < a.descriptors@.len() ==> b.descriptors@[i] == a.descriptors@[i]
        &&& descriptor_matches(b.descriptors@[a.descriptors@.len() as int], p)
    }
}

/// Cache evolution keeps well-formedness and the handle a key resolves to.
pub proof fn lemma_cache_evolved_resolved(
    a: SpecializedPipelines,
    b: SpecializedPipelines,
    p: CustomPipeline,
    k: CustomPipelineKey,
)
    requires
        a.wf(),
        cache_evolved(a, b, p, k),
    ensures
        b.wf(),
        b.keys@.len() <= a.keys@.len() + 1,
        b.resolved_id(k) == a.resolved_id(k),
{
    if b == a {
    } else {
        let n = a.keys@.len() as int;
        assert(b.keys@[n] == k);
        assert forall|i: int, j: int|
            0 <= i < j < b.keys@.len() implies b.keys@[i] != b.keys@[j] by {
            if j < n {
                assert(a.keys@[i] != a.keys@[j]);
            } else {
                assert(b.keys@[i] == a.keys@[i]);
                assert(!a.keys@.contains(k));
                if a.keys@[i] == k {
                    assert(a.keys@.contains(k));
                }
            }
        }
        lemma_cached_key_slot(b, k, n);
    }
}

/// One more specialization request on an evolved cache leaves it evolved
/// from the same starting point: either it hit the cached key, or it was the
/// first to cache it.
pub proof fn lemma_cache_evolved_step(
    a: SpecializedPipelines,
    b: SpecializedPipelines,
    c: SpecializedPipelines,
    p: CustomPipeline,
    k: CustomPipelineKey,
)
    requires
        a.wf(),
        cache_evolved(a, b, p, k),
        b.contains_key(k) ==> c == b,
        !b.contains_key(k) ==> {
            &&& c.keys@ == b.keys@.push(k)
            &&& c.descriptors@.len() == b.descriptors@.len() + 1
            &&& forall|i: int| 0 <= i < b.descriptors@.len() ==> c.descriptors@[i] == b.descriptors@[i]
            &&& descriptor_matches(c.descriptors@[b.descriptors@.len() as int], p)
        },
    ensures
        cache_evolved(a, c, p, k),
{
    if b == a {
        if b.contains_key(k) {
            assert(c == a);
        }
    } else {
        let n = a.keys@.len() as int;
        assert(b.keys@[n] == k);
        assert(b.contains_key(k));
        assert(c == b);
    }
}

/// A key found at a slot of a well-formed cache resolves to that slot.
pub proof fn lemma_cached_key_slot(c: SpecializedPipelines, k: CustomPipelineKey, i: int)
    requires
        c.wf(),
        0 <= i < c.keys@.len(),
        c.keys@[i] == k,
    ensures
        c.contains_key(k),
        c.resolved_id(k) == PipelineId(i as u64),
{
    assert(c.keys@.contains(k));
    let s = c.key_slot(k);
    assert(0 <= s < c.keys@.len() && c.keys@[s] == k);
    if s != i {
        if s < i {
            assert(c.keys@[s] != c.keys@[i]);
        } else {
            assert(c.keys@[i] != c.keys@[s]);
        }
        assert(false);
    }
}

} // verus!
