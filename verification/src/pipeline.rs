//! The pipeline variant that draws one mesh many times: the base mesh's
//! vertex stream plus a second stream that advances once per instance.

use crate::buffers::INSTANCE_STRIDE;
use vstd::prelude::*;

verus! {

/// Names a shader program.
#[derive(Clone, Copy, Debug, PartialEq, Eq, Structural)]
pub struct ShaderHandle(pub u64);

/// Format of one vertex attribute.
#[derive(Clone, Copy, Debug, PartialEq, Eq, Structural)]
pub enum VertexFormat {
    Uint8x2,
    Uint8x4,
    Sint8x2,
    Sint8x4,
    Unorm8x2,
    Unorm8x4,
    Snorm8x2,
    Snorm8x4,
    Uint16x2,
    Uint16x4,
    Sint16x2,
    Sint16x4,
    Unorm16x2,
    Unorm16x4,
    Snorm16x2,
    Snorm16x4,
    Float16x2,
    Float16x4,
    Float32,
    Float32x2,
    Float32x3,
    Float32x4,
    Uint32,
    Uint32x2,
    Uint32x3,
    Uint32x4,
    Sint32,
    Sint32x2,
    Sint32x3,
    Sint32x4,
    Float64,
    Float64x2,
    Float64x3,
    Float64x4,
}

impl VertexFormat {
    /// Bytes that a value of the format takes: the width of a component
    /// times the number of components.
    pub open spec fn byte_size(self) -> int {
        match self {
            VertexFormat::Uint8x2
            | VertexFormat::Sint8x2
            | VertexFormat::Unorm8x2
            | VertexFormat::Snorm8x2 => 2,
            VertexFormat::Uint8x4
            | VertexFormat::Sint8x4
            | VertexFormat::Unorm8x4
            | VertexFormat::Snorm8x4
            | VertexFormat::Uint16x2
            | VertexFormat::Sint16x2
            | VertexFormat::Unorm16x2
            | VertexFormat::Snorm16x2
            | VertexFormat::Float16x2
            | VertexFormat::Float32
            | VertexFormat::Uint32
            | VertexFormat::Sint32 => 4,
            VertexFormat::Uint16x4
            | VertexFormat::Sint16x4
            | VertexFormat::Unorm16x4
            | VertexFormat::Snorm16x4
            | VertexFormat::Float16x4
            | VertexFormat::Float32x2
            | VertexFormat::Uint32x2
            | VertexFormat::Sint32x2
            | VertexFormat::Float64 => 8,
            VertexFormat::Float32x3 | VertexFormat::Uint32x3 | VertexFormat::Sint32x3 => 12,
            VertexFormat::Float32x4
            | VertexFormat::Uint32x4
            | VertexFormat::Sint32x4
            | VertexFormat::Float64x2 => 16,
            VertexFormat::Float64x3 => 24,
            VertexFormat::Float64x4 => 32,
        }
    }
}

/// Bytes that four 32-bit floats take in a vertex stream.
///
/// Trusted: calls `wgpu_types::VertexFormat::size` on `Float32x4` and
/// claims the number that the match in the crate's source returns for that
/// format, 16.
#[verifier::external_body]
fn float32x4_size() -> (bytes: u64)
    ensures
        bytes == 16,
{
    wgpu_types::VertexFormat::Float32x4.size()
}

/// How often a vertex stream moves on to its next element.
#[derive(Clone, Copy, Debug, PartialEq, Eq, Structural)]
pub enum VertexStepMode {
    /// Once per vertex.
    Vertex,
    /// Once per instance.
    Instance,
}

/// One input of the vertex stage.
#[derive(Clone, Copy, Debug, PartialEq, Eq, Structural)]
pub struct VertexAttribute {
    pub format: VertexFormat,
    /// Byte offset inside one element of the stream.
    pub offset: u64,
    pub shader_location: u32,
}

/// Layout of one vertex stream.
#[derive(Debug)]
pub struct VertexBufferLayout {
    pub array_stride: u64,
    pub step_mode: VertexStepMode,
    pub attributes: Vec<VertexAttribute>,
}

/// What a [`VertexBufferLayout`] holds.
pub struct VertexBufferLayoutView {
    pub array_stride: u64,
    pub step_mode: VertexStepMode,
    pub attributes: Seq<VertexAttribute>,
}

impl View for VertexBufferLayout {
    type V = VertexBufferLayoutView;

    open spec fn view(&self) -> VertexBufferLayoutView {
        VertexBufferLayoutView {
            array_stride: self.array_stride,
            step_mode: self.step_mode,
            attributes: self.attributes@,
        }
    }
}

impl VertexBufferLayoutView {
    /// Every attribute lies inside one element of the stream, and no two
    /// attributes share a byte.
    pub open spec fn packed(self) -> bool {
        &&& forall|i: int|
            0 <= i < self.attributes.len() ==> (#[trigger] self.attributes[i]).offset
                + self.attributes[i].format.byte_size() <= self.array_stride
        &&& forall|i: int, j: int|
            0 <= i < j < self.attributes.len() ==> (#[trigger] self.attributes[i]).offset
                + self.attributes[i].format.byte_size() <= (#[trigger] self.attributes[j]).offset
    }
}

impl VertexBufferLayout {
    /// Whether two layouts hold the same stride, step mode and attributes.
    pub fn same_as(&self, other: &VertexBufferLayout) -> (same: bool)
        ensures
            same == (self@ == other@),
    {
        if self.array_stride != other.array_stride || self.step_mode != other.step_mode {
            return false;
        }
        let n: usize = self.attributes.len();
        if n != other.attributes.len() {
            return false;
        }
        let mut i: usize = 0;
        while i < n
            invariant
                n == self.attributes@.len(),
                n == other.attributes@.len(),
                i <= n,
                forall|k: int| 0 <= k < i ==> self.attributes@[k] == other.attributes@[k],
            decreases n - i,
        {
            if self.attributes[i] != other.attributes[i] {
                return false;
            }
            i += 1;
        }
        assert(self.attributes@ =~= other.attributes@);
        true
    }
}

/// The per-instance stream: position and scale as one four-wide attribute at
/// location 1, the colour as a second at location 2, one element per
/// instance.
pub open spec fn instance_layout() -> VertexBufferLayoutView {
    VertexBufferLayoutView {
        array_stride: INSTANCE_STRIDE,
        step_mode: VertexStepMode::Instance,
        attributes: seq![
            VertexAttribute { format: VertexFormat::Float32x4, offset: 0, shader_location: 1 },
            VertexAttribute { format: VertexFormat::Float32x4, offset: 16, shader_location: 2 },
        ],
    }
}

/// The per-instance stream fills its stride exactly and without overlap.
pub proof fn lemma_instance_layout_packed()
    ensures
        instance_layout().packed(),
        instance_layout().attributes[0].format.byte_size()
            + instance_layout().attributes[1].format.byte_size() == INSTANCE_STRIDE,
{
}

/// Builds the per-instance stream's layout.
pub fn make_instance_layout() -> (layout: VertexBufferLayout)
    ensures
        layout@ == instance_layout(),
{
    let mut attributes: Vec<VertexAttribute> = Vec::new();
    attributes.push(
        VertexAttribute { format: VertexFormat::Float32x4, offset: 0, shader_location: 1 },
    );
    attributes.push(
        VertexAttribute {
            format: VertexFormat::Float32x4,
            offset: float32x4_size(),
            shader_location: 2,
        },
    );
    let layout = VertexBufferLayout {
        array_stride: INSTANCE_STRIDE,
        step_mode: VertexStepMode::Instance,
        attributes,
    };
    assert(layout@.attributes =~= instance_layout().attributes);
    layout
}

/// Why no pipeline variant could be made.
#[derive(Clone, Copy, Debug, PartialEq, Eq, Structural)]
pub enum SpecializedMeshPipelineError {
    /// The mesh lacks a vertex attribute that the base pipeline needs.
    MissingVertexAttribute,
    /// The base pipeline has no fragment stage to give the grass shader to.
    MissingFragmentStage,
}

/// What the vertex and fragment stages of a pipeline run and read.
#[derive(Debug)]
pub struct RenderPipelineDescriptor {
    pub vertex_shader: ShaderHandle,
    pub vertex_buffers: Vec<VertexBufferLayout>,
    pub fragment_shader: Option<ShaderHandle>,
}

/// What a [`RenderPipelineDescriptor`] holds.
pub struct RenderPipelineDescriptorView {
    pub vertex_shader: ShaderHandle,
    pub vertex_buffers: Seq<VertexBufferLayoutView>,
    pub fragment_shader: Option<ShaderHandle>,
}

impl View for RenderPipelineDescriptor {
    type V = RenderPipelineDescriptorView;

    open spec fn view(&self) -> RenderPipelineDescriptorView {
        RenderPipelineDescriptorView {
            vertex_shader: self.vertex_shader,
            vertex_buffers: self.vertex_buffers@.map_values(|l: VertexBufferLayout| l@),
            fragment_shader: self.fragment_shader,
        }
    }
}

/// The grass variant of a base pipeline: both stages run `shader`, and the
/// per-instance stream follows the base pipeline's own streams. A base
/// pipeline that failed stays failed; one without a fragment stage has no
/// variant.
pub open spec fn specialized(
    shader: ShaderHandle,
    base: Result<RenderPipelineDescriptorView, SpecializedMeshPipelineError>,
) -> Result<RenderPipelineDescriptorView, SpecializedMeshPipelineError> {
    match base {
        Err(e) => Err(e),
        Ok(d) => if d.fragment_shader is None {
            Err(SpecializedMeshPipelineError::MissingFragmentStage)
        } else {
            Ok(
                RenderPipelineDescriptorView {
                    vertex_shader: shader,
                    vertex_buffers: d.vertex_buffers.push(instance_layout()),
                    fragment_shader: Some(shader),
                },
            )
        },
    }
}

/// The outcome of the base pipeline, by what its descriptor holds.
pub open spec fn base_view(
    base: Result<RenderPipelineDescriptor, SpecializedMeshPipelineError>,
) -> Result<RenderPipelineDescriptorView, SpecializedMeshPipelineError> {
    match base {
        Ok(d) => Ok(d@),
        Err(e) => Err(e),
    }
}

/// The instanced grass pipeline: the shader that both of its stages run.
#[derive(Clone, Copy, Debug, PartialEq, Eq, Structural)]
pub struct CustomPipeline {
    pub shader: ShaderHandle,
}

impl CustomPipeline {
    /// A pipeline whose stages run `shader`.
    pub fn new(shader: ShaderHandle) -> (pipeline: CustomPipeline)
        ensures
            pipeline.shader == shader,
    {
        CustomPipeline { shader }
    }

    /// Turns the base mesh pipeline's descriptor into the grass variant.
    pub fn specialize(
        &self,
        base: Result<RenderPipelineDescriptor, SpecializedMeshPipelineError>,
    ) -> (variant: Result<RenderPipelineDescriptor, SpecializedMeshPipelineError>)
        ensures
            base_view(variant) == specialized(self.shader, base_view(base)),
    {
        match base {
            Err(e) => Err(e),
            Ok(mut descriptor) => {
                if descriptor.fragment_shader.is_none() {
                    return Err(SpecializedMeshPipelineError::MissingFragmentStage);
                }
                let ghost before = descriptor@;
                descriptor.vertex_shader = self.shader;
                descriptor.vertex_buffers.push(make_instance_layout());
                descriptor.fragment_shader = Some(self.shader);
                assert(descriptor@.vertex_buffers =~= before.vertex_buffers.push(
                    instance_layout(),
                ));
                Ok(descriptor)
            },
        }
    }
}

/// The way a mesh's vertices form primitives.
#[derive(Clone, Copy, Debug, PartialEq, Eq, Structural)]
pub enum PrimitiveTopology {
    PointList,
    LineList,
    LineStrip,
    TriangleList,
    TriangleStrip,
}

/// What selects a pipeline variant besides the mesh layout: the view's
/// sample count and dynamic range, and the mesh's topology.
#[derive(Clone, Copy, Debug, PartialEq, Eq, Structural)]
pub struct MeshPipelineKey {
    pub msaa_samples: u32,
    pub hdr: bool,
    pub primitive_topology: PrimitiveTopology,
}

/// Names a pipeline variant in a [`SpecializedMeshPipelines`] cache.
#[derive(Clone, Copy, Debug, PartialEq, Eq, Structural)]
pub struct CachedRenderPipelineId(pub usize);

/// One cached variant and what it was made for.
pub struct CachedPipeline {
    pub key: MeshPipelineKey,
    pub layout: VertexBufferLayout,
    pub descriptor: RenderPipelineDescriptor,
}

/// What a [`CachedPipeline`] holds.
pub struct CachedPipelineView {
    pub key: MeshPipelineKey,
    pub layout: VertexBufferLayoutView,
    pub descriptor: RenderPipelineDescriptorView,
}

impl View for CachedPipeline {
    type V = CachedPipelineView;

    open spec fn view(&self) -> CachedPipelineView {
        CachedPipelineView { key: self.key, layout: self.layout@, descriptor: self.descriptor@ }
    }
}

/// The specialization cache: every variant made so far, found again by
/// its key and mesh layout.
pub struct SpecializedMeshPipelines {
    entries: Vec<CachedPipeline>,
}

impl View for SpecializedMeshPipelines {
    type V = Seq<CachedPipelineView>;

    closed spec fn view(&self) -> Seq<CachedPipelineView> {
        self.entries@.map_values(|e: CachedPipeline| e@)
    }
}

/// Whether entry `i` of a cache was made for `key` and `layout`.
pub open spec fn made_for(
    cache: Seq<CachedPipelineView>,
    i: int,
    key: MeshPipelineKey,
    layout: VertexBufferLayoutView,
) -> bool {
    0 <= i < cache.len() && cache[i].key == key && cache[i].layout == layout
}

/// The first entry of a cache made for `key` and `layout`, if there is one.
pub open spec fn cached(
    cache: Seq<CachedPipelineView>,
    key: MeshPipelineKey,
    layout: VertexBufferLayoutView,
) -> Option<int> {
    if exists|i: int| made_for(cache, i, key, layout) {
        Some(first_made_for(cache, key, layout))
    } else {
        None
    }
}

/// The least index of an entry made for `key` and `layout`.
pub open spec fn first_made_for(
    cache: Seq<CachedPipelineView>,
    key: MeshPipelineKey,
    layout: VertexBufferLayoutView,
) -> int {
    choose|i: int|
        made_for(cache, i, key, layout) && forall|j: int|
            0 <= j < i ==> !made_for(cache, j, key, layout)
}

impl SpecializedMeshPipelines {
    /// An empty cache.
    pub fn new() -> (cache: SpecializedMeshPipelines)
        ensures
            cache@ == Seq::<CachedPipelineView>::empty(),
    {
        let cache = SpecializedMeshPipelines { entries: Vec::new() };
        cache
    }

    /// Number of variants in the cache.
    pub fn len(&self) -> (n: usize)
        ensures
            n == self@.len(),
    {
        self.entries.len()
    }

    /// Finds the variant made for `key` and `layout`.
    pub fn lookup(&self, key: MeshPipelineKey, layout: &VertexBufferLayout) -> (found: Option<
        CachedRenderPipelineId,
    >)
        ensures
            found is Some <==> exists|i: int| made_for(self@, i, key, layout@),
            found matches Some(id) ==> {
                &&& made_for(self@, id.0 as int, key, layout@)
                &&& forall|j: int| 0 <= j < id.0 ==> !made_for(self@, j, key, layout@)
            },
    {
        let n: usize = self.entries.len();
        let mut i: usize = 0;
        while i < n
            invariant
                n == self.entries@.len(),
                n == self@.len(),
                i <= n,
                forall|j: int| 0 <= j < i ==> !made_for(self@, j, key, layout@),
            decreases n - i,
        {
            if self.entries[i].key == key && self.entries[i].layout.same_as(layout) {
                assert(made_for(self@, i as int, key, layout@));
                return Some(CachedRenderPipelineId(i));
            }
            i += 1;
        }
        None
    }

    /// The descriptor of a cached variant.
    pub fn descriptor(&self, id: CachedRenderPipelineId) -> (found: Option<
        &RenderPipelineDescriptor,
    >)
        ensures
            found is Some <==> id.0 < self@.len(),
            found matches Some(d) ==> d@ == self@[id.0 as int].descriptor,
    {
        if id.0 < self.entries.len() {
            Some(&self.entries[id.0].descriptor)
        } else {
            None
        }
    }

    /// Fetches the variant for `key` and `layout`, making it on a miss.
    ///
    /// On a hit the cache stays as it is and `base` is not looked at. On a
    /// miss the variant is [`specialized`] from `base`, the outcome of the
    /// base mesh pipeline for the same key and layout; it joins the cache
    /// as its last entry, or, where there is none, the error is handed on
    /// and the cache stays as it is.
    pub fn specialize(
        &mut self,
        pipeline: &CustomPipeline,
        key: MeshPipelineKey,
        layout: VertexBufferLayout,
        base: Result<RenderPipelineDescriptor, SpecializedMeshPipelineError>,
    ) -> (variant: Result<CachedRenderPipelineId, SpecializedMeshPipelineError>)
        ensures
            match cached(old(self)@, key, layout@) {
                Some(i) => variant == Ok::<CachedRenderPipelineId, SpecializedMeshPipelineError>(
                    CachedRenderPipelineId(i as usize),
                ) && final(self)@ == old(self)@,
                None => match specialized(pipeline.shader, base_view(base)) {
                    Ok(d) => variant == Ok::<CachedRenderPipelineId, SpecializedMeshPipelineError>(
                        CachedRenderPipelineId(old(self)@.len() as usize),
                    ) && final(self)@ == old(self)@.push(
                        CachedPipelineView { key, layout: layout@, descriptor: d },
                    ),
                    Err(e) => variant == Err::<
                        CachedRenderPipelineId,
                        SpecializedMeshPipelineError,
                    >(e) && final(self)@ == old(self)@,
                },
            },
    {
        match self.lookup(key, &layout) {
            Some(id) => {
                proof {
                    lemma_first_made_for(self@, key, layout@, id.0 as int);
                }
                Ok(id)
            },
            None => match pipeline.specialize(base) {
                Ok(descriptor) => {
                    let id = CachedRenderPipelineId(self.entries.len());
                    self.entries.push(CachedPipeline { key, layout, descriptor });
                    Ok(id)
                },
                Err(e) => Err(e),
            },
        }
    }
}

/// An entry made for a key and layout with none before it is the first.
pub proof fn lemma_first_made_for(
    cache: Seq<CachedPipelineView>,
    key: MeshPipelineKey,
    layout: VertexBufferLayoutView,
    i: int,
)
    requires
        made_for(cache, i, key, layout),
        forall|j: int| 0 <= j < i ==> !made_for(cache, j, key, layout),
    ensures
        cached(cache, key, layout) == Some(i),
{
    let f = first_made_for(cache, key, layout);
    assert(made_for(cache, f, key, layout) && forall|j: int|
        0 <= j < f ==> !made_for(cache, j, key, layout));
}

} // verus!
