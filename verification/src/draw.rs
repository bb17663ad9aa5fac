//! Queueing the batches of a frame and recording the instanced draw.

use crate::buffers::{BufferHandle, InstanceBuffer};
use crate::ground::Point3;
use crate::pipeline::{
    CachedRenderPipelineId, MeshPipelineKey, PrimitiveTopology, SpecializedMeshPipelineError,
    VertexBufferLayout,
};
use crate::units::ONE;
use vstd::prelude::*;

verus! {

/// Names a scene object.
#[derive(Clone, Copy, Debug, PartialEq, Eq, Structural)]
pub struct Entity(pub u64);

/// Names a mesh: its slot in [`RenderMeshes`].
#[derive(Clone, Copy, Debug, PartialEq, Eq, Structural)]
pub struct MeshHandle(pub usize);

/// Width of the indices in an index buffer.
#[derive(Clone, Copy, Debug, PartialEq, Eq, Structural)]
pub enum IndexFormat {
    Uint16,
    Uint32,
}

/// How a mesh on the device is drawn: through an index buffer or vertex
/// after vertex.
#[derive(Clone, Copy, Debug, PartialEq, Eq, Structural)]
pub enum GpuBufferInfo {
    Indexed { buffer: BufferHandle, index_format: IndexFormat, count: u32 },
    NonIndexed { vertex_count: u32 },
}

/// A mesh on the device.
#[derive(Debug)]
pub struct GpuMesh {
    pub vertex_buffer: BufferHandle,
    pub buffer_info: GpuBufferInfo,
    pub primitive_topology: PrimitiveTopology,
    pub layout: VertexBufferLayout,
}

/// The meshes that are on the device, each in the slot of its handle.
pub struct RenderMeshes {
    pub slots: Vec<Option<GpuMesh>>,
}

impl RenderMeshes {
    /// The mesh that `handle` names, if it is on the device.
    pub open spec fn mesh_of(&self, handle: MeshHandle) -> Option<GpuMesh> {
        if handle.0 < self.slots@.len() {
            self.slots@[handle.0 as int]
        } else {
            None
        }
    }

    /// The mesh that `handle` names, if it is on the device.
    pub fn get(&self, handle: MeshHandle) -> (found: Option<&GpuMesh>)
        ensures
            match found {
                Some(mesh) => self.mesh_of(handle) == Some(*mesh),
                None => self.mesh_of(handle) is None,
            },
    {
        if handle.0 < self.slots.len() {
            self.slots[handle.0].as_ref()
        } else {
            None
        }
    }
}

/// One command recorded into a render pass.
#[derive(Clone, Copy, Debug, PartialEq, Eq, Structural)]
pub enum PassCommand {
    SetVertexBuffer { slot: u32, buffer: BufferHandle },
    SetIndexBuffer { buffer: BufferHandle, offset: u64, index_format: IndexFormat },
    /// Draws indices `0 .. indices` for instances `0 .. instances`.
    DrawIndexed { indices: u32, base_vertex: i32, instances: u32 },
    /// Draws vertices `0 .. vertices` for instances `0 .. instances`.
    Draw { vertices: u32, instances: u32 },
}

/// Whether a draw command could do its work.
#[derive(Clone, Copy, Debug, PartialEq, Eq, Structural)]
pub enum RenderCommandResult {
    Success,
    Failure,
}

/// The commands that draw a batch: the mesh's vertices in slot 0, the
/// instances in slot 1, then one draw over all instances, indexed where
/// the mesh has indices. A batch without instances records nothing, and
/// neither does one whose mesh or instance buffer is missing.
pub open spec fn recorded(gpu_mesh: Option<&GpuMesh>, instance_buffer: Option<&InstanceBuffer>) -> Seq<
    PassCommand,
> {
    match (gpu_mesh, instance_buffer) {
        (Some(mesh), Some(instances)) => if instances.instances() == 0 {
            Seq::empty()
        } else {
            let streams = seq![
                PassCommand::SetVertexBuffer { slot: 0, buffer: mesh.vertex_buffer },
                PassCommand::SetVertexBuffer { slot: 1, buffer: instances.handle() },
            ];
            match mesh.buffer_info {
                GpuBufferInfo::Indexed { buffer, index_format, count } => streams + seq![
                    PassCommand::SetIndexBuffer { buffer, offset: 0, index_format },
                    PassCommand::DrawIndexed {
                        indices: count,
                        base_vertex: 0,
                        instances: instances.instances() as u32,
                    },
                ],
                GpuBufferInfo::NonIndexed { vertex_count } => streams + seq![
                    PassCommand::Draw {
                        vertices: vertex_count,
                        instances: instances.instances() as u32,
                    },
                ],
            }
        },
        _ => Seq::empty(),
    }
}

/// The draw command of an instanced batch.
#[derive(Clone, Copy, Debug, PartialEq, Eq, Structural)]
pub struct DrawMeshInstanced;

impl DrawMeshInstanced {
    /// Records the draw of one batch at the end of `pass`.
    ///
    /// Fails, recording nothing, when the mesh or the instance buffer is
    /// missing. A batch without instances succeeds and records nothing.
    pub fn render(
        gpu_mesh: Option<&GpuMesh>,
        instance_buffer: Option<&InstanceBuffer>,
        pass: &mut Vec<PassCommand>,
    ) -> (result: RenderCommandResult)
        ensures
            final(pass)@ == old(pass)@ + recorded(gpu_mesh, instance_buffer),
            result == RenderCommandResult::Failure <==> gpu_mesh is None || instance_buffer
                is None,
            result == RenderCommandResult::Success <==> gpu_mesh is Some && instance_buffer
                is Some,
    {
        let mesh = match gpu_mesh {
            Some(mesh) => mesh,
            None => {
                return RenderCommandResult::Failure;
            },
        };
        let instances = match instance_buffer {
            Some(instances) => instances,
            None => {
                return RenderCommandResult::Failure;
            },
        };
        let length: usize = instances.length();
        if length == 0 {
            return RenderCommandResult::Success;
        }
        pass.push(PassCommand::SetVertexBuffer { slot: 0, buffer: mesh.vertex_buffer });
        pass.push(PassCommand::SetVertexBuffer { slot: 1, buffer: instances.buffer() });
        match mesh.buffer_info {
            GpuBufferInfo::Indexed { buffer, index_format, count } => {
                pass.push(PassCommand::SetIndexBuffer { buffer, offset: 0, index_format });
                pass.push(
                    PassCommand::DrawIndexed {
                        indices: count,
                        base_vertex: 0,
                        instances: length as u32,
                    },
                );
            },
            GpuBufferInfo::NonIndexed { vertex_count } => {
                pass.push(PassCommand::Draw { vertices: vertex_count, instances: length as u32 });
            },
        }
        RenderCommandResult::Success
    }
}

/// Measures how deep a point lies in front of a view: the row of the
/// view's inverse transform that yields camera-space depth.
#[derive(Clone, Copy, Debug, PartialEq, Eq, Structural)]
pub struct ViewRangefinder3d {
    pub x: i32,
    pub y: i32,
    pub z: i32,
    pub w: i32,
}

impl ViewRangefinder3d {
    /// Camera-space depth of `translation`, in steps of `1 / (ONE * ONE)`
    /// world units: the row times the point, without any rounding.
    pub open spec fn depth(self, translation: Point3) -> int {
        self.x * translation.x + self.y * translation.y + self.z * translation.z + self.w * ONE
    }

    /// Camera-space depth of `translation`.
    pub fn distance(&self, translation: &Point3) -> (depth: i128)
        ensures
            depth == self.depth(*translation),
    {
        let x: i128 = widened_product(self.x, translation.x);
        let y: i128 = widened_product(self.y, translation.y);
        let z: i128 = widened_product(self.z, translation.z);
        let w: i128 = widened_product(self.w, ONE as i32);
        x + y + z + w
    }
}

fn widened_product(a: i32, b: i32) -> (product: i128)
    ensures
        product == a * b,
        -0x4000_0000_0000_0000 <= product <= 0x4000_0000_0000_0000,
{
    assert(-0x4000_0000_0000_0000 <= a * b <= 0x4000_0000_0000_0000) by (nonlinear_arith)
        requires
            -0x8000_0000 <= a <= 0x7FFF_FFFF,
            -0x8000_0000 <= b <= 0x7FFF_FFFF,
    ;
    (a as i128) * (b as i128)
}

/// A view that the frame renders.
#[derive(Clone, Copy, Debug, PartialEq, Eq, Structural)]
pub struct ExtractedView {
    pub hdr: bool,
    pub rangefinder: ViewRangefinder3d,
}

/// A batch as the queue stage sees it: its entity, where its transform
/// puts it, and the mesh that all its instances share.
#[derive(Clone, Copy, Debug, PartialEq, Eq, Structural)]
pub struct MaterialMesh {
    pub entity: Entity,
    pub translation: Point3,
    pub mesh: MeshHandle,
}

/// A batch chosen for a view, not yet tied to a pipeline variant.
#[derive(Clone, Copy, Debug, PartialEq, Eq, Structural)]
pub struct QueuedBatch {
    pub entity: Entity,
    pub mesh: MeshHandle,
    /// Selects the pipeline variant together with the mesh's layout.
    pub key: MeshPipelineKey,
    /// Camera-space depth of the batch, the key that sorts the draw list.
    pub distance: i128,
}

/// The entry that queues `batch`, whose mesh has `topology`, for `view`.
pub open spec fn queued_batch(
    msaa_samples: u32,
    view: ExtractedView,
    batch: MaterialMesh,
    topology: PrimitiveTopology,
) -> QueuedBatch {
    QueuedBatch {
        entity: batch.entity,
        mesh: batch.mesh,
        key: MeshPipelineKey { msaa_samples, hdr: view.hdr, primitive_topology: topology },
        distance: view.rangefinder.depth(batch.translation) as i128,
    }
}

/// What one view queues: an entry for every batch whose mesh is on the
/// device, in the order of the batches. Where a batch stands plays no part:
/// batches are never culled.
pub open spec fn queued_for_view(
    msaa_samples: u32,
    view: ExtractedView,
    batches: Seq<MaterialMesh>,
    meshes: &RenderMeshes,
) -> Seq<QueuedBatch>
    decreases batches.len(),
{
    if batches.len() == 0 {
        Seq::empty()
    } else {
        let earlier = queued_for_view(msaa_samples, view, batches.drop_last(), meshes);
        match meshes.mesh_of(batches.last().mesh) {
            Some(mesh) => earlier.push(
                queued_batch(msaa_samples, view, batches.last(), mesh.primitive_topology),
            ),
            None => earlier,
        }
    }
}

fn queue_view(
    msaa_samples: u32,
    view: &ExtractedView,
    material_meshes: &Vec<MaterialMesh>,
    meshes: &RenderMeshes,
) -> (queued: Vec<QueuedBatch>)
    ensures
        queued@ == queued_for_view(msaa_samples, *view, material_meshes@, meshes),
{
    let mut queued: Vec<QueuedBatch> = Vec::new();
    let n: usize = material_meshes.len();
    let mut i: usize = 0;
    while i < n
        invariant
            n == material_meshes@.len(),
            i <= n,
            queued@ == queued_for_view(
                msaa_samples,
                *view,
                material_meshes@.take(i as int),
                meshes,
            ),
        decreases n - i,
    {
        let batch = material_meshes[i];
        proof {
            let next = material_meshes@.take(i + 1);
            assert(next.drop_last() =~= material_meshes@.take(i as int));
        }
        match meshes.get(batch.mesh) {
            Some(mesh) => {
                queued.push(
                    QueuedBatch {
                        entity: batch.entity,
                        mesh: batch.mesh,
                        key: MeshPipelineKey {
                            msaa_samples,
                            hdr: view.hdr,
                            primitive_topology: mesh.primitive_topology,
                        },
                        distance: view.rangefinder.distance(&batch.translation),
                    },
                );
            },
            None => {},
        }
        i += 1;
    }
    assert(material_meshes@.take(n as int) =~= material_meshes@);
    queued
}

/// Builds the draw list of every view: for each view, in order, what
/// [`queued_for_view`] says.
pub fn queue_custom(
    msaa_samples: u32,
    views: &Vec<ExtractedView>,
    material_meshes: &Vec<MaterialMesh>,
    meshes: &RenderMeshes,
) -> (phases: Vec<Vec<QueuedBatch>>)
    ensures
        phases@.len() == views@.len(),
        forall|v: int|
            0 <= v < views@.len() ==> (#[trigger] phases@[v])@ == queued_for_view(
                msaa_samples,
                views@[v],
                material_meshes@,
                meshes,
            ),
{
    let mut phases: Vec<Vec<QueuedBatch>> = Vec::new();
    let n: usize = views.len();
    let mut v: usize = 0;
    while v < n
        invariant
            n == views@.len(),
            v <= n,
            phases@.len() == v,
            forall|k: int|
                0 <= k < v ==> (#[trigger] phases@[k])@ == queued_for_view(
                    msaa_samples,
                    views@[k],
                    material_meshes@,
                    meshes,
                ),
        decreases n - v,
    {
        phases.push(queue_view(msaa_samples, &views[v], material_meshes, meshes));
        v += 1;
    }
    phases
}

/// Names the function that draws an item of the transparent phase.
#[derive(Clone, Copy, Debug, PartialEq, Eq, Structural)]
pub struct DrawFunctionId(pub u32);

/// One item of a view's transparent draw list.
#[derive(Clone, Copy, Debug, PartialEq, Eq, Structural)]
pub struct Transparent3d {
    pub entity: Entity,
    pub pipeline: CachedRenderPipelineId,
    pub draw_function: DrawFunctionId,
    pub distance: i128,
}

impl Transparent3d {
    /// Ties a queued batch to its pipeline variant. A batch whose variant
    /// could not be made is left out of this frame's draw list.
    pub fn for_batch(
        batch: &QueuedBatch,
        pipeline: Result<CachedRenderPipelineId, SpecializedMeshPipelineError>,
        draw_function: DrawFunctionId,
    ) -> (item: Option<Transparent3d>)
        ensures
            item == match pipeline {
                Ok(id) => Some(
                    Transparent3d {
                        entity: batch.entity,
                        pipeline: id,
                        draw_function,
                        distance: batch.distance,
                    },
                ),
                Err(_) => None,
            },
    {
        match pipeline {
            Ok(id) => Some(
                Transparent3d {
                    entity: batch.entity,
                    pipeline: id,
                    draw_function,
                    distance: batch.distance,
                },
            ),
            Err(_) => None,
        }
    }
}

} // verus!
