//! Instance data of a batch and the device buffers that carry it.
//!
//! Nothing here talks to the device. [`upload_request`] says which buffer a
//! batch needs, the caller allocates it, and [`upload`] takes the outcome.

use crate::instancing::GrassInstanceData;
use vstd::prelude::*;

verus! {

/// Bytes that one instance takes in the instance stream: position and scale
/// as four 32-bit floats, then the colour as four more.
pub const INSTANCE_STRIDE: u64 = 32;

/// Usage bit of a buffer that can receive copies.
pub const USAGE_COPY_DST: u32 = 8;

/// Usage bit of a buffer that can feed a vertex stream.
pub const USAGE_VERTEX: u32 = 32;

/// Debug label of every instance buffer.
pub const INSTANCE_BUFFER_LABEL: &'static str = "instance data buffer";

/// Names a buffer that lives on the device.
#[derive(Clone, Copy, Debug, PartialEq, Eq, Structural)]
pub struct BufferHandle(pub u64);

/// The device could not provide a buffer.
#[derive(Clone, Copy, Debug, PartialEq, Eq, Structural)]
pub struct DeviceOutOfMemory;

/// The instances of one batch, in the order they were generated.
#[derive(Debug)]
pub struct GrassInstanceMaterialData(pub Vec<GrassInstanceData>);

impl View for GrassInstanceMaterialData {
    type V = Seq<GrassInstanceData>;

    open spec fn view(&self) -> Seq<GrassInstanceData> {
        self.0@
    }
}

impl GrassInstanceMaterialData {
    /// Copies the instances for the render side, order kept.
    pub fn extract_component(item: &GrassInstanceMaterialData) -> (copy: GrassInstanceMaterialData)
        ensures
            copy@ == item@,
    {
        let mut instances: Vec<GrassInstanceData> = Vec::new();
        let n: usize = item.0.len();
        let mut i: usize = 0;
        while i < n
            invariant
                n == item.0@.len(),
                i <= n,
                instances@ == item.0@.take(i as int),
            decreases n - i,
        {
            instances.push(item.0[i]);
            i += 1;
        }
        GrassInstanceMaterialData(instances)
    }

    /// Number of instances in the batch.
    pub fn len(&self) -> (n: usize)
        ensures
            n == self@.len(),
    {
        self.0.len()
    }
}

/// The buffer that a batch needs from the device.
#[derive(Clone, Copy, Debug, PartialEq, Eq, Structural)]
pub struct BufferRequest {
    /// Size in bytes.
    pub size: u64,
    /// Usage bits: a vertex source that can also receive copies.
    pub usage: u32,
    /// Instances the buffer holds.
    pub instances: u32,
}

/// The usage bits of an instance buffer.
///
/// Trusted: asks `wgpu_types::BufferUsages` for `VERTEX | COPY_DST` and
/// claims the two bits that the crate's source gives those flags, `1 << 5`
/// and `1 << 3`.
#[verifier::external_body]
fn vertex_copy_dst_usage() -> (bits: u32)
    ensures
        bits == USAGE_VERTEX + USAGE_COPY_DST,
{
    (wgpu_types::BufferUsages::VERTEX | wgpu_types::BufferUsages::COPY_DST).bits()
}

/// Says which buffer holds `instances`: [`INSTANCE_STRIDE`] bytes for each,
/// usable as a vertex source and as a copy destination. A batch with more
/// instances than one draw can count is more than the device can hold.
pub fn upload_request(instances: &GrassInstanceMaterialData) -> (request: Result<
    BufferRequest,
    DeviceOutOfMemory,
>)
    ensures
        request is Ok <==> instances@.len() <= u32::MAX,
        request matches Ok(r) ==> {
            &&& r.size == INSTANCE_STRIDE * instances@.len()
            &&& r.usage == USAGE_VERTEX + USAGE_COPY_DST
            &&& r.instances == instances@.len()
        },
{
    let n: usize = instances.len();
    if n > u32::MAX as usize {
        return Err(DeviceOutOfMemory);
    }
    Ok(
        BufferRequest {
            size: INSTANCE_STRIDE * (n as u64),
            usage: vertex_copy_dst_usage(),
            instances: n as u32,
        },
    )
}

/// Says which buffer each batch needs, batch by batch.
pub fn prepare_instance_buffers(batches: &Vec<GrassInstanceMaterialData>) -> (requests: Vec<
    Result<BufferRequest, DeviceOutOfMemory>,
>)
    ensures
        requests@.len() == batches@.len(),
        forall|i: int|
            0 <= i < batches@.len() ==> {
                &&& #[trigger] requests@[i] is Ok <==> batches@[i]@.len() <= u32::MAX
                &&& requests@[i] matches Ok(r) ==> {
                    &&& r.size == INSTANCE_STRIDE * batches@[i]@.len()
                    &&& r.usage == USAGE_VERTEX + USAGE_COPY_DST
                    &&& r.instances == batches@[i]@.len()
                }
            },
{
    let mut requests: Vec<Result<BufferRequest, DeviceOutOfMemory>> = Vec::new();
    let n: usize = batches.len();
    let mut i: usize = 0;
    while i < n
        invariant
            n == batches@.len(),
            i <= n,
            requests@.len() == i,
            forall|k: int|
                0 <= k < i ==> {
                    &&& #[trigger] requests@[k] is Ok <==> batches@[k]@.len() <= u32::MAX
                    &&& requests@[k] matches Ok(r) ==> {
                        &&& r.size == INSTANCE_STRIDE * batches@[k]@.len()
                        &&& r.usage == USAGE_VERTEX + USAGE_COPY_DST
                        &&& r.instances == batches@[k]@.len()
                    }
                },
        decreases n - i,
    {
        requests.push(upload_request(&batches[i]));
        i += 1;
    }
    requests
}

/// A batch's instances on the device: the buffer and how many instances
/// were in the batch when it was filled.
#[derive(Clone, Copy, Debug)]
pub struct InstanceBuffer {
    buffer: BufferHandle,
    length: usize,
}

impl InstanceBuffer {
    #[verifier::type_invariant]
    spec fn countable(self) -> bool {
        self.length <= u32::MAX
    }

    /// The device buffer.
    pub closed spec fn handle(self) -> BufferHandle {
        self.buffer
    }

    /// Instances in the buffer.
    pub closed spec fn instances(self) -> nat {
        self.length as nat
    }

    /// The device buffer.
    pub fn buffer(&self) -> (handle: BufferHandle)
        ensures
            handle == self.handle(),
    {
        self.buffer
    }

    /// Instances in the buffer; one draw can count them.
    pub fn length(&self) -> (n: usize)
        ensures
            n == self.instances(),
            n <= u32::MAX,
    {
        proof {
            use_type_invariant(self);
        }
        self.length
    }
}

/// Takes the outcome of the allocation that [`upload_request`] asked for.
///
/// The buffer counts exactly the instances that the batch holds now. A
/// failed allocation is handed on, and so is a batch too large to request.
pub fn upload(
    instances: &GrassInstanceMaterialData,
    allocation: Result<BufferHandle, DeviceOutOfMemory>,
) -> (uploaded: Result<InstanceBuffer, DeviceOutOfMemory>)
    ensures
        uploaded is Ok <==> allocation is Ok && instances@.len() <= u32::MAX,
        uploaded matches Ok(b) ==> {
            &&& allocation == Ok::<BufferHandle, DeviceOutOfMemory>(b.handle())
            &&& b.instances() == instances@.len()
        },
{
    let n: usize = instances.len();
    match allocation {
        Ok(buffer) => {
            if n > u32::MAX as usize {
                Err(DeviceOutOfMemory)
            } else {
                Ok(InstanceBuffer { buffer, length: n })
            }
        },
        Err(e) => Err(e),
    }
}

/// One buffer slot per batch, indexed by the batch's number.
pub struct InstanceBuffers {
    slots: Vec<Option<InstanceBuffer>>,
}

impl InstanceBuffers {
    /// The buffer that batch `batch` owns, if it owns one.
    pub closed spec fn buffer_of(&self, batch: int) -> Option<InstanceBuffer> {
        if 0 <= batch < self.slots@.len() {
            self.slots@[batch]
        } else {
            None
        }
    }

    /// No batch owns a buffer.
    pub fn new() -> (buffers: InstanceBuffers)
        ensures
            forall|batch: int| buffers.buffer_of(batch) is None,
    {
        InstanceBuffers { slots: Vec::new() }
    }

    /// The buffer that batch `batch` owns, if it owns one.
    pub fn get(&self, batch: usize) -> (found: Option<InstanceBuffer>)
        ensures
            found == self.buffer_of(batch as int),
    {
        if batch < self.slots.len() {
            self.slots[batch]
        } else {
            None
        }
    }

    /// Gives batch `batch` a new buffer. The buffer it owned before, if
    /// any, comes back for the caller to release; no other batch changes.
    pub fn replace(&mut self, batch: usize, buffer: InstanceBuffer) -> (released: Option<
        BufferHandle,
    >)
        ensures
            final(self).buffer_of(batch as int) == Some(buffer),
            forall|other: int|
                other != batch ==> final(self).buffer_of(other) == old(self).buffer_of(other),
            released == match old(self).buffer_of(batch as int) {
                Some(b) => Some(b.handle()),
                None => None,
            },
    {
        while self.slots.len() <= batch
            invariant
                old(self).slots@.len() <= self.slots@.len(),
                forall|i: int|
                    0 <= i < self.slots@.len() ==> self.slots@[i] == (if i < old(
                        self,
                    ).slots@.len() {
                        old(self).slots@[i]
                    } else {
                        None
                    }),
            decreases batch + 1 - self.slots@.len(),
        {
            self.slots.push(None);
        }
        let released = match self.slots[batch] {
            Some(b) => Some(b.buffer),
            None => None,
        };
        self.slots.set(batch, Some(buffer));
        released
    }

    /// Takes the buffer of batch `batch` away, for the caller to release.
    pub fn remove(&mut self, batch: usize) -> (released: Option<BufferHandle>)
        ensures
            final(self).buffer_of(batch as int) is None,
            forall|other: int|
                other != batch ==> final(self).buffer_of(other) == old(self).buffer_of(other),
            released == match old(self).buffer_of(batch as int) {
                Some(b) => Some(b.handle()),
                None => None,
            },
    {
        if batch < self.slots.len() {
            let released = match self.slots[batch] {
                Some(b) => Some(b.buffer),
                None => None,
            };
            self.slots.set(batch, None);
            released
        } else {
            None
        }
    }
}

} // verus!
