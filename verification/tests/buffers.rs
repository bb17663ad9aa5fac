use birdylook::buffers::{
    prepare_instance_buffers, upload, upload_request, BufferHandle, BufferRequest,
    DeviceOutOfMemory, GrassInstanceMaterialData, InstanceBuffers, INSTANCE_BUFFER_LABEL,
    INSTANCE_STRIDE, USAGE_COPY_DST, USAGE_VERTEX,
};
use birdylook::instancing::GrassInstanceData;

fn batch(n: usize) -> GrassInstanceMaterialData {
    GrassInstanceMaterialData((0..n).map(|i| GrassInstanceData::new(i as i64, 0, 0)).collect())
}

#[test]
fn instance_stream_constants() {
    assert_eq!(INSTANCE_STRIDE, 32);
    assert_eq!(USAGE_COPY_DST, wgpu_types::BufferUsages::COPY_DST.bits());
    assert_eq!(USAGE_VERTEX, wgpu_types::BufferUsages::VERTEX.bits());
    assert_eq!(INSTANCE_BUFFER_LABEL, "instance data buffer");
}

#[test]
fn upload_request_sizes_the_buffer_by_the_stride() {
    assert_eq!(
        upload_request(&batch(5)),
        Ok(BufferRequest { size: 160, usage: 40, instances: 5 })
    );
    assert_eq!(upload_request(&batch(0)), Ok(BufferRequest { size: 0, usage: 40, instances: 0 }));
}

#[test]
fn upload_request_asks_for_a_vertex_buffer_that_takes_copies() {
    let request = upload_request(&batch(1)).unwrap();
    let usage = wgpu_types::BufferUsages::from_bits(request.usage).unwrap();
    assert_eq!(usage, wgpu_types::BufferUsages::VERTEX | wgpu_types::BufferUsages::COPY_DST);
}

#[test]
fn prepare_instance_buffers_asks_for_one_buffer_a_batch() {
    let requests = prepare_instance_buffers(&vec![batch(2), batch(0), batch(7)]);
    assert_eq!(
        requests,
        vec![
            Ok(BufferRequest { size: 64, usage: 40, instances: 2 }),
            Ok(BufferRequest { size: 0, usage: 40, instances: 0 }),
            Ok(BufferRequest { size: 224, usage: 40, instances: 7 }),
        ]
    );
    assert!(prepare_instance_buffers(&Vec::new()).is_empty());
}

#[test]
fn upload_counts_the_instances_of_the_batch() {
    let buffer = upload(&batch(9), Ok(BufferHandle(3))).unwrap();
    assert_eq!(buffer.length(), 9);
    assert_eq!(buffer.buffer(), BufferHandle(3));
    let empty = upload(&batch(0), Ok(BufferHandle(4))).unwrap();
    assert_eq!(empty.length(), 0);
}

#[test]
fn upload_hands_on_a_failed_allocation() {
    assert!(matches!(upload(&batch(9), Err(DeviceOutOfMemory)), Err(DeviceOutOfMemory)));
}

#[test]
fn extract_component_copies_the_instances_in_order() {
    let source = batch(4);
    let copy = GrassInstanceMaterialData::extract_component(&source);
    assert_eq!(copy.0, source.0);
    assert_eq!(copy.len(), 4);
    assert_eq!(GrassInstanceMaterialData::extract_component(&batch(0)).len(), 0);
}

#[test]
fn replacing_a_buffer_hands_back_the_old_one() {
    let mut buffers = InstanceBuffers::new();
    assert!(buffers.get(0).is_none());
    assert!(buffers.get(3).is_none());
    let first = upload(&batch(2), Ok(BufferHandle(10))).unwrap();
    assert_eq!(buffers.replace(3, first), None);
    assert_eq!(buffers.get(3).unwrap().buffer(), BufferHandle(10));
    assert_eq!(buffers.get(3).unwrap().length(), 2);
    assert!(buffers.get(0).is_none());
    assert!(buffers.get(2).is_none());
    assert!(buffers.get(4).is_none());
    let second = upload(&batch(5), Ok(BufferHandle(11))).unwrap();
    assert_eq!(buffers.replace(3, second), Some(BufferHandle(10)));
    assert_eq!(buffers.get(3).unwrap().buffer(), BufferHandle(11));
    assert_eq!(buffers.get(3).unwrap().length(), 5);
}

#[test]
fn replacing_one_buffer_leaves_the_others() {
    let mut buffers = InstanceBuffers::new();
    buffers.replace(0, upload(&batch(1), Ok(BufferHandle(1))).unwrap());
    buffers.replace(1, upload(&batch(2), Ok(BufferHandle(2))).unwrap());
    buffers.replace(0, upload(&batch(3), Ok(BufferHandle(3))).unwrap());
    assert_eq!(buffers.get(1).unwrap().buffer(), BufferHandle(2));
    assert_eq!(buffers.get(1).unwrap().length(), 2);
    assert_eq!(buffers.get(0).unwrap().length(), 3);
}

#[test]
fn removing_a_buffer_hands_it_back_once() {
    let mut buffers = InstanceBuffers::new();
    buffers.replace(2, upload(&batch(1), Ok(BufferHandle(8))).unwrap());
    assert_eq!(buffers.remove(5), None);
    assert_eq!(buffers.remove(1), None);
    assert_eq!(buffers.remove(2), Some(BufferHandle(8)));
    assert!(buffers.get(2).is_none());
    assert_eq!(buffers.remove(2), None);
}
