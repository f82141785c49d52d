use luisa_compute::api::{AccelOption, AccelUsageHint, PixelStorage};
use luisa_compute::device::Device;
use luisa_compute::ir::{KernelBody, KernelModule};
use luisa_compute::resource::Buffer;
use luisa_compute::stream::Command;
use luisa_compute::Error;

#[test]
fn empty_command_buffer_noop() {
    let mut d = Device::new();
    let b = d.create_buffer_from_slice(4, &vec![9, 8, 7]).unwrap();
    let stream = d.default_stream();
    let cb = stream.command_buffer();
    let mut handle = cb.commit(&mut d).expect("empty commit is a valid no-op");
    handle.synchronize(&mut d).expect("synchronize after empty commit");
    let read = b.full_view().copy_to_vec(&d).unwrap();
    assert_eq!(read, vec![9, 8, 7]);
}

#[test]
fn submit_and_sync_empty() {
    let mut d = Device::new();
    let stream = d.default_stream();
    let commands: Vec<Command> = Vec::new();
    stream
        .submit_and_sync(&mut d, commands)
        .expect("an empty batch submits and drains at once");
}

#[test]
fn create_buffer_zero_elem_rejected() {
    let mut d = Device::new();
    let r = d.create_buffer(0, 16);
    assert_eq!(r.err(), Some(Error::ResourceCreation));
    // the device stays usable after a failed factory call
    let b = d.create_buffer(4, 2).unwrap();
    assert_eq!(b.len, 2);
}

#[test]
fn create_buffer_overflow_rejected() {
    let mut d = Device::new();
    let r = d.create_buffer(8, usize::MAX);
    assert_eq!(r.err(), Some(Error::ResourceCreation));
}

#[test]
fn buffer_write_read_roundtrip() {
    let mut d = Device::new();
    let b = d.create_buffer(8, 5).unwrap();
    assert_eq!(b.size_bytes, 40);
    let v = b.full_view();
    // a fresh buffer is zero initialized
    assert_eq!(v.copy_to_vec(&d).unwrap(), vec![0, 0, 0, 0, 0]);
    v.copy_from(&mut d, &vec![1, 2, 3, 4, 5]).unwrap();
    assert_eq!(v.copy_to_vec(&d).unwrap(), vec![1, 2, 3, 4, 5]);
}

#[test]
fn buffer_view_partial_copy() {
    let mut d = Device::new();
    let b = d.create_buffer(4, 6).unwrap();
    let middle = b.view(2, 3);
    assert_eq!(middle.offset_bytes, 8);
    assert_eq!(middle.size_bytes, 12);
    middle.copy_from(&mut d, &vec![7, 7, 7]).unwrap();
    assert_eq!(b.full_view().copy_to_vec(&d).unwrap(), vec![0, 0, 7, 7, 7, 0]);
    // a wrong-length host write is rejected without touching the buffer
    let r = middle.copy_from(&mut d, &vec![1, 2]);
    assert_eq!(r.err(), Some(Error::Backend));
    assert_eq!(b.full_view().copy_to_vec(&d).unwrap(), vec![0, 0, 7, 7, 7, 0]);
}

#[test]
fn buffer_release_frees_resource() {
    let mut d = Device::new();
    let b = d.create_buffer_from_slice(4, &vec![1, 2]).unwrap();
    let v = b.full_view();
    b.release(&mut d);
    // the backing store is gone once the last reference went
    assert_eq!(v.copy_to_vec(&d).err(), Some(Error::Backend));
    // ids are not reused: a new buffer gets a fresh id
    let b2 = d.create_buffer(4, 1).unwrap();
    assert_ne!(b2.handle, v.handle);
}

#[test]
fn create_buffer_from_fn_values() {
    let mut d = Device::new();
    let b = d.create_buffer_from_fn(8, 6, |i| (i * i) as u64).unwrap();
    assert_eq!(
        b.full_view().copy_to_vec(&d).unwrap(),
        vec![0, 1, 4, 9, 16, 25]
    );
}

#[test]
fn textures_and_views() {
    let mut d = Device::new();
    let t2 = d.create_tex2d(PixelStorage::Byte4, 64, 32, 3).unwrap();
    assert_eq!((t2.width, t2.height, t2.levels), (64, 32, 3));
    let v2 = t2.view(2);
    assert_eq!(v2.level, 2);
    assert_eq!(v2.handle, t2.handle);
    let t3 = d.create_tex3d(PixelStorage::Int1, 8, 8, 8, 1).unwrap();
    assert_eq!(t3.depth, 8);
    let v3 = t3.view(0);
    assert_eq!(v3.handle, t3.handle);
    assert_ne!(t2.handle, t3.handle);
    t2.release(&mut d);
    t3.release(&mut d);
}

#[test]
fn mesh_and_accel_fields() {
    let mut d = Device::new();
    let vertices = d.create_buffer(12, 4).unwrap();
    let indices = d.create_buffer(4, 6).unwrap();
    let option = AccelOption {
        hint: AccelUsageHint::FastTrace,
        allow_compaction: true,
        allow_update: false,
    };
    let mesh = d
        .create_mesh(&vertices.full_view(), &indices.view(3, 3), option)
        .unwrap();
    assert_eq!(mesh.vertex_buffer, vertices.handle);
    assert_eq!(mesh.vertex_buffer_offset, 0);
    assert_eq!(mesh.vertex_buffer_size, 48);
    assert_eq!(mesh.vertex_stride, 12);
    assert_eq!(mesh.index_buffer, indices.handle);
    assert_eq!(mesh.index_buffer_offset, 12);
    assert_eq!(mesh.index_buffer_size, 12);
    assert_eq!(mesh.index_stride, 4);
    let accel = d.create_accel(option).unwrap();
    accel.release(&mut d);
    mesh.release(&mut d);
}

#[test]
fn bindless_array_created() {
    let mut d = Device::new();
    let a = d.create_bindless_array(128).unwrap();
    assert_eq!(a.slots, 128);
    a.release(&mut d);
}

#[test]
fn stream_identity_and_sync_handle() {
    let mut d = Device::new();
    let s = d.default_stream();
    assert_eq!(s.handle().0, 0);
    let cb = s.command_buffer();
    let mut h = cb.commit(&mut d).unwrap();
    h.synchronize(&mut d).unwrap();
}

#[test]
fn create_stream_distinct() {
    let mut d = Device::new();
    let s1 = d.create_stream().unwrap();
    let s2 = d.create_stream().unwrap();
    assert_ne!(s1.handle(), s2.handle());
    assert_ne!(s1.handle().0, 0);
    s1.synchronize(&mut d).unwrap();
    s2.synchronize(&mut d).unwrap();
}

#[test]
fn streams_drain_independently() {
    let mut d = Device::new();
    let s1 = d.create_stream().unwrap();
    let s2 = d.create_stream().unwrap();
    let b1 = d.create_buffer(4, 3).unwrap();
    let b2 = d.create_buffer(4, 3).unwrap();
    let k = d
        .create_kernel::<Buffer>(KernelModule { n_args: 1, body: KernelBody::Fill(1) })
        .unwrap();
    let c1 = k.dispatch_async(&mut d, &b1, [3, 1, 1]).unwrap();
    let c2 = k.dispatch_async(&mut d, &b2, [3, 1, 1]).unwrap();
    let mut h1 = s1.submit(&mut d, vec![c1]).unwrap();
    let mut h2 = s2.submit(&mut d, vec![c2]).unwrap();
    // synchronizing one stream does not run the other stream's work
    h1.synchronize(&mut d).unwrap();
    assert_eq!(b1.full_view().copy_to_vec(&d).unwrap(), vec![1, 1, 1]);
    assert_eq!(b2.full_view().copy_to_vec(&d).unwrap(), vec![0, 0, 0]);
    h2.synchronize(&mut d).unwrap();
    assert_eq!(b2.full_view().copy_to_vec(&d).unwrap(), vec![1, 1, 1]);
}
