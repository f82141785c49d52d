use luisa_compute::api::Argument;
use luisa_compute::device::Device;
use luisa_compute::ir::{KernelBody, KernelModule};
use luisa_compute::resource::Buffer;
use luisa_compute::shader::ArgEncoder;
use luisa_compute::stream::submit_default_stream_and_sync;
use luisa_compute::Error;

#[test]
fn write_iota_roundtrip() {
    // creating a buffer of length n, dispatching a kernel that writes index i
    // into element i, then reading back, yields exactly 0 .. n
    for n in [1usize, 2, 7, 64] {
        let mut d = Device::new();
        let b = d.create_buffer(4, n).unwrap();
        let module = KernelModule { n_args: 1, body: KernelBody::WriteIota };
        let k = d.create_kernel::<Buffer>(module).unwrap();
        k.dispatch(&mut d, &b, [n as u32, 1, 1]).unwrap();
        let read = b.full_view().copy_to_vec(&d).unwrap();
        let expected: Vec<u64> = (0..n as u64).collect();
        assert_eq!(read, expected);
    }
}

#[test]
fn dispatch_is_synchronous() {
    // immediately after dispatch returns, a host read observes its writes
    let mut d = Device::new();
    let b = d.create_buffer(8, 4).unwrap();
    let module = KernelModule { n_args: 1, body: KernelBody::Fill(42) };
    let k = d.create_kernel::<Buffer>(module).unwrap();
    k.dispatch(&mut d, &b, [4, 1, 1]).unwrap();
    assert_eq!(b.full_view().copy_to_vec(&d).unwrap(), vec![42, 42, 42, 42]);
}

#[test]
fn in_order_execution_two_batches() {
    // command buffer A writes, command buffer B reads what A wrote; submitted
    // in order to one stream, B observes A's writes after synchronization
    let mut d = Device::new();
    let src = d.create_buffer(4, 5).unwrap();
    let dst = d.create_buffer(4, 5).unwrap();
    let iota = d
        .create_kernel::<Buffer>(KernelModule { n_args: 1, body: KernelBody::WriteIota })
        .unwrap();
    let copy = d
        .create_kernel::<(Buffer, Buffer)>(KernelModule { n_args: 2, body: KernelBody::CopyBuffer })
        .unwrap();
    let stream = d.default_stream();
    let a = iota.dispatch_async(&mut d, &src, [5, 1, 1]).unwrap();
    let b = copy
        .dispatch_async(&mut d, &(src.full_view(), dst.full_view()), [5, 1, 1])
        .unwrap();
    let mut cb_a = stream.command_buffer();
    cb_a.push(a);
    let mut ha = cb_a.commit(&mut d).unwrap();
    let mut cb_b = stream.command_buffer();
    cb_b.push(b);
    let mut hb = cb_b.commit(&mut d).unwrap();
    ha.synchronize(&mut d).unwrap();
    hb.synchronize(&mut d).unwrap();
    assert_eq!(dst.full_view().copy_to_vec(&d).unwrap(), vec![0, 1, 2, 3, 4]);
}

#[test]
fn sync_and_async_compile_agree() {
    // compilation mode is an optimization with no observable difference
    let mut d = Device::new();
    let module = KernelModule { n_args: 1, body: KernelBody::WriteIota };
    let k_sync = d.create_kernel::<Buffer>(module).unwrap();
    let k_async = d.create_kernel_async::<Buffer>(module).unwrap();
    let b1 = d.create_buffer(4, 6).unwrap();
    let b2 = d.create_buffer(4, 6).unwrap();
    k_sync.dispatch(&mut d, &b1, [6, 1, 1]).unwrap();
    k_async.dispatch(&mut d, &b2, [6, 1, 1]).unwrap();
    let r1 = b1.full_view().copy_to_vec(&d).unwrap();
    let r2 = b2.full_view().copy_to_vec(&d).unwrap();
    assert_eq!(r1, r2);
    assert_eq!(r1, vec![0, 1, 2, 3, 4, 5]);
}

#[test]
fn tracker_keeps_buffer_alive() {
    // dropping a buffer handle while a built command still references it must
    // not corrupt state: the command's tracker keeps the resource alive until
    // the command has run
    let mut d = Device::new();
    let src = d.create_buffer_from_slice(4, &vec![5, 6, 7]).unwrap();
    let dst = d.create_buffer(4, 3).unwrap();
    let src_view = src.full_view();
    let copy = d
        .create_kernel::<(Buffer, Buffer)>(KernelModule { n_args: 2, body: KernelBody::CopyBuffer })
        .unwrap();
    let c = copy
        .dispatch_async(&mut d, &(src_view, dst.full_view()), [3, 1, 1])
        .unwrap();
    // drop the local handle: the command's tracker still holds the resource
    src.release(&mut d);
    assert_eq!(src_view.copy_to_vec(&d).unwrap(), vec![5, 6, 7]);
    submit_default_stream_and_sync(&mut d, vec![c]).unwrap();
    assert_eq!(dst.full_view().copy_to_vec(&d).unwrap(), vec![5, 6, 7]);
    // after completion the last reference went, so the source is now gone
    assert_eq!(src_view.copy_to_vec(&d).err(), Some(Error::Backend));
}

#[test]
fn cache_key_structural() {
    // two structurally identical modules compiled separately, in different
    // modes, report the same cache directory key
    let mut d = Device::new();
    let m1 = KernelModule { n_args: 1, body: KernelBody::Fill(3) };
    let m2 = KernelModule { n_args: 1, body: KernelBody::Fill(3) };
    let k1 = d.create_kernel::<Buffer>(m1).unwrap();
    let k2 = d.create_kernel_async::<Buffer>(m2).unwrap();
    let key1 = k1.cache_dir(&mut d).unwrap();
    let key2 = k2.cache_dir(&mut d).unwrap();
    assert_eq!(key1, key2);
    let key = key1.expect("this backend reports a cache key for every shader");
    assert_eq!(key.body_tag, 2);
    assert_eq!(key.body_value, 3);
    assert_eq!(key.arity, 1);
}

#[test]
fn zero_length_buffer_and_zero_grid() {
    let mut d = Device::new();
    let empty = d.create_buffer(4, 0).unwrap();
    assert_eq!(empty.full_view().copy_to_vec(&d).unwrap(), Vec::<u64>::new());
    let k = d
        .create_kernel::<Buffer>(KernelModule { n_args: 1, body: KernelBody::WriteIota })
        .unwrap();
    k.dispatch(&mut d, &empty, [16, 1, 1]).unwrap();
    assert_eq!(empty.full_view().copy_to_vec(&d).unwrap(), Vec::<u64>::new());
    // a zero grid touches nothing
    let b = d.create_buffer_from_slice(4, &vec![8, 8]).unwrap();
    k.dispatch(&mut d, &b, [0, 1, 1]).unwrap();
    assert_eq!(b.full_view().copy_to_vec(&d).unwrap(), vec![8, 8]);
}

#[test]
fn mismatched_args_are_dropped_by_backend() {
    // this layer performs no shape validation; the backend drops a dispatch
    // whose records do not fit the kernel, without effect and without error
    let mut d = Device::new();
    let t = d
        .create_tex2d(luisa_compute::api::PixelStorage::Int4, 4, 4, 1)
        .unwrap();
    let k = d
        .create_kernel::<luisa_compute::resource::Tex2d>(KernelModule {
            n_args: 1,
            body: KernelBody::WriteIota,
        })
        .unwrap();
    k.dispatch(&mut d, &t.view(0), [4, 1, 1]).unwrap();
}

#[test]
fn cache_key_distinguishes_bodies() {
    let mut d = Device::new();
    let k1 = d
        .create_kernel::<Buffer>(KernelModule { n_args: 1, body: KernelBody::Fill(1) })
        .unwrap();
    let k2 = d
        .create_kernel::<Buffer>(KernelModule { n_args: 1, body: KernelBody::Fill(2) })
        .unwrap();
    let key1 = k1.cache_dir(&mut d).unwrap();
    let key2 = k2.cache_dir(&mut d).unwrap();
    assert_ne!(key1, key2);
}

#[test]
fn failed_sync_compile_reported() {
    // the body uses one parameter but the module declares none
    let mut d = Device::new();
    let r = d.create_kernel::<Buffer>(KernelModule { n_args: 0, body: KernelBody::WriteIota });
    assert_eq!(r.err(), Some(Error::Compile));
    // over-wide declarations are rejected too
    let r = d.create_kernel::<Buffer>(KernelModule { n_args: 17, body: KernelBody::Nop });
    assert_eq!(r.err(), Some(Error::Compile));
}

#[test]
fn failed_async_compile_surfaces_at_dispatch() {
    // a failed background build is not an abort: it surfaces as a compile
    // error from the dispatch call, and the device stays usable
    let mut d = Device::new();
    let bad = d
        .create_kernel_async::<Buffer>(KernelModule { n_args: 0, body: KernelBody::WriteIota })
        .unwrap();
    let b = d.create_buffer(4, 4).unwrap();
    assert_eq!(bad.dispatch(&mut d, &b, [4, 1, 1]).err(), Some(Error::Compile));
    // every later use observes the same terminal result
    assert_eq!(bad.cache_dir(&mut d).err(), Some(Error::Compile));
    assert_eq!(bad.dispatch(&mut d, &b, [4, 1, 1]).err(), Some(Error::Compile));
    // the buffer was left untouched and the device still works
    assert_eq!(b.full_view().copy_to_vec(&d).unwrap(), vec![0, 0, 0, 0]);
    let good = d
        .create_kernel::<Buffer>(KernelModule { n_args: 1, body: KernelBody::Fill(9) })
        .unwrap();
    good.dispatch(&mut d, &b, [4, 1, 1]).unwrap();
    assert_eq!(b.full_view().copy_to_vec(&d).unwrap(), vec![9, 9, 9, 9]);
}

#[test]
fn encoder_records_in_order() {
    let mut d = Device::new();
    let b = d.create_buffer(4, 8).unwrap();
    let t = d
        .create_tex2d(luisa_compute::api::PixelStorage::Byte4, 16, 16, 2)
        .unwrap();
    let a = d.create_bindless_array(4).unwrap();
    let mut enc = ArgEncoder::new();
    enc.buffer(&b);
    enc.buffer_view(&b.view(2, 4));
    enc.tex2d(&t.view(1));
    enc.bindless_array(&a);
    assert_eq!(enc.args.len(), 4);
    match enc.args[0] {
        Argument::Buffer(ba) => {
            assert_eq!(ba.buffer, b.handle);
            assert_eq!(ba.offset, 0);
            assert_eq!(ba.size, 32);
        },
        _ => panic!("first record must be the whole buffer"),
    }
    match enc.args[1] {
        Argument::Buffer(ba) => {
            assert_eq!(ba.offset, 8);
            assert_eq!(ba.size, 16);
        },
        _ => panic!("second record must be the buffer range"),
    }
    match enc.args[2] {
        Argument::Texture(ta) => {
            assert_eq!(ta.texture, t.handle);
            assert_eq!(ta.level, 1);
        },
        _ => panic!("third record must be the texture level"),
    }
    match enc.args[3] {
        Argument::BindlessArray(h) => assert_eq!(h, a.handle),
        _ => panic!("fourth record must be the bindless array"),
    }
}

#[test]
fn fill_on_view_range() {
    // a parameter declared as a buffer accepts a sub-view of one
    let mut d = Device::new();
    let b = d.create_buffer(4, 6).unwrap();
    let k = d
        .create_kernel::<Buffer>(KernelModule { n_args: 1, body: KernelBody::Fill(5) })
        .unwrap();
    k.dispatch(&mut d, &b.view(2, 3), [3, 1, 1]).unwrap();
    assert_eq!(b.full_view().copy_to_vec(&d).unwrap(), vec![0, 0, 5, 5, 5, 0]);
}

#[test]
fn grid_smaller_than_buffer() {
    // only the first grid_x elements are touched
    let mut d = Device::new();
    let b = d.create_buffer(4, 5).unwrap();
    let k = d
        .create_kernel::<Buffer>(KernelModule { n_args: 1, body: KernelBody::WriteIota })
        .unwrap();
    k.dispatch(&mut d, &b, [2, 1, 1]).unwrap();
    assert_eq!(b.full_view().copy_to_vec(&d).unwrap(), vec![0, 1, 0, 0, 0]);
}

#[test]
fn dispatch_async_then_submit_default() {
    let mut d = Device::new();
    let b = d.create_buffer(4, 3).unwrap();
    let k = d
        .create_kernel_async::<Buffer>(KernelModule { n_args: 1, body: KernelBody::WriteIota })
        .unwrap();
    let c = k.dispatch_async(&mut d, &b, [3, 1, 1]).unwrap();
    // nothing ran yet: the command only sits in the batch
    assert_eq!(b.full_view().copy_to_vec(&d).unwrap(), vec![0, 0, 0]);
    submit_default_stream_and_sync(&mut d, vec![c]).unwrap();
    assert_eq!(b.full_view().copy_to_vec(&d).unwrap(), vec![0, 1, 2]);
}

#[test]
fn nop_kernel_leaves_memory_alone() {
    let mut d = Device::new();
    let b = d.create_buffer_from_slice(4, &vec![3, 1, 4]).unwrap();
    let k = d
        .create_kernel::<()>(KernelModule { n_args: 0, body: KernelBody::Nop })
        .unwrap();
    k.dispatch(&mut d, &(), [64, 1, 1]).unwrap();
    assert_eq!(b.full_view().copy_to_vec(&d).unwrap(), vec![3, 1, 4]);
}
