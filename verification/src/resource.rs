//! Typed resource handles and their non-owning views.
//!
//! A handle owns one user reference to a device resource; releasing it gives
//! that reference back, and the resource is destroyed exactly once, when its
//! last reference (user handle or in-flight command tracker) goes. A view is
//! a cheap projection — an element range of a buffer, or one mip level of a
//! texture — that never affects destruction.

use vstd::prelude::*;
use crate::api;
use crate::device::Device;
use crate::semantics::{release_user, DeviceSnap};

verus! {

/// An owning handle to a device buffer of `len` elements of `elem_size`
/// bytes each.
pub struct Buffer {
    pub handle: api::Buffer,
    pub len: usize,
    pub elem_size: usize,
    /// Byte size of the whole buffer; always `len * elem_size`.
    pub size_bytes: usize,
}

/// A non-owning element range of a buffer.
#[derive(Clone, Copy)]
pub struct BufferView {
    pub handle: api::Buffer,
    /// First element of the range.
    pub offset: usize,
    /// Element count of the range.
    pub len: usize,
    pub elem_size: usize,
    /// Byte offset of the range; always `offset * elem_size`.
    pub offset_bytes: usize,
    /// Byte size of the range; always `len * elem_size`.
    pub size_bytes: usize,
}

impl Buffer {
    /// Shape consistency of a handle, as the device factory hands it out.
    pub open spec fn wf(self) -> bool {
        &&& self.elem_size > 0
        &&& self.size_bytes == self.len * self.elem_size
    }

    /// A view of `len` elements starting at element `offset`.
    pub fn view(&self, offset: usize, len: usize) -> (v: BufferView)
        requires
            self.wf(),
            offset + len <= self.len,
        ensures
            v.handle == self.handle,
            v.offset == offset,
            v.len == len,
            v.elem_size == self.elem_size,
            v.wf(),
    {
        proof {
            assert(offset * self.elem_size + len * self.elem_size <= self.len * self.elem_size)
                by (nonlinear_arith)
                requires
                    offset + len <= self.len,
                    self.elem_size >= 0,
            ;
        }
        BufferView {
            handle: self.handle,
            offset,
            len,
            elem_size: self.elem_size,
            offset_bytes: offset * self.elem_size,
            size_bytes: len * self.elem_size,
        }
    }

    /// A view of the whole buffer.
    pub fn full_view(&self) -> (v: BufferView)
        requires
            self.wf(),
        ensures
            v.handle == self.handle,
            v.offset == 0,
            v.len == self.len,
            v.elem_size == self.elem_size,
            v.wf(),
    {
        self.view(0, self.len)
    }

    /// Give the handle's user reference back; the resource is destroyed if
    /// this was its last reference.
    pub fn release(self, device: &mut Device)
        requires
            old(device).wf(),
        ensures
            final(device).wf(),
            final(device)@ == (DeviceSnap {
                mem: release_user(old(device)@.mem, self.handle.0 as int),
                ..old(device)@
            }),
    {
        device.release_user_ref(self.handle.0);
    }
}

impl BufferView {
    /// Shape consistency of a view.
    pub open spec fn wf(self) -> bool {
        &&& self.elem_size > 0
        &&& self.offset_bytes == self.offset * self.elem_size
        &&& self.size_bytes == self.len * self.elem_size
    }

    /// Host-side write: copy `data` into this view's element range. The
    /// write is immediate; it does not go through a stream. Rejected by the
    /// backend if the view does not name a live buffer range of `data`'s
    /// length.
    pub fn copy_from(&self, device: &mut Device, data: &Vec<u64>) -> (r: Result<(), crate::Error>)
        requires
            old(device).wf(),
        ensures
            final(device).wf(),
            r is Ok <==> data@.len() == self.len && crate::semantics::host_range_ok(
                old(device)@.mem,
                self.handle.0 as int,
                self.offset as nat,
                data@.len(),
            ),
            r is Err ==> final(device)@ == old(device)@ && r->Err_0 == crate::Error::Backend,
            r is Ok ==> final(device)@ == (DeviceSnap {
                mem: old(device)@.mem.update(
                    self.handle.0 as int,
                    crate::semantics::ResSnap {
                        data: crate::semantics::write_range_data(
                            old(device)@.mem[self.handle.0 as int].data,
                            self.offset as int,
                            data@,
                        ),
                        ..old(device)@.mem[self.handle.0 as int]
                    },
                ),
                ..old(device)@
            }),
    {
        if data.len() != self.len {
            return Err(crate::Error::Backend);
        }
        device.write_buffer_range(self.handle.0, self.offset, data)
    }

    /// Host-side read: copy this view's element range out. The read is
    /// immediate; writes still queued on a stream are not observed.
    pub fn copy_to_vec(&self, device: &Device) -> (r: Result<Vec<u64>, crate::Error>)
        ensures
            r is Ok <==> crate::semantics::host_range_ok(
                device@.mem,
                self.handle.0 as int,
                self.offset as nat,
                self.len as nat,
            ),
            r is Err ==> r->Err_0 == crate::Error::Backend,
            r is Ok ==> r->Ok_0@ == device@.mem[self.handle.0 as int].data.subrange(
                self.offset as int,
                self.offset + self.len,
            ),
    {
        device.read_buffer_range(self.handle.0, self.offset, self.len)
    }
}

/// An owning handle to a two-dimensional texture.
pub struct Tex2d {
    pub handle: api::Texture,
    pub width: u32,
    pub height: u32,
    /// Number of mip levels.
    pub levels: u32,
    pub storage: api::PixelStorage,
}

/// A non-owning view of one mip level of a two-dimensional texture.
#[derive(Clone, Copy)]
pub struct Tex2dView {
    pub handle: api::Texture,
    pub level: u32,
}

/// An owning handle to a three-dimensional texture.
pub struct Tex3d {
    pub handle: api::Texture,
    pub width: u32,
    pub height: u32,
    pub depth: u32,
    /// Number of mip levels.
    pub levels: u32,
    pub storage: api::PixelStorage,
}

/// A non-owning view of one mip level of a three-dimensional texture.
#[derive(Clone, Copy)]
pub struct Tex3dView {
    pub handle: api::Texture,
    pub level: u32,
}

impl Tex2d {
    /// A view of one mip level.
    pub fn view(&self, level: u32) -> (v: Tex2dView)
        requires
            level < self.levels,
        ensures
            v.handle == self.handle,
            v.level == level,
    {
        Tex2dView { handle: self.handle, level }
    }

    /// Give the handle's user reference back.
    pub fn release(self, device: &mut Device)
        requires
            old(device).wf(),
        ensures
            final(device).wf(),
            final(device)@ == (DeviceSnap {
                mem: release_user(old(device)@.mem, self.handle.0 as int),
                ..old(device)@
            }),
    {
        device.release_user_ref(self.handle.0);
    }
}

impl Tex3d {
    /// A view of one mip level.
    pub fn view(&self, level: u32) -> (v: Tex3dView)
        requires
            level < self.levels,
        ensures
            v.handle == self.handle,
            v.level == level,
    {
        Tex3dView { handle: self.handle, level }
    }

    /// Give the handle's user reference back.
    pub fn release(self, device: &mut Device)
        requires
            old(device).wf(),
        ensures
            final(device).wf(),
            final(device)@ == (DeviceSnap {
                mem: release_user(old(device)@.mem, self.handle.0 as int),
                ..old(device)@
            }),
    {
        device.release_user_ref(self.handle.0);
    }
}

/// An owning handle to a bindless array: an indirection table of `slots`
/// resource references addressable by index from within a kernel.
pub struct BindlessArray {
    pub handle: api::BindlessArray,
    pub slots: usize,
}

impl BindlessArray {
    /// Give the handle's user reference back.
    pub fn release(self, device: &mut Device)
        requires
            old(device).wf(),
        ensures
            final(device).wf(),
            final(device)@ == (DeviceSnap {
                mem: release_user(old(device)@.mem, self.handle.0 as int),
                ..old(device)@
            }),
    {
        device.release_user_ref(self.handle.0);
    }
}

/// An owning handle to a mesh: geometry described by a vertex-buffer range
/// and an index-buffer range.
pub struct Mesh {
    pub handle: api::Mesh,
    pub vertex_buffer: api::Buffer,
    pub vertex_buffer_offset: usize,
    pub vertex_buffer_size: usize,
    pub vertex_stride: usize,
    pub index_buffer: api::Buffer,
    pub index_buffer_offset: usize,
    pub index_buffer_size: usize,
    pub index_stride: usize,
}

impl Mesh {
    /// Give the handle's user reference back.
    pub fn release(self, device: &mut Device)
        requires
            old(device).wf(),
        ensures
            final(device).wf(),
            final(device)@ == (DeviceSnap {
                mem: release_user(old(device)@.mem, self.handle.0 as int),
                ..old(device)@
            }),
    {
        device.release_user_ref(self.handle.0);
    }
}

/// An owning handle to an acceleration structure.
pub struct Accel {
    pub handle: api::Accel,
}

impl Accel {
    /// Give the handle's user reference back.
    pub fn release(self, device: &mut Device)
        requires
            old(device).wf(),
        ensures
            final(device).wf(),
            final(device)@ == (DeviceSnap {
                mem: release_user(old(device)@.mem, self.handle.0 as int),
                ..old(device)@
            }),
    {
        device.release_user_ref(self.handle.0);
    }
}

} // verus!
