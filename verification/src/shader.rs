//! Shader artifacts, kernels, and the argument-encoding layer.
//!
//! A kernel is compiled either synchronously — the factory call blocks until
//! the backend returns a shader object — or in the deferred mode, where the
//! factory returns at once and the build runs later; the first use of the
//! kernel (a dispatch or a cache-directory query) resolves the build, and a
//! failed build surfaces there as a [`crate::Error::Compile`] result.
//!
//! Arguments are encoded one record per resource, in declaration order;
//! tuples of arguments encode element by element, left to right.

use vstd::prelude::*;
use crate::api;
use crate::device::Device;
use crate::ir::{cache_key_of, module_ok, KernelModule, ShaderCacheKey};
use crate::resource::{Accel, BindlessArray, Buffer, BufferView, Tex2d, Tex2dView, Tex3d, Tex3dView};
use crate::semantics::{args_live, argument_resources, drain_effect, retain_headroom, retain_ids, shader_of, CmdSnap, DeviceSnap};
use crate::stream::{batch_shaders_known, batch_snaps, submit_default_stream_and_sync, Command};
use crate::Error;

verus! {

/// A compiled shader object, or the deferred build that will produce one.
pub enum ShaderArtifact {
    /// Compiled synchronously; the shader object is at hand.
    Sync(api::Shader),
    /// Compiled in the background; the id names the device's
    /// deferred-compilation slot.
    Async(usize),
}

/// A dispatchable shader: an artifact plus the module it was built from.
pub struct RawShader {
    pub artifact: ShaderArtifact,
    /// The module this shader was built from.
    pub module: Ghost<KernelModule>,
}

impl RawShader {
    /// Whether this shader's artifact is consistent with the device: a
    /// synchronous artifact points at the compiled form of its module, and a
    /// deferred artifact points at a slot holding its module.
    pub open spec fn wf_in(self, d: DeviceSnap) -> bool {
        match self.artifact {
            ShaderArtifact::Sync(s) => {
                &&& module_ok(self.module@)
                &&& 0 <= s.0 < d.shaders.len()
                &&& d.shaders[s.0 as int] == shader_of(self.module@)
            },
            ShaderArtifact::Async(aid) => {
                &&& 0 <= aid < d.artifacts.len()
                &&& d.artifacts[aid as int].module == self.module@
            },
        }
    }
}

/// Accumulates one backend argument record per resource, in declaration
/// order.
pub struct ArgEncoder {
    pub args: Vec<api::Argument>,
}

impl ArgEncoder {
    /// An empty encoder.
    pub fn new() -> (e: ArgEncoder)
        ensures
            e.args@ == Seq::<api::Argument>::empty(),
    {
        ArgEncoder { args: Vec::new() }
    }

    /// Append a whole buffer: its id, byte offset 0, and its byte size.
    pub fn buffer(&mut self, buffer: &Buffer)
        ensures
            final(self).args@ == old(self).args@.push(
                api::Argument::Buffer(
                    api::BufferArgument {
                        buffer: buffer.handle,
                        offset: 0,
                        size: buffer.size_bytes,
                    },
                ),
            ),
    {
        self.args.push(
            api::Argument::Buffer(
                api::BufferArgument { buffer: buffer.handle, offset: 0, size: buffer.size_bytes },
            ),
        );
    }

    /// Append a buffer range: its id, byte offset, and byte size.
    pub fn buffer_view(&mut self, buffer: &BufferView)
        ensures
            final(self).args@ == old(self).args@.push(
                api::Argument::Buffer(
                    api::BufferArgument {
                        buffer: buffer.handle,
                        offset: buffer.offset_bytes,
                        size: buffer.size_bytes,
                    },
                ),
            ),
    {
        self.args.push(
            api::Argument::Buffer(
                api::BufferArgument {
                    buffer: buffer.handle,
                    offset: buffer.offset_bytes,
                    size: buffer.size_bytes,
                },
            ),
        );
    }

    /// Append one mip level of a 2-D texture: its id and the level.
    pub fn tex2d(&mut self, tex: &Tex2dView)
        ensures
            final(self).args@ == old(self).args@.push(
                api::Argument::Texture(
                    api::TextureArgument { texture: tex.handle, level: tex.level },
                ),
            ),
    {
        self.args.push(
            api::Argument::Texture(api::TextureArgument { texture: tex.handle, level: tex.level }),
        );
    }

    /// Append one mip level of a 3-D texture: its id and the level.
    pub fn tex3d(&mut self, tex: &Tex3dView)
        ensures
            final(self).args@ == old(self).args@.push(
                api::Argument::Texture(
                    api::TextureArgument { texture: tex.handle, level: tex.level },
                ),
            ),
    {
        self.args.push(
            api::Argument::Texture(api::TextureArgument { texture: tex.handle, level: tex.level }),
        );
    }

    /// Append a bindless array: its id alone.
    pub fn bindless_array(&mut self, array: &BindlessArray)
        ensures
            final(self).args@ == old(self).args@.push(
                api::Argument::BindlessArray(array.handle),
            ),
    {
        self.args.push(api::Argument::BindlessArray(array.handle));
    }

    /// Append an acceleration structure: its id alone.
    pub fn accel(&mut self, accel: &Accel)
        ensures
            final(self).args@ == old(self).args@.push(api::Argument::Accel(accel.handle)),
    {
        self.args.push(api::Argument::Accel(accel.handle));
    }
}

/// A resource, or tuple of resources, that can be encoded as kernel
/// arguments.
pub trait KernelArg {
    /// The argument records this value encodes, in declaration order.
    spec fn arg_records(&self) -> Seq<api::Argument>;

    /// Append this value's records to the encoder, in order.
    fn encode(&self, encoder: &mut ArgEncoder)
        ensures
            final(encoder).args@ == old(encoder).args@ + self.arg_records(),
    ;
}

/// The acceptable-argument relation: which concrete representations satisfy
/// a parameter slot declared as `T`. A buffer slot accepts the buffer or a
/// range of one; a texture slot accepts the texture or a view of one, and a
/// 3-D-capable slot also accepts the 2-D forms.
pub trait AsKernelArg<T: KernelArg>: KernelArg {

}

impl KernelArg for Buffer {
    open spec fn arg_records(&self) -> Seq<api::Argument> {
        seq![
            api::Argument::Buffer(
                api::BufferArgument { buffer: self.handle, offset: 0, size: self.size_bytes },
            ),
        ]
    }

    fn encode(&self, encoder: &mut ArgEncoder) {
        encoder.buffer(self);
        proof {
            assert(encoder.args@ =~= old(encoder).args@ + self.arg_records());
        }
    }
}

impl KernelArg for BufferView {
    open spec fn arg_records(&self) -> Seq<api::Argument> {
        seq![
            api::Argument::Buffer(
                api::BufferArgument {
                    buffer: self.handle,
                    offset: self.offset_bytes,
                    size: self.size_bytes,
                },
            ),
        ]
    }

    fn encode(&self, encoder: &mut ArgEncoder) {
        encoder.buffer_view(self);
        proof {
            assert(encoder.args@ =~= old(encoder).args@ + self.arg_records());
        }
    }
}

impl KernelArg for Tex2dView {
    open spec fn arg_records(&self) -> Seq<api::Argument> {
        seq![
            api::Argument::Texture(api::TextureArgument { texture: self.handle, level: self.level }),
        ]
    }

    fn encode(&self, encoder: &mut ArgEncoder) {
        encoder.tex2d(self);
        proof {
            assert(encoder.args@ =~= old(encoder).args@ + self.arg_records());
        }
    }
}

impl KernelArg for Tex3dView {
    open spec fn arg_records(&self) -> Seq<api::Argument> {
        seq![
            api::Argument::Texture(api::TextureArgument { texture: self.handle, level: self.level }),
        ]
    }

    fn encode(&self, encoder: &mut ArgEncoder) {
        encoder.tex3d(self);
        proof {
            assert(encoder.args@ =~= old(encoder).args@ + self.arg_records());
        }
    }
}

impl KernelArg for Tex2d {
    open spec fn arg_records(&self) -> Seq<api::Argument> {
        seq![api::Argument::Texture(api::TextureArgument { texture: self.handle, level: 0 })]
    }

    fn encode(&self, encoder: &mut ArgEncoder) {
        let v = Tex2dView { handle: self.handle, level: 0 };
        encoder.tex2d(&v);
        proof {
            assert(encoder.args@ =~= old(encoder).args@ + self.arg_records());
        }
    }
}

impl KernelArg for Tex3d {
    open spec fn arg_records(&self) -> Seq<api::Argument> {
        seq![api::Argument::Texture(api::TextureArgument { texture: self.handle, level: 0 })]
    }

    fn encode(&self, encoder: &mut ArgEncoder) {
        let v = Tex3dView { handle: self.handle, level: 0 };
        encoder.tex3d(&v);
        proof {
            assert(encoder.args@ =~= old(encoder).args@ + self.arg_records());
        }
    }
}

impl KernelArg for BindlessArray {
    open spec fn arg_records(&self) -> Seq<api::Argument> {
        seq![api::Argument::BindlessArray(self.handle)]
    }

    fn encode(&self, encoder: &mut ArgEncoder) {
        encoder.bindless_array(self);
        proof {
            assert(encoder.args@ =~= old(encoder).args@ + self.arg_records());
        }
    }
}

impl KernelArg for Accel {
    open spec fn arg_records(&self) -> Seq<api::Argument> {
        seq![api::Argument::Accel(self.handle)]
    }

    fn encode(&self, encoder: &mut ArgEncoder) {
        encoder.accel(self);
        proof {
            assert(encoder.args@ =~= old(encoder).args@ + self.arg_records());
        }
    }
}

impl AsKernelArg<Buffer> for Buffer {

}

impl AsKernelArg<Buffer> for BufferView {

}

impl AsKernelArg<BufferView> for BufferView {

}

impl AsKernelArg<BufferView> for Buffer {

}

impl AsKernelArg<Tex2d> for Tex2dView {

}

impl AsKernelArg<Tex3d> for Tex3dView {

}

impl AsKernelArg<Tex3dView> for Tex2dView {

}

impl AsKernelArg<Tex3dView> for Tex3dView {

}

impl AsKernelArg<Tex3dView> for Tex2d {

}

impl AsKernelArg<Tex3dView> for Tex3d {

}

impl AsKernelArg<Tex2d> for Tex2d {

}

impl AsKernelArg<Tex3d> for Tex3d {

}

impl AsKernelArg<BindlessArray> for BindlessArray {

}

impl AsKernelArg<Accel> for Accel {

}

/// Copy an argument list record by record.
fn copy_arguments(v: &Vec<api::Argument>) -> (r: Vec<api::Argument>)
    ensures
        r@ == v@,
{
    let mut r: Vec<api::Argument> = Vec::new();
    let mut i: usize = 0;
    while i < v.len()
        invariant
            i <= v@.len(),
            r@ == v@.take(i as int),
        decreases v@.len() - i,
    {
        let a = v[i];
        r.push(a);
        proof {
            assert(r@ =~= v@.take(i + 1));
        }
        i += 1;
    }
    proof {
        assert(v@.take(v@.len() as int) =~= v@);
    }
    r
}

impl RawShader {
    /// Resolve this shader to its backend object. A synchronous artifact is
    /// at hand; a deferred one blocks on its build at first use, and a failed
    /// build surfaces here, once, as a compile error that every later use
    /// observes again.
    pub(crate) fn resolve(&self, device: &mut Device) -> (r: Result<api::Shader, Error>)
        requires
            old(device).wf(),
            self.wf_in(old(device)@),
        ensures
            final(device).wf(),
            self.wf_in(final(device)@),
            final(device)@.mem == old(device)@.mem,
            final(device)@.queues == old(device)@.queues,
            r is Ok <==> module_ok(self.module@),
            r is Err ==> r->Err_0 == Error::Compile,
            r is Ok ==> 0 <= r->Ok_0.0 < final(device)@.shaders.len() && final(device)@.shaders[
                r->Ok_0.0 as int
            ] == shader_of(self.module@),
            final(device)@.shaders == old(device)@.shaders || final(device)@.shaders == old(
                device,
            )@.shaders.push(shader_of(self.module@)),
    {
        match &self.artifact {
            ShaderArtifact::Sync(s) => Ok(*s),
            ShaderArtifact::Async(aid) => device.resolve_async(*aid),
        }
    }

    /// Encode a dispatch of this shader over the given grid into a command.
    /// The command carries a resource tracker holding one in-flight reference
    /// to every resource the arguments name, so none of them is destroyed
    /// while the command is pending. A failed deferred build surfaces here as
    /// a compile error.
    pub fn dispatch_async(
        &self,
        device: &mut Device,
        args: &ArgEncoder,
        dispatch_size: [u32; 3],
    ) -> (r: Result<Command, Error>)
        requires
            old(device).wf(),
            self.wf_in(old(device)@),
            args_live(old(device)@.mem, args.args@),
            retain_headroom(old(device)@.mem, args.args@),
        ensures
            final(device).wf(),
            self.wf_in(final(device)@),
            final(device)@.queues == old(device)@.queues,
            final(device)@.shaders == old(device)@.shaders || final(device)@.shaders == old(
                device,
            )@.shaders.push(shader_of(self.module@)),
            r is Ok <==> module_ok(self.module@),
            r is Err ==> r->Err_0 == Error::Compile && final(device)@.mem == old(device)@.mem,
            r is Ok ==> ({
                let c = r->Ok_0;
                &&& c.snap().args == args.args@
                &&& c.snap().grid_x == dispatch_size[0] as nat
                &&& c.snap().tracker == argument_resources(args.args@)
                &&& 0 <= c.snap().shader < final(device)@.shaders.len()
                &&& final(device)@.shaders[c.snap().shader] == shader_of(self.module@)
                &&& final(device)@.mem == retain_ids(
                    old(device)@.mem,
                    argument_resources(args.args@),
                )
            }),
    {
        let s = match self.resolve(device) {
            Ok(s) => s,
            Err(e) => {
                return Err(e);
            },
        };
        let tracker = device.retain_args(&args.args);
        let args_copy = copy_arguments(&args.args);
        let c = Command {
            inner: api::Command::ShaderDispatch(
                api::ShaderDispatchCommand { shader: s, args: args_copy, dispatch_size },
            ),
            tracker,
        };
        proof {
            assert(c.snap().tracker == argument_resources(args.args@));
        }
        Ok(c)
    }

    /// Dispatch this shader over the given grid on the device's default
    /// stream and block until it has run: encode, submit, synchronize. After
    /// an `Ok` return the dispatch's writes are visible to host reads.
    pub fn dispatch(&self, device: &mut Device, args: &ArgEncoder, dispatch_size: [u32; 3]) -> (r:
        Result<(), Error>)
        requires
            old(device).wf(),
            self.wf_in(old(device)@),
            args_live(old(device)@.mem, args.args@),
            retain_headroom(old(device)@.mem, args.args@),
        ensures
            final(device).wf(),
            self.wf_in(final(device)@),
            r is Ok <==> module_ok(self.module@),
            r is Err ==> r->Err_0 == Error::Compile && final(device)@.mem == old(device)@.mem
                && final(device)@.queues == old(device)@.queues,
            final(device)@.shaders == old(device)@.shaders || final(device)@.shaders == old(
                device,
            )@.shaders.push(shader_of(self.module@)),
            r is Ok ==> ({
                &&& final(device)@.queues == old(device)@.queues.update(0, Seq::empty())
                &&& exists|s: int|
                    {
                        &&& 0 <= s < final(device)@.shaders.len()
                        &&& final(device)@.shaders[s] == shader_of(self.module@)
                        &&& final(device)@.mem == drain_effect(
                            final(device)@.shaders,
                            retain_ids(old(device)@.mem, argument_resources(args.args@)),
                            old(device)@.queues[0].push(
                                CmdSnap {
                                    shader: s,
                                    args: args.args@,
                                    grid_x: dispatch_size[0] as nat,
                                    tracker: argument_resources(args.args@),
                                },
                            ),
                        )
                    }
            }),
    {
        let cmd = match self.dispatch_async(device, args, dispatch_size) {
            Ok(c) => c,
            Err(e) => {
                return Err(e);
            },
        };
        let ghost mid = device@;
        let ghost csnap = cmd.snap();
        let mut batch: Vec<Command> = Vec::new();
        batch.push(cmd);
        proof {
            assert(batch_shaders_known(mid, batch@));
            assert(batch_snaps(batch@) =~= seq![csnap]);
        }
        let r = submit_default_stream_and_sync(device, batch);
        proof {
            assert(r is Ok);
            assert(mid.queues[0] + seq![csnap] =~= mid.queues[0].push(csnap));
            assert(device@.mem == drain_effect(
                mid.shaders,
                mid.mem,
                mid.queues[0].push(csnap),
            ));
        }
        r
    }
}

/// A resolved, dispatchable kernel together with its declared argument-tuple
/// type `A`. Dispatch accepts any representation acceptable for `A`.
pub struct Kernel<A: KernelArg> {
    pub inner: RawShader,
    pub _marker: core::marker::PhantomData<A>,
}

impl<A: KernelArg> Kernel<A> {
    /// Dispatch over the given grid on the device's default stream: encode
    /// the arguments in declaration order, submit, and block until the work
    /// has run. A failed deferred build surfaces here as a compile error.
    pub fn dispatch(
        &self,
        device: &mut Device,
        args: &impl AsKernelArg<A>,
        dispatch_size: [u32; 3],
    ) -> (r: Result<(), Error>)
        requires
            old(device).wf(),
            self.inner.wf_in(old(device)@),
            args_live(old(device)@.mem, args.arg_records()),
            retain_headroom(old(device)@.mem, args.arg_records()),
        ensures
            final(device).wf(),
            self.inner.wf_in(final(device)@),
            r is Ok <==> module_ok(self.inner.module@),
            r is Err ==> r->Err_0 == Error::Compile && final(device)@.mem == old(device)@.mem
                && final(device)@.queues == old(device)@.queues,
            r is Ok ==> ({
                &&& final(device)@.queues == old(device)@.queues.update(0, Seq::empty())
                &&& exists|s: int|
                    {
                        &&& 0 <= s < final(device)@.shaders.len()
                        &&& final(device)@.shaders[s] == shader_of(self.inner.module@)
                        &&& final(device)@.mem == drain_effect(
                            final(device)@.shaders,
                            retain_ids(old(device)@.mem, argument_resources(args.arg_records())),
                            old(device)@.queues[0].push(
                                CmdSnap {
                                    shader: s,
                                    args: args.arg_records(),
                                    grid_x: dispatch_size[0] as nat,
                                    tracker: argument_resources(args.arg_records()),
                                },
                            ),
                        )
                    }
            }),
    {
        let mut encoder = ArgEncoder::new();
        args.encode(&mut encoder);
        proof {
            assert(encoder.args@ =~= args.arg_records());
        }
        self.inner.dispatch(device, &encoder, dispatch_size)
    }

    /// Encode a dispatch over the given grid into a command without
    /// submitting it. The command's resource tracker keeps every referenced
    /// resource alive for the command's in-flight lifetime.
    pub fn dispatch_async(
        &self,
        device: &mut Device,
        args: &impl AsKernelArg<A>,
        dispatch_size: [u32; 3],
    ) -> (r: Result<Command, Error>)
        requires
            old(device).wf(),
            self.inner.wf_in(old(device)@),
            args_live(old(device)@.mem, args.arg_records()),
            retain_headroom(old(device)@.mem, args.arg_records()),
        ensures
            final(device).wf(),
            self.inner.wf_in(final(device)@),
            final(device)@.queues == old(device)@.queues,
            r is Ok <==> module_ok(self.inner.module@),
            r is Err ==> r->Err_0 == Error::Compile && final(device)@.mem == old(device)@.mem,
            r is Ok ==> ({
                let c = r->Ok_0;
                &&& c.snap().args == args.arg_records()
                &&& c.snap().grid_x == dispatch_size[0] as nat
                &&& c.snap().tracker == argument_resources(args.arg_records())
                &&& 0 <= c.snap().shader < final(device)@.shaders.len()
                &&& final(device)@.shaders[c.snap().shader] == shader_of(self.inner.module@)
                &&& final(device)@.mem == retain_ids(
                    old(device)@.mem,
                    argument_resources(args.arg_records()),
                )
            }),
    {
        let mut encoder = ArgEncoder::new();
        args.encode(&mut encoder);
        proof {
            assert(encoder.args@ =~= args.arg_records());
        }
        self.inner.dispatch_async(device, &encoder, dispatch_size)
    }

    /// The identity under which the backend keys this kernel's on-disk
    /// shader cache: a deterministic function of the module's structure, so
    /// structurally identical modules report the same key. Resolves a
    /// deferred build first; a failed build surfaces as a compile error.
    pub fn cache_dir(&self, device: &mut Device) -> (r: Result<
        Option<ShaderCacheKey>,
        Error,
    >)
        requires
            old(device).wf(),
            self.inner.wf_in(old(device)@),
        ensures
            final(device).wf(),
            self.inner.wf_in(final(device)@),
            final(device)@.mem == old(device)@.mem,
            final(device)@.queues == old(device)@.queues,
            r is Ok <==> module_ok(self.inner.module@),
            r is Err ==> r->Err_0 == Error::Compile,
            r is Ok ==> r->Ok_0 == Some(
                cache_key_of(self.inner.module@.n_args as nat, self.inner.module@.body),
            ),
    {
        let s = match self.inner.resolve(device) {
            Ok(s) => s,
            Err(e) => {
                return Err(e);
            },
        };
        Ok(device.shader_cache_key(s))
    }
}

impl KernelArg for () {
    open spec fn arg_records(&self) -> Seq<api::Argument> {
        Seq::empty()
    }

    fn encode(&self, encoder: &mut ArgEncoder) {
        proof {
            assert(encoder.args@ =~= encoder.args@ + Seq::<api::Argument>::empty());
        }
    }
}

impl AsKernelArg<()> for () {

}

impl<T0: KernelArg> KernelArg for (T0,) {
    open spec fn arg_records(&self) -> Seq<api::Argument> {
        self.0.arg_records()
    }

    fn encode(&self, encoder: &mut ArgEncoder) {
        self.0.encode(encoder);
        proof {
            assert(encoder.args@ =~= old(encoder).args@ + self.arg_records());
        }
    }
}

impl<T0: KernelArg, S0: AsKernelArg<T0>> AsKernelArg<(T0,)> for (S0,) {

}

impl<T0: KernelArg, T1: KernelArg> KernelArg for (T0, T1) {
    open spec fn arg_records(&self) -> Seq<api::Argument> {
        self.0.arg_records() + self.1.arg_records()
    }

    fn encode(&self, encoder: &mut ArgEncoder) {
        self.0.encode(encoder);
        self.1.encode(encoder);
        proof {
            assert(encoder.args@ =~= old(encoder).args@ + self.arg_records());
        }
    }
}

impl<T0: KernelArg, T1: KernelArg, S0: AsKernelArg<T0>, S1: AsKernelArg<T1>> AsKernelArg<(T0, T1)> for (S0, S1) {

}

impl<T0: KernelArg, T1: KernelArg, T2: KernelArg> KernelArg for (T0, T1, T2) {
    open spec fn arg_records(&self) -> Seq<api::Argument> {
        self.0.arg_records() + self.1.arg_records() + self.2.arg_records()
    }

    fn encode(&self, encoder: &mut ArgEncoder) {
        self.0.encode(encoder);
        self.1.encode(encoder);
        self.2.encode(encoder);
        proof {
            assert(encoder.args@ =~= old(encoder).args@ + self.arg_records());
        }
    }
}

impl<T0: KernelArg, T1: KernelArg, T2: KernelArg, S0: AsKernelArg<T0>, S1: AsKernelArg<T1>, S2: AsKernelArg<T2>> AsKernelArg<(T0, T1, T2)> for (S0, S1, S2) {

}

impl<T0: KernelArg, T1: KernelArg, T2: KernelArg, T3: KernelArg> KernelArg for (T0, T1, T2, T3) {
    open spec fn arg_records(&self) -> Seq<api::Argument> {
        self.0.arg_records() + self.1.arg_records() + self.2.arg_records() + self.3.arg_records()
    }

    fn encode(&self, encoder: &mut ArgEncoder) {
        self.0.encode(encoder);
        self.1.encode(encoder);
        self.2.encode(encoder);
        self.3.encode(encoder);
        proof {
            assert(encoder.args@ =~= old(encoder).args@ + self.arg_records());
        }
    }
}

impl<T0: KernelArg, T1: KernelArg, T2: KernelArg, T3: KernelArg, S0: AsKernelArg<T0>, S1: AsKernelArg<T1>, S2: AsKernelArg<T2>, S3: AsKernelArg<T3>> AsKernelArg<(T0, T1, T2, T3)> for (S0, S1, S2, S3) {

}

impl<T0: KernelArg, T1: KernelArg, T2: KernelArg, T3: KernelArg, T4: KernelArg> KernelArg for (T0, T1, T2, T3, T4) {
    open spec fn arg_records(&self) -> Seq<api::Argument> {
        self.0.arg_records() + self.1.arg_records() + self.2.arg_records() + self.3.arg_records() + self.4.arg_records()
    }

    fn encode(&self, encoder: &mut ArgEncoder) {
        self.0.encode(encoder);
        self.1.encode(encoder);
        self.2.encode(encoder);
        self.3.encode(encoder);
        self.4.encode(encoder);
        proof {
            assert(encoder.args@ =~= old(encoder).args@ + self.arg_records());
        }
    }
}

impl<T0: KernelArg, T1: KernelArg, T2: KernelArg, T3: KernelArg, T4: KernelArg, S0: AsKernelArg<T0>, S1: AsKernelArg<T1>, S2: AsKernelArg<T2>, S3: AsKernelArg<T3>, S4: AsKernelArg<T4>> AsKernelArg<(T0, T1, T2, T3, T4)> for (S0, S1, S2, S3, S4) {

}

impl<T0: KernelArg, T1: KernelArg, T2: KernelArg, T3: KernelArg, T4: KernelArg, T5: KernelArg> KernelArg for (T0, T1, T2, T3, T4, T5) {
    open spec fn arg_records(&self) -> Seq<api::Argument> {
        self.0.arg_records() + self.1.arg_records() + self.2.arg_records() + self.3.arg_records() + self.4.arg_records() + self.5.arg_records()
    }

    fn encode(&self, encoder: &mut ArgEncoder) {
        self.0.encode(encoder);
        self.1.encode(encoder);
        self.2.encode(encoder);
        self.3.encode(encoder);
        self.4.encode(encoder);
        self.5.encode(encoder);
        proof {
            assert(encoder.args@ =~= old(encoder).args@ + self.arg_records());
        }
    }
}

impl<T0: KernelArg, T1: KernelArg, T2: KernelArg, T3: KernelArg, T4: KernelArg, T5: KernelArg, S0: AsKernelArg<T0>, S1: AsKernelArg<T1>, S2: AsKernelArg<T2>, S3: AsKernelArg<T3>, S4: AsKernelArg<T4>, S5: AsKernelArg<T5>> AsKernelArg<(T0, T1, T2, T3, T4, T5)> for (S0, S1, S2, S3, S4, S5) {

}

impl<T0: KernelArg, T1: KernelArg, T2: KernelArg, T3: KernelArg, T4: KernelArg, T5: KernelArg, T6: KernelArg> KernelArg for (T0, T1, T2, T3, T4, T5, T6) {
    open spec fn arg_records(&self) -> Seq<api::Argument> {
        self.0.arg_records() + self.1.arg_records() + self.2.arg_records() + self.3.arg_records() + self.4.arg_records() + self.5.arg_records() + self.6.arg_records()
    }

    fn encode(&self, encoder: &mut ArgEncoder) {
        self.0.encode(encoder);
        self.1.encode(encoder);
        self.2.encode(encoder);
        self.3.encode(encoder);
        self.4.encode(encoder);
        self.5.encode(encoder);
        self.6.encode(encoder);
        proof {
            assert(encoder.args@ =~= old(encoder).args@ + self.arg_records());
        }
    }
}

impl<T0: KernelArg, T1: KernelArg, T2: KernelArg, T3: KernelArg, T4: KernelArg, T5: KernelArg, T6: KernelArg, S0: AsKernelArg<T0>, S1: AsKernelArg<T1>, S2: AsKernelArg<T2>, S3: AsKernelArg<T3>, S4: AsKernelArg<T4>, S5: AsKernelArg<T5>, S6: AsKernelArg<T6>> AsKernelArg<(T0, T1, T2, T3, T4, T5, T6)> for (S0, S1, S2, S3, S4, S5, S6) {

}

impl<T0: KernelArg, T1: KernelArg, T2: KernelArg, T3: KernelArg, T4: KernelArg, T5: KernelArg, T6: KernelArg, T7: KernelArg> KernelArg for (T0, T1, T2, T3, T4, T5, T6, T7) {
    open spec fn arg_records(&self) -> Seq<api::Argument> {
        self.0.arg_records() + self.1.arg_records() + self.2.arg_records() + self.3.arg_records() + self.4.arg_records() + self.5.arg_records() + self.6.arg_records() + self.7.arg_records()
    }

    fn encode(&self, encoder: &mut ArgEncoder) {
        self.0.encode(encoder);
        self.1.encode(encoder);
        self.2.encode(encoder);
        self.3.encode(encoder);
        self.4.encode(encoder);
        self.5.encode(encoder);
        self.6.encode(encoder);
        self.7.encode(encoder);
        proof {
            assert(encoder.args@ =~= old(encoder).args@ + self.arg_records());
        }
    }
}

impl<T0: KernelArg, T1: KernelArg, T2: KernelArg, T3: KernelArg, T4: KernelArg, T5: KernelArg, T6: KernelArg, T7: KernelArg, S0: AsKernelArg<T0>, S1: AsKernelArg<T1>, S2: AsKernelArg<T2>, S3: AsKernelArg<T3>, S4: AsKernelArg<T4>, S5: AsKernelArg<T5>, S6: AsKernelArg<T6>, S7: AsKernelArg<T7>> AsKernelArg<(T0, T1, T2, T3, T4, T5, T6, T7)> for (S0, S1, S2, S3, S4, S5, S6, S7) {

}

impl<T0: KernelArg, T1: KernelArg, T2: KernelArg, T3: KernelArg, T4: KernelArg, T5: KernelArg, T6: KernelArg, T7: KernelArg, T8: KernelArg> KernelArg for (T0, T1, T2, T3, T4, T5, T6, T7, T8) {
    open spec fn arg_records(&self) -> Seq<api::Argument> {
        self.0.arg_records() + self.1.arg_records() + self.2.arg_records() + self.3.arg_records() + self.4.arg_records() + self.5.arg_records() + self.6.arg_records() + self.7.arg_records() + self.8.arg_records()
    }

    fn encode(&self, encoder: &mut ArgEncoder) {
        self.0.encode(encoder);
        self.1.encode(encoder);
        self.2.encode(encoder);
        self.3.encode(encoder);
        self.4.encode(encoder);
        self.5.encode(encoder);
        self.6.encode(encoder);
        self.7.encode(encoder);
        self.8.encode(encoder);
        proof {
            assert(encoder.args@ =~= old(encoder).args@ + self.arg_records());
        }
    }
}

impl<T0: KernelArg, T1: KernelArg, T2: KernelArg, T3: KernelArg, T4: KernelArg, T5: KernelArg, T6: KernelArg, T7: KernelArg, T8: KernelArg, S0: AsKernelArg<T0>, S1: AsKernelArg<T1>, S2: AsKernelArg<T2>, S3: AsKernelArg<T3>, S4: AsKernelArg<T4>, S5: AsKernelArg<T5>, S6: AsKernelArg<T6>, S7: AsKernelArg<T7>, S8: AsKernelArg<T8>> AsKernelArg<(T0, T1, T2, T3, T4, T5, T6, T7, T8)> for (S0, S1, S2, S3, S4, S5, S6, S7, S8) {

}

impl<T0: KernelArg, T1: KernelArg, T2: KernelArg, T3: KernelArg, T4: KernelArg, T5: KernelArg, T6: KernelArg, T7: KernelArg, T8: KernelArg, T9: KernelArg> KernelArg for (T0, T1, T2, T3, T4, T5, T6, T7, T8, T9) {
    open spec fn arg_records(&self) -> Seq<api::Argument> {
        self.0.arg_records() + self.1.arg_records() + self.2.arg_records() + self.3.arg_records() + self.4.arg_records() + self.5.arg_records() + self.6.arg_records() + self.7.arg_records() + self.8.arg_records() + self.9.arg_records()
    }

    fn encode(&self, encoder: &mut ArgEncoder) {
        self.0.encode(encoder);
        self.1.encode(encoder);
        self.2.encode(encoder);
        self.3.encode(encoder);
        self.4.encode(encoder);
        self.5.encode(encoder);
        self.6.encode(encoder);
        self.7.encode(encoder);
        self.8.encode(encoder);
        self.9.encode(encoder);
        proof {
            assert(encoder.args@ =~= old(encoder).args@ + self.arg_records());
        }
    }
}

impl<T0: KernelArg, T1: KernelArg, T2: KernelArg, T3: KernelArg, T4: KernelArg, T5: KernelArg, T6: KernelArg, T7: KernelArg, T8: KernelArg, T9: KernelArg, S0: AsKernelArg<T0>, S1: AsKernelArg<T1>, S2: AsKernelArg<T2>, S3: AsKernelArg<T3>, S4: AsKernelArg<T4>, S5: AsKernelArg<T5>, S6: AsKernelArg<T6>, S7: AsKernelArg<T7>, S8: AsKernelArg<T8>, S9: AsKernelArg<T9>> AsKernelArg<(T0, T1, T2, T3, T4, T5, T6, T7, T8, T9)> for (S0, S1, S2, S3, S4, S5, S6, S7, S8, S9) {

}

impl<T0: KernelArg, T1: KernelArg, T2: KernelArg, T3: KernelArg, T4: KernelArg, T5: KernelArg, T6: KernelArg, T7: KernelArg, T8: KernelArg, T9: KernelArg, T10: KernelArg> KernelArg for (T0, T1, T2, T3, T4, T5, T6, T7, T8, T9, T10) {
    open spec fn arg_records(&self) -> Seq<api::Argument> {
        self.0.arg_records() + self.1.arg_records() + self.2.arg_records() + self.3.arg_records() + self.4.arg_records() + self.5.arg_records() + self.6.arg_records() + self.7.arg_records() + self.8.arg_records() + self.9.arg_records() + self.10.arg_records()
    }

    fn encode(&self, encoder: &mut ArgEncoder) {
        self.0.encode(encoder);
        self.1.encode(encoder);
        self.2.encode(encoder);
        self.3.encode(encoder);
        self.4.encode(encoder);
        self.5.encode(encoder);
        self.6.encode(encoder);
        self.7.encode(encoder);
        self.8.encode(encoder);
        self.9.encode(encoder);
        self.10.encode(encoder);
        proof {
            assert(encoder.args@ =~= old(encoder).args@ + self.arg_records());
        }
    }
}

impl<T0: KernelArg, T1: KernelArg, T2: KernelArg, T3: KernelArg, T4: KernelArg, T5: KernelArg, T6: KernelArg, T7: KernelArg, T8: KernelArg, T9: KernelArg, T10: KernelArg, S0: AsKernelArg<T0>, S1: AsKernelArg<T1>, S2: AsKernelArg<T2>, S3: AsKernelArg<T3>, S4: AsKernelArg<T4>, S5: AsKernelArg<T5>, S6: AsKernelArg<T6>, S7: AsKernelArg<T7>, S8: AsKernelArg<T8>, S9: AsKernelArg<T9>, S10: AsKernelArg<T10>> AsKernelArg<(T0, T1, T2, T3, T4, T5, T6, T7, T8, T9, T10)> for (S0, S1, S2, S3, S4, S5, S6, S7, S8, S9, S10) {

}

impl<T0: KernelArg, T1: KernelArg, T2: KernelArg, T3: KernelArg, T4: KernelArg, T5: KernelArg, T6: KernelArg, T7: KernelArg, T8: KernelArg, T9: KernelArg, T10: KernelArg, T11: KernelArg> KernelArg for (T0, T1, T2, T3, T4, T5, T6, T7, T8, T9, T10, T11) {
    open spec fn arg_records(&self) -> Seq<api::Argument> {
        self.0.arg_records() + self.1.arg_records() + self.2.arg_records() + self.3.arg_records() + self.4.arg_records() + self.5.arg_records() + self.6.arg_records() + self.7.arg_records() + self.8.arg_records() + self.9.arg_records() + self.10.arg_records() + self.11.arg_records()
    }

    fn encode(&self, encoder: &mut ArgEncoder) {
        self.0.encode(encoder);
        self.1.encode(encoder);
        self.2.encode(encoder);
        self.3.encode(encoder);
        self.4.encode(encoder);
        self.5.encode(encoder);
        self.6.encode(encoder);
        self.7.encode(encoder);
        self.8.encode(encoder);
        self.9.encode(encoder);
        self.10.encode(encoder);
        self.11.encode(encoder);
        proof {
            assert(encoder.args@ =~= old(encoder).args@ + self.arg_records());
        }
    }
}

impl<T0: KernelArg, T1: KernelArg, T2: KernelArg, T3: KernelArg, T4: KernelArg, T5: KernelArg, T6: KernelArg, T7: KernelArg, T8: KernelArg, T9: KernelArg, T10: KernelArg, T11: KernelArg, S0: AsKernelArg<T0>, S1: AsKernelArg<T1>, S2: AsKernelArg<T2>, S3: AsKernelArg<T3>, S4: AsKernelArg<T4>, S5: AsKernelArg<T5>, S6: AsKernelArg<T6>, S7: AsKernelArg<T7>, S8: AsKernelArg<T8>, S9: AsKernelArg<T9>, S10: AsKernelArg<T10>, S11: AsKernelArg<T11>> AsKernelArg<(T0, T1, T2, T3, T4, T5, T6, T7, T8, T9, T10, T11)> for (S0, S1, S2, S3, S4, S5, S6, S7, S8, S9, S10, S11) {

}

impl<T0: KernelArg, T1: KernelArg, T2: KernelArg, T3: KernelArg, T4: KernelArg, T5: KernelArg, T6: KernelArg, T7: KernelArg, T8: KernelArg, T9: KernelArg, T10: KernelArg, T11: KernelArg, T12: KernelArg> KernelArg for (T0, T1, T2, T3, T4, T5, T6, T7, T8, T9, T10, T11, T12) {
    open spec fn arg_records(&self) -> Seq<api::Argument> {
        self.0.arg_records() + self.1.arg_records() + self.2.arg_records() + self.3.arg_records() + self.4.arg_records() + self.5.arg_records() + self.6.arg_records() + self.7.arg_records() + self.8.arg_records() + self.9.arg_records() + self.10.arg_records() + self.11.arg_records() + self.12.arg_records()
    }

    fn encode(&self, encoder: &mut ArgEncoder) {
        self.0.encode(encoder);
        self.1.encode(encoder);
        self.2.encode(encoder);
        self.3.encode(encoder);
        self.4.encode(encoder);
        self.5.encode(encoder);
        self.6.encode(encoder);
        self.7.encode(encoder);
        self.8.encode(encoder);
        self.9.encode(encoder);
        self.10.encode(encoder);
        self.11.encode(encoder);
        self.12.encode(encoder);
        proof {
            assert(encoder.args@ =~= old(encoder).args@ + self.arg_records());
        }
    }
}

impl<T0: KernelArg, T1: KernelArg, T2: KernelArg, T3: KernelArg, T4: KernelArg, T5: KernelArg, T6: KernelArg, T7: KernelArg, T8: KernelArg, T9: KernelArg, T10: KernelArg, T11: KernelArg, T12: KernelArg, S0: AsKernelArg<T0>, S1: AsKernelArg<T1>, S2: AsKernelArg<T2>, S3: AsKernelArg<T3>, S4: AsKernelArg<T4>, S5: AsKernelArg<T5>, S6: AsKernelArg<T6>, S7: AsKernelArg<T7>, S8: AsKernelArg<T8>, S9: AsKernelArg<T9>, S10: AsKernelArg<T10>, S11: AsKernelArg<T11>, S12: AsKernelArg<T12>> AsKernelArg<(T0, T1, T2, T3, T4, T5, T6, T7, T8, T9, T10, T11, T12)> for (S0, S1, S2, S3, S4, S5, S6, S7, S8, S9, S10, S11, S12) {

}

impl<T0: KernelArg, T1: KernelArg, T2: KernelArg, T3: KernelArg, T4: KernelArg, T5: KernelArg, T6: KernelArg, T7: KernelArg, T8: KernelArg, T9: KernelArg, T10: KernelArg, T11: KernelArg, T12: KernelArg, T13: KernelArg> KernelArg for (T0, T1, T2, T3, T4, T5, T6, T7, T8, T9, T10, T11, T12, T13) {
    open spec fn arg_records(&self) -> Seq<api::Argument> {
        self.0.arg_records() + self.1.arg_records() + self.2.arg_records() + self.3.arg_records() + self.4.arg_records() + self.5.arg_records() + self.6.arg_records() + self.7.arg_records() + self.8.arg_records() + self.9.arg_records() + self.10.arg_records() + self.11.arg_records() + self.12.arg_records() + self.13.arg_records()
    }

    fn encode(&self, encoder: &mut ArgEncoder) {
        self.0.encode(encoder);
        self.1.encode(encoder);
        self.2.encode(encoder);
        self.3.encode(encoder);
        self.4.encode(encoder);
        self.5.encode(encoder);
        self.6.encode(encoder);
        self.7.encode(encoder);
        self.8.encode(encoder);
        self.9.encode(encoder);
        self.10.encode(encoder);
        self.11.encode(encoder);
        self.12.encode(encoder);
        self.13.encode(encoder);
        proof {
            assert(encoder.args@ =~= old(encoder).args@ + self.arg_records());
        }
    }
}

impl<T0: KernelArg, T1: KernelArg, T2: KernelArg, T3: KernelArg, T4: KernelArg, T5: KernelArg, T6: KernelArg, T7: KernelArg, T8: KernelArg, T9: KernelArg, T10: KernelArg, T11: KernelArg, T12: KernelArg, T13: KernelArg, S0: AsKernelArg<T0>, S1: AsKernelArg<T1>, S2: AsKernelArg<T2>, S3: AsKernelArg<T3>, S4: AsKernelArg<T4>, S5: AsKernelArg<T5>, S6: AsKernelArg<T6>, S7: AsKernelArg<T7>, S8: AsKernelArg<T8>, S9: AsKernelArg<T9>, S10: AsKernelArg<T10>, S11: AsKernelArg<T11>, S12: AsKernelArg<T12>, S13: AsKernelArg<T13>> AsKernelArg<(T0, T1, T2, T3, T4, T5, T6, T7, T8, T9, T10, T11, T12, T13)> for (S0, S1, S2, S3, S4, S5, S6, S7, S8, S9, S10, S11, S12, S13) {

}

impl<T0: KernelArg, T1: KernelArg, T2: KernelArg, T3: KernelArg, T4: KernelArg, T5: KernelArg, T6: KernelArg, T7: KernelArg, T8: KernelArg, T9: KernelArg, T10: KernelArg, T11: KernelArg, T12: KernelArg, T13: KernelArg, T14: KernelArg> KernelArg for (T0, T1, T2, T3, T4, T5, T6, T7, T8, T9, T10, T11, T12, T13, T14) {
    open spec fn arg_records(&self) -> Seq<api::Argument> {
        self.0.arg_records() + self.1.arg_records() + self.2.arg_records() + self.3.arg_records() + self.4.arg_records() + self.5.arg_records() + self.6.arg_records() + self.7.arg_records() + self.8.arg_records() + self.9.arg_records() + self.10.arg_records() + self.11.arg_records() + self.12.arg_records() + self.13.arg_records() + self.14.arg_records()
    }

    fn encode(&self, encoder: &mut ArgEncoder) {
        self.0.encode(encoder);
        self.1.encode(encoder);
        self.2.encode(encoder);
        self.3.encode(encoder);
        self.4.encode(encoder);
        self.5.encode(encoder);
        self.6.encode(encoder);
        self.7.encode(encoder);
        self.8.encode(encoder);
        self.9.encode(encoder);
        self.10.encode(encoder);
        self.11.encode(encoder);
        self.12.encode(encoder);
        self.13.encode(encoder);
        self.14.encode(encoder);
        proof {
            assert(encoder.args@ =~= old(encoder).args@ + self.arg_records());
        }
    }
}

impl<T0: KernelArg, T1: KernelArg, T2: KernelArg, T3: KernelArg, T4: KernelArg, T5: KernelArg, T6: KernelArg, T7: KernelArg, T8: KernelArg, T9: KernelArg, T10: KernelArg, T11: KernelArg, T12: KernelArg, T13: KernelArg, T14: KernelArg, S0: AsKernelArg<T0>, S1: AsKernelArg<T1>, S2: AsKernelArg<T2>, S3: AsKernelArg<T3>, S4: AsKernelArg<T4>, S5: AsKernelArg<T5>, S6: AsKernelArg<T6>, S7: AsKernelArg<T7>, S8: AsKernelArg<T8>, S9: AsKernelArg<T9>, S10: AsKernelArg<T10>, S11: AsKernelArg<T11>, S12: AsKernelArg<T12>, S13: AsKernelArg<T13>, S14: AsKernelArg<T14>> AsKernelArg<(T0, T1, T2, T3, T4, T5, T6, T7, T8, T9, T10, T11, T12, T13, T14)> for (S0, S1, S2, S3, S4, S5, S6, S7, S8, S9, S10, S11, S12, S13, S14) {

}

impl<T0: KernelArg, T1: KernelArg, T2: KernelArg, T3: KernelArg, T4: KernelArg, T5: KernelArg, T6: KernelArg, T7: KernelArg, T8: KernelArg, T9: KernelArg, T10: KernelArg, T11: KernelArg, T12: KernelArg, T13: KernelArg, T14: KernelArg, T15: KernelArg> KernelArg for (T0, T1, T2, T3, T4, T5, T6, T7, T8, T9, T10, T11, T12, T13, T14, T15) {
    open spec fn arg_records(&self) -> Seq<api::Argument> {
        self.0.arg_records() + self.1.arg_records() + self.2.arg_records() + self.3.arg_records() + self.4.arg_records() + self.5.arg_records() + self.6.arg_records() + self.7.arg_records() + self.8.arg_records() + self.9.arg_records() + self.10.arg_records() + self.11.arg_records() + self.12.arg_records() + self.13.arg_records() + self.14.arg_records() + self.15.arg_records()
    }

    fn encode(&self, encoder: &mut ArgEncoder) {
        self.0.encode(encoder);
        self.1.encode(encoder);
        self.2.encode(encoder);
        self.3.encode(encoder);
        self.4.encode(encoder);
        self.5.encode(encoder);
        self.6.encode(encoder);
        self.7.encode(encoder);
        self.8.encode(encoder);
        self.9.encode(encoder);
        self.10.encode(encoder);
        self.11.encode(encoder);
        self.12.encode(encoder);
        self.13.encode(encoder);
        self.14.encode(encoder);
        self.15.encode(encoder);
        proof {
            assert(encoder.args@ =~= old(encoder).args@ + self.arg_records());
        }
    }
}

impl<T0: KernelArg, T1: KernelArg, T2: KernelArg, T3: KernelArg, T4: KernelArg, T5: KernelArg, T6: KernelArg, T7: KernelArg, T8: KernelArg, T9: KernelArg, T10: KernelArg, T11: KernelArg, T12: KernelArg, T13: KernelArg, T14: KernelArg, T15: KernelArg, S0: AsKernelArg<T0>, S1: AsKernelArg<T1>, S2: AsKernelArg<T2>, S3: AsKernelArg<T3>, S4: AsKernelArg<T4>, S5: AsKernelArg<T5>, S6: AsKernelArg<T6>, S7: AsKernelArg<T7>, S8: AsKernelArg<T8>, S9: AsKernelArg<T9>, S10: AsKernelArg<T10>, S11: AsKernelArg<T11>, S12: AsKernelArg<T12>, S13: AsKernelArg<T13>, S14: AsKernelArg<T14>, S15: AsKernelArg<T15>> AsKernelArg<(T0, T1, T2, T3, T4, T5, T6, T7, T8, T9, T10, T11, T12, T13, T14, T15)> for (S0, S1, S2, S3, S4, S5, S6, S7, S8, S9, S10, S11, S12, S13, S14, S15) {

}

} // verus!
