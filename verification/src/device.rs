//! The device: front door to the reference backend and owner of all backend
//! state.
//!
//! Every resource, stream, compiled shader and deferred-compilation slot
//! lives in a table here, addressed by the opaque id its handle carries.
//! Factory calls append slots; handle releases and completed command trackers
//! decrement reference counts and tear a resource down exactly once, when its
//! last reference of either kind goes.

use vstd::prelude::*;
use crate::api;
use crate::ir::{KernelBody, KernelModule};
use crate::resource::Buffer;
use crate::semantics::{
    args_live, argument_resource, argument_resources, buffer_arg_ok, arg_elem_offset,
    arg_elem_len, copy_into_data, device_wf, drain_effect, exec_body, exec_command, exec_commands,
    fill_data, host_range_ok, lemma_exec_commands_push, lemma_release_commands_push,
    lemma_release_ids_push, lemma_retain_ids_push, release_commands, release_ids, release_one,
    release_user, retain_headroom, retain_ids, retain_one, shader_of, write_iota_data,
    write_range_data, ArtifactSnap, CmdSnap, DeviceSnap, ResSnap, ResourceKind, ShaderSnap,
};
use crate::stream::{batch_shaders_known, batch_snaps, Command, Stream};
use crate::Error;

verus! {

/// One resource slot of the device.
pub(crate) struct ResourceSlot {
    pub(crate) kind: ResourceKind,
    pub(crate) elem_size: usize,
    pub(crate) len: usize,
    pub(crate) data: Vec<u64>,
    pub(crate) user_refs: usize,
    pub(crate) cmd_refs: usize,
    pub(crate) alive: bool,
}

impl ResourceSlot {
    pub(crate) open spec fn snap(self) -> ResSnap {
        ResSnap {
            kind: self.kind,
            elem_size: self.elem_size as nat,
            len: self.len as nat,
            data: self.data@,
            user_refs: self.user_refs as nat,
            cmd_refs: self.cmd_refs as nat,
            alive: self.alive,
        }
    }
}

/// One command sitting in a stream's queue.
pub(crate) struct QueuedCommand {
    pub(crate) shader: api::Shader,
    pub(crate) args: Vec<api::Argument>,
    pub(crate) dispatch_size: [u32; 3],
    pub(crate) tracker: Vec<usize>,
}

impl QueuedCommand {
    pub(crate) open spec fn snap(self) -> CmdSnap {
        CmdSnap {
            shader: self.shader.0 as int,
            args: self.args@,
            grid_x: self.dispatch_size[0] as nat,
            tracker: self.tracker@.map_values(|u: usize| u as int),
        }
    }
}

/// One stream slot: its pending commands, in submission order.
pub(crate) struct StreamSlot {
    pub(crate) queue: Vec<QueuedCommand>,
}

/// One compiled shader object.
pub(crate) struct ShaderSlot {
    pub(crate) body: KernelBody,
    pub(crate) n_args: usize,
}

impl ShaderSlot {
    pub(crate) open spec fn snap(self) -> ShaderSnap {
        ShaderSnap { body: self.body, n_args: self.n_args as nat }
    }
}

/// One deferred-compilation slot.
pub(crate) struct ArtifactSlot {
    pub(crate) module: KernelModule,
    pub(crate) result: Option<Result<api::Shader, Error>>,
}

/// A backend device connection. It owns its built-in default stream, a
/// resource table, the compiled shaders and the deferred-compilation slots.
pub struct Device {
    pub(crate) resources: Vec<ResourceSlot>,
    pub(crate) streams: Vec<StreamSlot>,
    pub(crate) shaders: Vec<ShaderSlot>,
    pub(crate) artifacts: Vec<ArtifactSlot>,
}

/// Snapshots of a resource table.
pub(crate) open spec fn res_snaps(rs: Seq<ResourceSlot>) -> Seq<ResSnap> {
    rs.map_values(|r: ResourceSlot| r.snap())
}

/// Snapshots of a shader table.
pub(crate) open spec fn shader_snaps_of(ss: Seq<ShaderSlot>) -> Seq<ShaderSnap> {
    ss.map_values(|s: ShaderSlot| s.snap())
}

/// Snapshots of one stream queue.
pub(crate) open spec fn queue_snaps(q: Seq<QueuedCommand>) -> Seq<CmdSnap> {
    q.map_values(|c: QueuedCommand| c.snap())
}

impl View for Device {
    type V = DeviceSnap;

    closed spec fn view(&self) -> DeviceSnap {
        DeviceSnap {
            mem: res_snaps(self.resources@),
            queues: self.streams@.map_values(|s: StreamSlot| queue_snaps(s.queue@)),
            shaders: shader_snaps_of(self.shaders@),
            artifacts: self.artifacts@.map_values(
                |a: ArtifactSlot| ArtifactSnap { module: a.module, result: a.result },
            ),
        }
    }
}

/// The state of a freshly created, zero-initialized buffer of `count`
/// elements of `es` bytes each, owned by one user handle.
pub open spec fn fresh_buffer_snap(es: nat, count: nat) -> ResSnap {
    ResSnap {
        kind: ResourceKind::Buffer,
        elem_size: es,
        len: count,
        data: Seq::new(count, |i: int| 0u64),
        user_refs: 1,
        cmd_refs: 0,
        alive: true,
    }
}

/// The state of a freshly created non-buffer resource, owned by one user
/// handle. `len` is its slot count where the kind has one.
pub open spec fn fresh_plain_snap(kind: ResourceKind, len: nat) -> ResSnap {
    ResSnap {
        kind,
        elem_size: 1,
        len,
        data: Seq::empty(),
        user_refs: 1,
        cmd_refs: 0,
        alive: true,
    }
}

impl Device {
    /// Well-formedness: the default stream exists and recorded compilation
    /// results are sound.
    pub open spec fn wf(self) -> bool {
        device_wf(self@)
    }

    /// Open a new device connection, with its default stream and no
    /// resources.
    pub fn new() -> (d: Device)
        ensures
            d.wf(),
            d@.mem == Seq::<ResSnap>::empty(),
            d@.queues == seq![Seq::<CmdSnap>::empty()],
            d@.shaders == Seq::<ShaderSnap>::empty(),
            d@.artifacts == Seq::<ArtifactSnap>::empty(),
    {
        let mut streams: Vec<StreamSlot> = Vec::new();
        streams.push(StreamSlot { queue: Vec::new() });
        let d = Device { resources: Vec::new(), streams, shaders: Vec::new(), artifacts: Vec::new() };
        proof {
            assert(d@.mem =~= Seq::<ResSnap>::empty());
            assert(d@.queues =~~= seq![Seq::<CmdSnap>::empty()]);
            assert(d@.shaders =~= Seq::<ShaderSnap>::empty());
            assert(d@.artifacts =~= Seq::<ArtifactSnap>::empty());
        }
        d
    }

    /// How many streams this device has, the built-in default one included.
    pub fn stream_count(&self) -> (n: usize)
        ensures
            n == self@.queues.len(),
    {
        self.streams.len()
    }

    /// The device's built-in default queue. Never individually destroyed; it
    /// is torn down with the device itself.
    pub fn default_stream(&self) -> (s: Stream)
        ensures
            s.handle.0 == 0,
    {
        Stream { handle: api::Stream(0) }
    }

    /// Create a buffer of `count` elements of `elem_size` bytes each, zero
    /// initialized. The element size must be nonzero and the byte size of the
    /// buffer must fit in the address space; otherwise the call is rejected
    /// and the device is left unchanged.
    pub fn create_buffer(&mut self, elem_size: usize, count: usize) -> (r: Result<Buffer, Error>)
        requires
            old(self).wf(),
        ensures
            final(self).wf(),
            r is Ok <==> (elem_size > 0 && count * elem_size <= usize::MAX),
            r is Err ==> final(self)@ == old(self)@ && r->Err_0 == Error::ResourceCreation,
            r is Ok ==> ({
                let b = r->Ok_0;
                &&& b.handle.0 == old(self)@.mem.len()
                &&& b.len == count
                &&& b.elem_size == elem_size
                &&& b.size_bytes == count * elem_size
                &&& final(self)@ == (DeviceSnap {
                    mem: old(self)@.mem.push(fresh_buffer_snap(elem_size as nat, count as nat)),
                    ..old(self)@
                })
            }),
    {
        if elem_size == 0 {
            return Err(Error::ResourceCreation);
        }
        let size_bytes = match count.checked_mul(elem_size) {
            Some(sz) => sz,
            None => {
                return Err(Error::ResourceCreation);
            },
        };
        let id = self.resources.len();
        let data = vec![0u64; count];
        let slot = ResourceSlot {
            kind: ResourceKind::Buffer,
            elem_size,
            len: count,
            data,
            user_refs: 1,
            cmd_refs: 0,
            alive: true,
        };
        proof {
            assert(slot.snap().data =~= Seq::new(count as nat, |i: int| 0u64));
        }
        self.resources.push(slot);
        proof {
            assert(self@.mem =~~= old(self)@.mem.push(
                fresh_buffer_snap(elem_size as nat, count as nat),
            ));
            assert(self@.queues =~~= old(self)@.queues);
            assert(self@.shaders =~~= old(self)@.shaders);
            assert(self@.artifacts =~~= old(self)@.artifacts);
            assert(self@ =~~= (DeviceSnap {
                mem: old(self)@.mem.push(fresh_buffer_snap(elem_size as nat, count as nat)),
                ..old(self)@
            }));
        }
        Ok(Buffer { handle: api::Buffer(id), len: count, elem_size, size_bytes })
    }

    /// Give one user reference to resource `id` back; the resource is
    /// destroyed, exactly once, when its last reference of either kind goes.
    pub(crate) fn release_user_ref(&mut self, id: usize)
        requires
            old(self).wf(),
        ensures
            final(self).wf(),
            final(self)@ == (DeviceSnap {
                mem: release_user(old(self)@.mem, id as int),
                ..old(self)@
            }),
    {
        if id < self.resources.len() && self.resources[id].user_refs > 0 {
            let refs = self.resources[id].user_refs - 1;
            self.resources[id].user_refs = refs;
            if refs == 0 && self.resources[id].cmd_refs == 0 {
                self.resources[id].alive = false;
                self.resources[id].data = Vec::new();
            }
            proof {
                assert(self@.mem =~~= release_user(old(self)@.mem, id as int));
                assert(self@ =~~= (DeviceSnap {
                    mem: release_user(old(self)@.mem, id as int),
                    ..old(self)@
                }));
            }
        } else {
            proof {
                assert(self@ =~~= (DeviceSnap {
                    mem: release_user(old(self)@.mem, id as int),
                    ..old(self)@
                }));
            }
        }
    }

    /// Accept a batch on stream `sid`: validate that every command names a
    /// known shader, then append the batch to the stream's queue in order.
    /// A batch with an unknown shader is rejected whole and the device is
    /// left unchanged.
    #[verifier::loop_isolation(false)]
    pub(crate) fn submit_batch(&mut self, sid: usize, commands: Vec<Command>) -> (r: Result<
        (),
        Error,
    >)
        requires
            old(self).wf(),
            sid < old(self)@.queues.len(),
        ensures
            final(self).wf(),
            r is Ok <==> batch_shaders_known(old(self)@, commands@),
            r is Err ==> final(self)@ == old(self)@ && r->Err_0 == Error::Backend,
            r is Ok ==> final(self)@ == (DeviceSnap {
                queues: old(self)@.queues.update(
                    sid as int,
                    old(self)@.queues[sid as int] + batch_snaps(commands@),
                ),
                ..old(self)@
            }),
    {
        let mut i: usize = 0;
        while i < commands.len()
            invariant
                i <= commands@.len(),
                forall|j: int|
                    0 <= j < i ==> 0 <= (#[trigger] commands@[j]).shader_id()
                        < old(self)@.shaders.len(),
                self == old(self),
            decreases commands@.len() - i,
        {
            let known = match &commands[i].inner {
                api::Command::ShaderDispatch(sd) => sd.shader.0 < self.shaders.len(),
            };
            if !known {
                return Err(Error::Backend);
            }
            i += 1;
        }
        let ghost all = commands@;
        proof {
            assert(all.take(0) =~= Seq::<Command>::empty());
            assert(batch_snaps(all.take(0)) =~= Seq::<CmdSnap>::empty());
            assert(old(self)@.queues[sid as int] + batch_snaps(all.take(0))
                =~= old(self)@.queues[sid as int]);
            assert(self@.queues =~~= old(self)@.queues.update(
                sid as int,
                old(self)@.queues[sid as int] + batch_snaps(all.take(0)),
            ));
            assert(self@ =~~= (DeviceSnap {
                queues: old(self)@.queues.update(
                    sid as int,
                    old(self)@.queues[sid as int] + batch_snaps(all.take(0)),
                ),
                ..old(self)@
            }));
        }
        let mut commands = commands;
        while commands.len() > 0
            invariant
                sid < self.streams@.len(),
                commands@ == all.skip(all.len() - commands@.len()),
                commands@.len() <= all.len(),
                self@ == (DeviceSnap {
                    queues: old(self)@.queues.update(
                        sid as int,
                        old(self)@.queues[sid as int] + batch_snaps(
                            all.take(all.len() - commands@.len()),
                        ),
                    ),
                    ..old(self)@
                }),
            decreases commands@.len(),
        {
            let ghost k = all.len() - commands@.len();
            let ghost pre = self@;
            let c = commands.remove(0);
            proof {
                assert(c == all[k]);
                assert(commands@ =~= all.skip(k + 1));
            }
            let Command { inner, tracker } = c;
            let api::Command::ShaderDispatch(sd) = inner;
            let qc = QueuedCommand {
                shader: sd.shader,
                args: sd.args,
                dispatch_size: sd.dispatch_size,
                tracker,
            };
            proof {
                assert(qc.snap() == all[k].snap());
            }
            let ghost pre_q = self.streams@[sid as int].queue@;
            self.streams[sid].queue.push(qc);
            proof {
                assert(self.streams@[sid as int].queue@ == pre_q.push(qc));
                assert(queue_snaps(pre_q.push(qc)) =~~= queue_snaps(pre_q).push(qc.snap()));
                assert(self@.queues =~~= pre.queues.update(
                    sid as int,
                    pre.queues[sid as int].push(all[k].snap()),
                ));
                assert(all.take(k + 1) =~= all.take(k).push(all[k]));
                assert(batch_snaps(all.take(k + 1)) =~~= batch_snaps(all.take(k)).push(
                    all[k].snap(),
                ));
                assert(old(self)@.queues[sid as int] + batch_snaps(all.take(k + 1))
                    =~~= (old(self)@.queues[sid as int] + batch_snaps(all.take(k))).push(
                    all[k].snap(),
                ));
                assert(self@.queues =~~= old(self)@.queues.update(
                    sid as int,
                    old(self)@.queues[sid as int] + batch_snaps(all.take(k + 1)),
                ));
                assert(self@ =~~= (DeviceSnap {
                    queues: old(self)@.queues.update(
                        sid as int,
                        old(self)@.queues[sid as int] + batch_snaps(all.take(k + 1)),
                    ),
                    ..old(self)@
                }));
            }
        }
        proof {
            assert(all.take(all.len() as int) =~= all);
        }
        Ok(())
    }

    /// Drain stream `sid`: run every queued command, in submission order,
    /// then release every command's tracker, destroying any resource whose
    /// last reference goes.
    #[verifier::loop_isolation(false)]
    pub(crate) fn sync_stream(&mut self, sid: usize) -> (r: Result<(), Error>)
        requires
            old(self).wf(),
            sid < old(self)@.queues.len(),
        ensures
            final(self).wf(),
            r is Ok,
            final(self)@ == (DeviceSnap {
                mem: drain_effect(
                    old(self)@.shaders,
                    old(self)@.mem,
                    old(self)@.queues[sid as int],
                ),
                queues: old(self)@.queues.update(sid as int, Seq::empty()),
                ..old(self)@
            }),
    {
        let ghost orig_q = old(self)@.queues[sid as int];
        let mut done: Vec<QueuedCommand> = Vec::new();
        proof {
            assert(orig_q.take(0) =~= Seq::<CmdSnap>::empty());
            assert(queue_snaps(done@) =~= orig_q.take(0));
            assert(orig_q.skip(0) =~= orig_q);
            assert(self@.queues =~~= old(self)@.queues.update(sid as int, orig_q.skip(0)));
            assert(self@ =~~= (DeviceSnap {
                mem: exec_commands(old(self)@.shaders, old(self)@.mem, orig_q.take(0)),
                queues: old(self)@.queues.update(sid as int, orig_q.skip(0)),
                ..old(self)@
            }));
        }
        while self.streams[sid].queue.len() > 0
            invariant
                sid < self.streams@.len(),
                self.streams@.len() == old(self)@.queues.len(),
                done@.len() + self.streams@[sid as int].queue@.len() == orig_q.len(),
                queue_snaps(done@) == orig_q.take(done@.len() as int),
                self@ == (DeviceSnap {
                    mem: exec_commands(
                        old(self)@.shaders,
                        old(self)@.mem,
                        orig_q.take(done@.len() as int),
                    ),
                    queues: old(self)@.queues.update(
                        sid as int,
                        orig_q.skip(done@.len() as int),
                    ),
                    ..old(self)@
                }),
            decreases self.streams@[sid as int].queue@.len(),
        {
            let ghost k = done@.len() as int;
            let ghost pre = self@;
            let ghost pre_streams = self.streams@;
            let ghost pre_q = self.streams@[sid as int].queue@;
            let c = self.streams[sid].queue.remove(0);
            proof {
                assert(c == pre_q[0]);
                assert(pre.queues[sid as int] == queue_snaps(pre_q));
                assert(queue_snaps(pre_q)[0] == pre_q[0].snap());
                assert(pre.queues[sid as int] == orig_q.skip(k));
                assert(orig_q.skip(k)[0] == orig_q[k]);
                assert(c.snap() == orig_q[k]);
                assert(self.streams@[sid as int].queue@ == pre_q.remove(0));
                assert(queue_snaps(pre_q.remove(0)) =~~= queue_snaps(pre_q).drop_first());
                assert(queue_snaps(pre_q).drop_first() =~~= orig_q.skip(k + 1));
            }
            run_queued(&self.shaders, &mut self.resources, &c);
            done.push(c);
            proof {
                assert(queue_snaps(done@) =~~= orig_q.take(k).push(orig_q[k]));
                assert(orig_q.take(k + 1) =~= orig_q.take(k).push(orig_q[k]));
                lemma_exec_commands_push(
                    old(self)@.shaders,
                    old(self)@.mem,
                    orig_q.take(k),
                    orig_q[k],
                );
                assert(shader_snaps_of(self.shaders@) == old(self)@.shaders);
                assert(self@.mem == exec_command(old(self)@.shaders, pre.mem, orig_q[k]));
                assert(self@.mem == exec_commands(
                    old(self)@.shaders,
                    old(self)@.mem,
                    orig_q.take(k + 1),
                ));
                assert(self.streams@.len() == pre_streams.len());
                assert(forall|j: int|
                    0 <= j < pre_streams.len() && j != sid ==> self.streams@[j]
                        == pre_streams[j]);
                assert(self@.queues.len() == old(self)@.queues.len());
                assert(queue_snaps(self.streams@[sid as int].queue@) == orig_q.skip(k + 1));
                assert forall|j: int|
                    0 <= j < self@.queues.len() && j != sid implies self@.queues[j] == old(
                    self,
                )@.queues[j] by {
                    assert(self@.queues[j] == queue_snaps(self.streams@[j].queue@));
                    assert(self.streams@[j] == pre_streams[j]);
                    assert(pre.queues[j] == queue_snaps(pre_streams[j].queue@));
                    assert(pre.queues[j] == old(self)@.queues[j]);
                }
                assert(self@.queues =~~= old(self)@.queues.update(sid as int, orig_q.skip(k + 1)));
                assert(self@ =~~= (DeviceSnap {
                    mem: exec_commands(old(self)@.shaders, old(self)@.mem, orig_q.take(k + 1)),
                    queues: old(self)@.queues.update(sid as int, orig_q.skip(k + 1)),
                    ..old(self)@
                }));
            }
        }
        let ghost mem1 = exec_commands(old(self)@.shaders, old(self)@.mem, orig_q);
        let ghost done_all = queue_snaps(done@);
        proof {
            assert(orig_q.take(done@.len() as int) =~= orig_q);
            assert(orig_q.skip(done@.len() as int) =~= Seq::<CmdSnap>::empty());
            assert(done_all == orig_q);
            assert(done_all.take(0) =~= Seq::<CmdSnap>::empty());
            assert(release_commands(mem1, done_all.take(0)) == mem1);
            assert(done_all.skip(0) =~= done_all);
            assert(self@ =~~= (DeviceSnap {
                mem: release_commands(mem1, done_all.take(0)),
                queues: old(self)@.queues.update(sid as int, Seq::empty()),
                ..old(self)@
            }));
        }
        let mut done = done;
        while done.len() > 0
            invariant
                done_all == orig_q,
                queue_snaps(done@) == done_all.skip(done_all.len() - done@.len()),
                done@.len() <= done_all.len(),
                self@ == (DeviceSnap {
                    mem: release_commands(mem1, done_all.take(done_all.len() - done@.len())),
                    queues: old(self)@.queues.update(sid as int, Seq::empty()),
                    ..old(self)@
                }),
            decreases done@.len(),
        {
            let ghost k = done_all.len() - done@.len();
            let ghost pre = self@;
            let ghost pre_d = done@;
            let c = done.remove(0);
            proof {
                assert(c == pre_d[0]);
                assert(queue_snaps(pre_d)[0] == pre_d[0].snap());
                assert(done_all.skip(k)[0] == done_all[k]);
                assert(c.snap() == done_all[k]);
                assert(done@ == pre_d.remove(0));
                assert(queue_snaps(pre_d.remove(0)) =~~= queue_snaps(pre_d).drop_first());
                assert(queue_snaps(done@) =~~= done_all.skip(k + 1));
            }
            release_tracker(&mut self.resources, &c.tracker);
            proof {
                assert(done_all.take(k + 1) =~= done_all.take(k).push(done_all[k]));
                lemma_release_commands_push(mem1, done_all.take(k), done_all[k]);
                assert(c.snap().tracker == done_all[k].tracker);
                assert(self@.mem == release_ids(pre.mem, done_all[k].tracker));
                assert(self@.mem == release_commands(mem1, done_all.take(k + 1)));
                assert(self@ =~~= (DeviceSnap {
                    mem: release_commands(mem1, done_all.take(k + 1)),
                    queues: old(self)@.queues.update(sid as int, Seq::empty()),
                    ..old(self)@
                }));
            }
        }
        proof {
            assert(done_all.take(done_all.len() as int) =~= done_all);
        }
        Ok(())
    }
}

/// Whether a buffer argument record can be consumed, decided against the
/// resource table.
pub(crate) fn check_buffer_arg(resources: &Vec<ResourceSlot>, ba: api::BufferArgument) -> (b: bool)
    ensures
        b == buffer_arg_ok(res_snaps(resources@), ba),
{
    let id = ba.buffer.0;
    if id >= resources.len() {
        return false;
    }
    let r = &resources[id];
    if !r.alive {
        return false;
    }
    if !(r.kind == ResourceKind::Buffer) {
        return false;
    }
    if r.elem_size == 0 {
        return false;
    }
    if r.data.len() != r.len {
        return false;
    }
    if ba.offset % r.elem_size != 0 {
        return false;
    }
    if ba.size % r.elem_size != 0 {
        return false;
    }
    let cap = match r.len.checked_mul(r.elem_size) {
        Some(c) => c,
        None => {
            return false;
        },
    };
    let end = match ba.offset.checked_add(ba.size) {
        Some(e) => e,
        None => {
            return false;
        },
    };
    end <= cap
}

/// Element offset and length of a consumable buffer argument.
pub(crate) fn buf_range(resources: &Vec<ResourceSlot>, ba: api::BufferArgument) -> (r: (
    usize,
    usize,
    usize,
))
    requires
        buffer_arg_ok(res_snaps(resources@), ba),
    ensures
        r.0 == ba.buffer.0,
        r.0 < resources@.len(),
        r.1 == arg_elem_offset(res_snaps(resources@), ba),
        r.2 == arg_elem_len(res_snaps(resources@), ba),
        r.1 + r.2 <= resources@[r.0 as int].len,
{
    let id = ba.buffer.0;
    let es = resources[id].elem_size;
    let eoff = ba.offset / es;
    let elen = ba.size / es;
    proof {
        let esi = es as int;
        let off = ba.offset as int;
        let sz = ba.size as int;
        let l = resources@[id as int].len as int;
        vstd::arithmetic::div_mod::lemma_fundamental_div_mod(off, esi);
        vstd::arithmetic::div_mod::lemma_fundamental_div_mod(sz, esi);
        assert(off == esi * (off / esi));
        assert(sz == esi * (sz / esi));
        assert(off / esi + sz / esi <= l) by (nonlinear_arith)
            requires
                esi > 0,
                off == esi * (off / esi),
                sz == esi * (sz / esi),
                off + sz <= l * esi,
        ;
    }
    (id, eoff, elen)
}

/// Run a `WriteIota` body: thread `i` writes the value `i` into element
/// `offset + i` of the first (buffer) argument.
#[verifier::loop_isolation(false)]
pub(crate) fn run_write_iota(
    resources: &mut Vec<ResourceSlot>,
    args: &Vec<api::Argument>,
    grid_x: u32,
)
    ensures
        res_snaps(final(resources)@) == exec_body(
            KernelBody::WriteIota,
            res_snaps(old(resources)@),
            args@,
            grid_x as nat,
        ),
{
    if args.len() < 1 {
        return ;
    }
    let a = args[0];
    let ba = match a {
        api::Argument::Buffer(ba) => ba,
        _ => {
            return ;
        },
    };
    if !check_buffer_arg(resources, ba) {
        return ;
    }
    let (id, eoff, elen) = buf_range(resources, ba);
    let n = if (grid_x as usize) < elen {
        grid_x as usize
    } else {
        elen
    };
    let ghost mem0 = res_snaps(resources@);
    proof {
        assert(n as int == vstd::math::min(grid_x as int, arg_elem_len(mem0, ba)));
    }
    let mut i: usize = 0;
    while i < n
        invariant
            i <= n,
            id < resources@.len(),
            eoff + n <= resources@[id as int].data@.len(),
            resources@.len() == old(resources)@.len(),
            forall|j: int|
                0 <= j < resources@.len() && j != id ==> res_snaps(resources@)[j] == mem0[j],
            resources@[id as int].kind == old(resources)@[id as int].kind,
            resources@[id as int].elem_size == old(resources)@[id as int].elem_size,
            resources@[id as int].len == old(resources)@[id as int].len,
            resources@[id as int].user_refs == old(resources)@[id as int].user_refs,
            resources@[id as int].cmd_refs == old(resources)@[id as int].cmd_refs,
            resources@[id as int].alive == old(resources)@[id as int].alive,
            resources@[id as int].data@.len() == mem0[id as int].data.len(),
            forall|j: int|
                eoff <= j < eoff + i ==> resources@[id as int].data@[j] == (j - eoff) as u64,
            forall|j: int|
                0 <= j < resources@[id as int].data@.len() && !(eoff <= j < eoff + i)
                    ==> resources@[id as int].data@[j] == mem0[id as int].data[j],
        decreases n - i,
    {
        resources[id].data[eoff + i] = i as u64;
        i += 1;
    }
    proof {
        let target = mem0.update(
            id as int,
            ResSnap {
                data: write_iota_data(
                    mem0[id as int].data,
                    arg_elem_offset(mem0, ba),
                    vstd::math::min(grid_x as int, arg_elem_len(mem0, ba)),
                ),
                ..mem0[id as int]
            },
        );
        assert(res_snaps(resources@)[id as int].data =~= target[id as int].data);
        assert(res_snaps(resources@)[id as int] =~= target[id as int]);
        assert(res_snaps(resources@) =~= target);
    }
}

/// Run a `Fill` body: thread `i` writes `v` into element `offset + i` of the
/// first (buffer) argument.
#[verifier::loop_isolation(false)]
pub(crate) fn run_fill(
    resources: &mut Vec<ResourceSlot>,
    args: &Vec<api::Argument>,
    grid_x: u32,
    v: u64,
)
    ensures
        res_snaps(final(resources)@) == exec_body(
            KernelBody::Fill(v),
            res_snaps(old(resources)@),
            args@,
            grid_x as nat,
        ),
{
    if args.len() < 1 {
        return ;
    }
    let a = args[0];
    let ba = match a {
        api::Argument::Buffer(ba) => ba,
        _ => {
            return ;
        },
    };
    if !check_buffer_arg(resources, ba) {
        return ;
    }
    let (id, eoff, elen) = buf_range(resources, ba);
    let n = if (grid_x as usize) < elen {
        grid_x as usize
    } else {
        elen
    };
    let ghost mem0 = res_snaps(resources@);
    proof {
        assert(n as int == vstd::math::min(grid_x as int, arg_elem_len(mem0, ba)));
    }
    let mut i: usize = 0;
    while i < n
        invariant
            i <= n,
            id < resources@.len(),
            eoff + n <= resources@[id as int].data@.len(),
            resources@.len() == old(resources)@.len(),
            forall|j: int|
                0 <= j < resources@.len() && j != id ==> res_snaps(resources@)[j] == mem0[j],
            resources@[id as int].kind == old(resources)@[id as int].kind,
            resources@[id as int].elem_size == old(resources)@[id as int].elem_size,
            resources@[id as int].len == old(resources)@[id as int].len,
            resources@[id as int].user_refs == old(resources)@[id as int].user_refs,
            resources@[id as int].cmd_refs == old(resources)@[id as int].cmd_refs,
            resources@[id as int].alive == old(resources)@[id as int].alive,
            resources@[id as int].data@.len() == mem0[id as int].data.len(),
            forall|j: int| eoff <= j < eoff + i ==> resources@[id as int].data@[j] == v,
            forall|j: int|
                0 <= j < resources@[id as int].data@.len() && !(eoff <= j < eoff + i)
                    ==> resources@[id as int].data@[j] == mem0[id as int].data[j],
        decreases n - i,
    {
        resources[id].data[eoff + i] = v;
        i += 1;
    }
    proof {
        let target = mem0.update(
            id as int,
            ResSnap {
                data: fill_data(
                    mem0[id as int].data,
                    arg_elem_offset(mem0, ba),
                    vstd::math::min(grid_x as int, arg_elem_len(mem0, ba)),
                    v,
                ),
                ..mem0[id as int]
            },
        );
        assert(res_snaps(resources@)[id as int].data =~= target[id as int].data);
        assert(res_snaps(resources@)[id as int] =~= target[id as int]);
        assert(res_snaps(resources@) =~= target);
    }
}

/// Run a `CopyBuffer` body: thread `i` copies element `soff + i` of the
/// first (buffer) argument into element `doff + i` of the second. The source
/// values are the ones from before the command ran, also where the two
/// arguments alias one buffer.
#[verifier::loop_isolation(false)]
pub(crate) fn run_copy(resources: &mut Vec<ResourceSlot>, args: &Vec<api::Argument>, grid_x: u32)
    ensures
        res_snaps(final(resources)@) == exec_body(
            KernelBody::CopyBuffer,
            res_snaps(old(resources)@),
            args@,
            grid_x as nat,
        ),
{
    if args.len() < 2 {
        return ;
    }
    let a0 = args[0];
    let a1 = args[1];
    let src = match a0 {
        api::Argument::Buffer(ba) => ba,
        _ => {
            return ;
        },
    };
    let dst = match a1 {
        api::Argument::Buffer(ba) => ba,
        _ => {
            return ;
        },
    };
    if !check_buffer_arg(resources, src) {
        return ;
    }
    if !check_buffer_arg(resources, dst) {
        return ;
    }
    let (sid, soff, slen) = buf_range(resources, src);
    let (did, doff, dlen) = buf_range(resources, dst);
    let m = if slen < dlen {
        slen
    } else {
        dlen
    };
    let n = if (grid_x as usize) < m {
        grid_x as usize
    } else {
        m
    };
    let ghost mem0 = res_snaps(resources@);
    proof {
        assert(n as int == vstd::math::min(
            grid_x as int,
            vstd::math::min(arg_elem_len(mem0, src), arg_elem_len(mem0, dst)),
        ));
    }
    let mut tmp: Vec<u64> = Vec::new();
    let mut i: usize = 0;
    while i < n
        invariant
            i <= n,
            sid < resources@.len(),
            soff + n <= resources@[sid as int].data@.len(),
            tmp@.len() == i,
            forall|k: int| 0 <= k < i ==> tmp@[k] == mem0[sid as int].data[soff + k],
            resources == old(resources),
        decreases n - i,
    {
        tmp.push(resources[sid].data[soff + i]);
        i += 1;
    }
    let mut i: usize = 0;
    while i < n
        invariant
            i <= n,
            did < resources@.len(),
            doff + n <= resources@[did as int].data@.len(),
            tmp@.len() == n,
            forall|k: int| 0 <= k < n ==> tmp@[k] == mem0[sid as int].data[soff + k],
            resources@.len() == old(resources)@.len(),
            forall|j: int|
                0 <= j < resources@.len() && j != did ==> res_snaps(resources@)[j] == mem0[j],
            resources@[did as int].kind == old(resources)@[did as int].kind,
            resources@[did as int].elem_size == old(resources)@[did as int].elem_size,
            resources@[did as int].len == old(resources)@[did as int].len,
            resources@[did as int].user_refs == old(resources)@[did as int].user_refs,
            resources@[did as int].cmd_refs == old(resources)@[did as int].cmd_refs,
            resources@[did as int].alive == old(resources)@[did as int].alive,
            resources@[did as int].data@.len() == mem0[did as int].data.len(),
            forall|j: int|
                doff <= j < doff + i ==> resources@[did as int].data@[j] == mem0[sid as int].data[
                    soff + (j - doff)
                ],
            forall|j: int|
                0 <= j < resources@[did as int].data@.len() && !(doff <= j < doff + i)
                    ==> resources@[did as int].data@[j] == mem0[did as int].data[j],
        decreases n - i,
    {
        let value = tmp[i];
        resources[did].data[doff + i] = value;
        i += 1;
    }
    proof {
        let target = mem0.update(
            did as int,
            ResSnap {
                data: copy_into_data(
                    mem0[did as int].data,
                    mem0[sid as int].data,
                    arg_elem_offset(mem0, dst),
                    arg_elem_offset(mem0, src),
                    vstd::math::min(
                        grid_x as int,
                        vstd::math::min(arg_elem_len(mem0, src), arg_elem_len(mem0, dst)),
                    ),
                ),
                ..mem0[did as int]
            },
        );
        assert(res_snaps(resources@)[did as int].data =~= target[did as int].data);
        assert(res_snaps(resources@)[did as int] =~= target[did as int]);
        assert(res_snaps(resources@) =~= target);
    }
}

/// Run one queued command against the resource table. A command whose shader
/// id is unknown is dropped without effect.
pub(crate) fn run_queued(
    shaders: &Vec<ShaderSlot>,
    resources: &mut Vec<ResourceSlot>,
    c: &QueuedCommand,
)
    ensures
        res_snaps(final(resources)@) == exec_command(
            shader_snaps_of(shaders@),
            res_snaps(old(resources)@),
            c.snap(),
        ),
{
    if c.shader.0 >= shaders.len() {
        return ;
    }
    let body = shaders[c.shader.0].body;
    proof {
        assert(shader_snaps_of(shaders@)[c.shader.0 as int].body == body);
    }
    match body {
        KernelBody::Nop => {},
        KernelBody::WriteIota => run_write_iota(resources, &c.args, c.dispatch_size[0]),
        KernelBody::Fill(v) => run_fill(resources, &c.args, c.dispatch_size[0], v),
        KernelBody::CopyBuffer => run_copy(resources, &c.args, c.dispatch_size[0]),
    }
}

/// Release every tracker reference of one completed command, in order,
/// destroying any resource whose last reference goes.
#[verifier::loop_isolation(false)]
pub(crate) fn release_tracker(resources: &mut Vec<ResourceSlot>, tracker: &Vec<usize>)
    ensures
        res_snaps(final(resources)@) == release_ids(
            res_snaps(old(resources)@),
            tracker@.map_values(|u: usize| u as int),
        ),
{
    let ghost mem0 = res_snaps(resources@);
    let ghost ids = tracker@.map_values(|u: usize| u as int);
    let mut i: usize = 0;
    while i < tracker.len()
        invariant
            i <= tracker@.len(),
            ids == tracker@.map_values(|u: usize| u as int),
            res_snaps(resources@) == release_ids(mem0, ids.take(i as int)),
        decreases tracker@.len() - i,
    {
        let ghost pre = res_snaps(resources@);
        let id = tracker[i];
        if id < resources.len() && resources[id].cmd_refs > 0 {
            let refs = resources[id].cmd_refs - 1;
            resources[id].cmd_refs = refs;
            if refs == 0 && resources[id].user_refs == 0 {
                resources[id].alive = false;
                resources[id].data = Vec::new();
            }
        }
        proof {
            assert(res_snaps(resources@) =~= release_one(pre, ids[i as int]));
            assert(ids.take(i + 1) =~= ids.take(i as int).push(ids[i as int]));
            lemma_release_ids_push(mem0, ids.take(i as int), ids[i as int]);
        }
        i += 1;
    }
    proof {
        assert(ids.take(tracker@.len() as int) =~= ids);
    }
}

impl Device {
    /// Append one non-buffer resource slot owned by one user handle.
    fn push_plain_resource(&mut self, kind: ResourceKind, len: usize) -> (id: usize)
        requires
            old(self).wf(),
        ensures
            final(self).wf(),
            id == old(self)@.mem.len(),
            final(self)@ == (DeviceSnap {
                mem: old(self)@.mem.push(fresh_plain_snap(kind, len as nat)),
                ..old(self)@
            }),
    {
        let id = self.resources.len();
        self.resources.push(
            ResourceSlot {
                kind,
                elem_size: 1,
                len,
                data: Vec::new(),
                user_refs: 1,
                cmd_refs: 0,
                alive: true,
            },
        );
        proof {
            assert(self@.mem =~~= old(self)@.mem.push(fresh_plain_snap(kind, len as nat)));
            assert(self@ =~~= (DeviceSnap {
                mem: old(self)@.mem.push(fresh_plain_snap(kind, len as nat)),
                ..old(self)@
            }));
        }
        id
    }

    /// Create a bindless array of `slots` slots.
    pub fn create_bindless_array(&mut self, slots: usize) -> (r: Result<
        crate::resource::BindlessArray,
        Error,
    >)
        requires
            old(self).wf(),
        ensures
            final(self).wf(),
            r is Ok,
            r->Ok_0.handle.0 == old(self)@.mem.len(),
            r->Ok_0.slots == slots,
            final(self)@ == (DeviceSnap {
                mem: old(self)@.mem.push(fresh_plain_snap(ResourceKind::BindlessArray, slots as nat)),
                ..old(self)@
            }),
    {
        let id = self.push_plain_resource(ResourceKind::BindlessArray, slots);
        Ok(crate::resource::BindlessArray { handle: api::BindlessArray(id), slots })
    }

    /// Create a two-dimensional texture with the given storage, extent and
    /// mip count.
    pub fn create_tex2d(
        &mut self,
        storage: api::PixelStorage,
        width: u32,
        height: u32,
        mips: u32,
    ) -> (r: Result<crate::resource::Tex2d, Error>)
        requires
            old(self).wf(),
        ensures
            final(self).wf(),
            r is Ok,
            r->Ok_0.handle.0 == old(self)@.mem.len(),
            r->Ok_0.width == width && r->Ok_0.height == height,
            r->Ok_0.levels == mips && r->Ok_0.storage == storage,
            final(self)@ == (DeviceSnap {
                mem: old(self)@.mem.push(fresh_plain_snap(ResourceKind::Texture, 0)),
                ..old(self)@
            }),
    {
        let id = self.push_plain_resource(ResourceKind::Texture, 0);
        Ok(
            crate::resource::Tex2d {
                handle: api::Texture(id),
                width,
                height,
                levels: mips,
                storage,
            },
        )
    }

    /// Create a three-dimensional texture with the given storage, extent and
    /// mip count.
    pub fn create_tex3d(
        &mut self,
        storage: api::PixelStorage,
        width: u32,
        height: u32,
        depth: u32,
        mips: u32,
    ) -> (r: Result<crate::resource::Tex3d, Error>)
        requires
            old(self).wf(),
        ensures
            final(self).wf(),
            r is Ok,
            r->Ok_0.handle.0 == old(self)@.mem.len(),
            r->Ok_0.width == width && r->Ok_0.height == height && r->Ok_0.depth == depth,
            r->Ok_0.levels == mips && r->Ok_0.storage == storage,
            final(self)@ == (DeviceSnap {
                mem: old(self)@.mem.push(fresh_plain_snap(ResourceKind::Texture, 0)),
                ..old(self)@
            }),
    {
        let id = self.push_plain_resource(ResourceKind::Texture, 0);
        Ok(
            crate::resource::Tex3d {
                handle: api::Texture(id),
                width,
                height,
                depth,
                levels: mips,
                storage,
            },
        )
    }

    /// Create a mesh over a vertex-buffer range and an index-buffer range.
    /// The mesh records the byte ranges and strides of both.
    pub fn create_mesh(
        &mut self,
        vbuffer: &crate::resource::BufferView,
        tbuffer: &crate::resource::BufferView,
        option: api::AccelOption,
    ) -> (r: Result<crate::resource::Mesh, Error>)
        requires
            old(self).wf(),
        ensures
            final(self).wf(),
            r is Ok,
            r->Ok_0.handle.0 == old(self)@.mem.len(),
            r->Ok_0.vertex_buffer == vbuffer.handle,
            r->Ok_0.vertex_buffer_offset == vbuffer.offset_bytes,
            r->Ok_0.vertex_buffer_size == vbuffer.size_bytes,
            r->Ok_0.vertex_stride == vbuffer.elem_size,
            r->Ok_0.index_buffer == tbuffer.handle,
            r->Ok_0.index_buffer_offset == tbuffer.offset_bytes,
            r->Ok_0.index_buffer_size == tbuffer.size_bytes,
            r->Ok_0.index_stride == tbuffer.elem_size,
            final(self)@ == (DeviceSnap {
                mem: old(self)@.mem.push(fresh_plain_snap(ResourceKind::Mesh, 0)),
                ..old(self)@
            }),
    {
        let _ = option;
        let id = self.push_plain_resource(ResourceKind::Mesh, 0);
        Ok(
            crate::resource::Mesh {
                handle: api::Mesh(id),
                vertex_buffer: vbuffer.handle,
                vertex_buffer_offset: vbuffer.offset_bytes,
                vertex_buffer_size: vbuffer.size_bytes,
                vertex_stride: vbuffer.elem_size,
                index_buffer: tbuffer.handle,
                index_buffer_offset: tbuffer.offset_bytes,
                index_buffer_size: tbuffer.size_bytes,
                index_stride: tbuffer.elem_size,
            },
        )
    }

    /// Create an acceleration structure.
    pub fn create_accel(&mut self, option: api::AccelOption) -> (r: Result<
        crate::resource::Accel,
        Error,
    >)
        requires
            old(self).wf(),
        ensures
            final(self).wf(),
            r is Ok,
            r->Ok_0.handle.0 == old(self)@.mem.len(),
            final(self)@ == (DeviceSnap {
                mem: old(self)@.mem.push(fresh_plain_snap(ResourceKind::Accel, 0)),
                ..old(self)@
            }),
    {
        let _ = option;
        let id = self.push_plain_resource(ResourceKind::Accel, 0);
        Ok(crate::resource::Accel { handle: api::Accel(id) })
    }

    /// Create a new command stream beside the default one.
    pub fn create_stream(&mut self) -> (r: Result<Stream, Error>)
        requires
            old(self).wf(),
        ensures
            final(self).wf(),
            r is Ok,
            r->Ok_0.handle.0 == old(self)@.queues.len(),
            final(self)@ == (DeviceSnap {
                queues: old(self)@.queues.push(Seq::empty()),
                ..old(self)@
            }),
    {
        let id = self.streams.len();
        self.streams.push(StreamSlot { queue: Vec::new() });
        proof {
            assert(self@.queues =~~= old(self)@.queues.push(Seq::<CmdSnap>::empty()));
            assert(self@ =~~= (DeviceSnap {
                queues: old(self)@.queues.push(Seq::empty()),
                ..old(self)@
            }));
        }
        Ok(Stream { handle: api::Stream(id) })
    }

    /// Host-side write of `data` into elements `offset ..` of buffer `id`.
    #[verifier::loop_isolation(false)]
    pub(crate) fn write_buffer_range(&mut self, id: usize, offset: usize, data: &Vec<u64>) -> (r:
        Result<(), Error>)
        requires
            old(self).wf(),
        ensures
            final(self).wf(),
            r is Ok <==> host_range_ok(old(self)@.mem, id as int, offset as nat, data@.len()),
            r is Err ==> final(self)@ == old(self)@ && r->Err_0 == Error::Backend,
            r is Ok ==> final(self)@ == (DeviceSnap {
                mem: old(self)@.mem.update(
                    id as int,
                    ResSnap {
                        data: write_range_data(
                            old(self)@.mem[id as int].data,
                            offset as int,
                            data@,
                        ),
                        ..old(self)@.mem[id as int]
                    },
                ),
                ..old(self)@
            }),
    {
        if id >= self.resources.len() {
            return Err(Error::Backend);
        }
        let ok = {
            let r = &self.resources[id];
            r.alive && r.kind == ResourceKind::Buffer && r.data.len() == r.len && offset
                <= r.len && data.len() <= r.len - offset
        };
        if !ok {
            return Err(Error::Backend);
        }
        let ghost mem0 = self@.mem;
        let mut i: usize = 0;
        while i < data.len()
            invariant
                i <= data@.len(),
                id < self.resources@.len(),
                offset + data@.len() <= self.resources@[id as int].data@.len(),
                self.resources@.len() == old(self).resources@.len(),
                self.streams@ == old(self).streams@,
                self.shaders@ == old(self).shaders@,
                self.artifacts@ == old(self).artifacts@,
                forall|j: int|
                    0 <= j < self@.mem.len() && j != id ==> self@.mem[j] == mem0[j],
                self.resources@[id as int].kind == old(self).resources@[id as int].kind,
                self.resources@[id as int].elem_size == old(self).resources@[id as int].elem_size,
                self.resources@[id as int].len == old(self).resources@[id as int].len,
                self.resources@[id as int].user_refs == old(self).resources@[id as int].user_refs,
                self.resources@[id as int].cmd_refs == old(self).resources@[id as int].cmd_refs,
                self.resources@[id as int].alive == old(self).resources@[id as int].alive,
                self.resources@[id as int].data@.len() == mem0[id as int].data.len(),
                forall|j: int|
                    offset <= j < offset + i ==> self.resources@[id as int].data@[j] == data@[j
                        - offset],
                forall|j: int|
                    0 <= j < self.resources@[id as int].data@.len() && !(offset <= j < offset + i)
                        ==> self.resources@[id as int].data@[j] == mem0[id as int].data[j],
            decreases data@.len() - i,
        {
            let value = data[i];
            self.resources[id].data[offset + i] = value;
            i += 1;
        }
        proof {
            let target = mem0.update(
                id as int,
                ResSnap {
                    data: write_range_data(mem0[id as int].data, offset as int, data@),
                    ..mem0[id as int]
                },
            );
            assert(self@.mem[id as int].data =~= target[id as int].data);
            assert(self@.mem[id as int] =~= target[id as int]);
            assert(self@.mem =~~= target);
            assert(self@ =~~= (DeviceSnap { mem: target, ..old(self)@ }));
        }
        Ok(())
    }

    /// Host-side read of `len` elements starting at element `offset` of
    /// buffer `id`.
    #[verifier::loop_isolation(false)]
    pub(crate) fn read_buffer_range(&self, id: usize, offset: usize, len: usize) -> (r: Result<
        Vec<u64>,
        Error,
    >)
        ensures
            r is Ok <==> host_range_ok(self@.mem, id as int, offset as nat, len as nat),
            r is Err ==> r->Err_0 == Error::Backend,
            r is Ok ==> r->Ok_0@ == self@.mem[id as int].data.subrange(
                offset as int,
                offset + len,
            ),
    {
        if id >= self.resources.len() {
            return Err(Error::Backend);
        }
        let ok = {
            let r = &self.resources[id];
            r.alive && r.kind == ResourceKind::Buffer && r.data.len() == r.len && offset
                <= r.len && len <= r.len - offset
        };
        if !ok {
            return Err(Error::Backend);
        }
        let mut out: Vec<u64> = Vec::new();
        let mut i: usize = 0;
        while i < len
            invariant
                i <= len,
                id < self.resources@.len(),
                offset + len <= self.resources@[id as int].data@.len(),
                out@.len() == i,
                forall|k: int|
                    0 <= k < i ==> out@[k] == self.resources@[id as int].data@[offset + k],
            decreases len - i,
        {
            let value = self.resources[id].data[offset + i];
            out.push(value);
            i += 1;
        }
        proof {
            assert(out@ =~= self@.mem[id as int].data.subrange(offset as int, offset + len));
        }
        Ok(out)
    }

    /// Create a buffer holding a copy of the given element values.
    pub fn create_buffer_from_slice(&mut self, elem_size: usize, data: &Vec<u64>) -> (r: Result<
        Buffer,
        Error,
    >)
        requires
            old(self).wf(),
        ensures
            final(self).wf(),
            r is Ok <==> (elem_size > 0 && data@.len() * elem_size <= usize::MAX),
            r is Err ==> final(self)@ == old(self)@ && r->Err_0 == Error::ResourceCreation,
            r is Ok ==> ({
                let b = r->Ok_0;
                &&& b.handle.0 == old(self)@.mem.len()
                &&& b.len == data@.len()
                &&& b.elem_size == elem_size
                &&& b.size_bytes == data@.len() * elem_size
                &&& final(self)@ == (DeviceSnap {
                    mem: old(self)@.mem.push(
                        ResSnap {
                            data: data@,
                            ..fresh_buffer_snap(elem_size as nat, data@.len())
                        },
                    ),
                    ..old(self)@
                })
            }),
    {
        let ghost pre = self@;
        let buffer = match self.create_buffer(elem_size, data.len()) {
            Ok(b) => b,
            Err(e) => {
                return Err(e);
            },
        };
        let ghost mid = self@;
        let id = buffer.handle.0;
        let wrote = self.write_buffer_range(id, 0, data);
        proof {
            assert(wrote is Ok);
            assert(write_range_data(
                Seq::new(data@.len(), |i: int| 0u64),
                0,
                data@,
            ) =~= data@);
            assert(mid.mem.update(
                id as int,
                ResSnap { data: data@, ..mid.mem[id as int] },
            ) =~~= pre.mem.push(
                ResSnap { data: data@, ..fresh_buffer_snap(elem_size as nat, data@.len()) },
            ));
            assert(self@ =~~= (DeviceSnap {
                mem: pre.mem.push(
                    ResSnap { data: data@, ..fresh_buffer_snap(elem_size as nat, data@.len()) },
                ),
                ..pre
            }));
        }
        Ok(buffer)
    }

    /// Create a buffer of `count` elements whose value at index `i` is
    /// `f(i)`.
    #[verifier::loop_isolation(false)]
    pub fn create_buffer_from_fn<F: Fn(usize) -> u64>(
        &mut self,
        elem_size: usize,
        count: usize,
        f: F,
    ) -> (r: Result<Buffer, Error>)
        requires
            old(self).wf(),
            forall|i: usize| i < count ==> #[trigger] f.requires((i,)),
        ensures
            final(self).wf(),
            r is Ok <==> (elem_size > 0 && count * elem_size <= usize::MAX),
            r is Err ==> final(self)@ == old(self)@ && r->Err_0 == Error::ResourceCreation,
            r is Ok ==> ({
                let b = r->Ok_0;
                let filled = final(self)@.mem.last();
                &&& b.handle.0 == old(self)@.mem.len()
                &&& b.len == count
                &&& b.elem_size == elem_size
                &&& b.size_bytes == count * elem_size
                &&& filled.data.len() == count
                &&& forall|i: int|
                    0 <= i < count ==> f.ensures((i as usize,), #[trigger] filled.data[i])
                &&& final(self)@ == (DeviceSnap {
                    mem: old(self)@.mem.push(
                        ResSnap {
                            data: filled.data,
                            ..fresh_buffer_snap(elem_size as nat, count as nat)
                        },
                    ),
                    ..old(self)@
                })
            }),
    {
        let mut vals: Vec<u64> = Vec::new();
        let mut i: usize = 0;
        while i < count
            invariant
                i <= count,
                vals@.len() == i,
                forall|i2: usize| i2 < count ==> #[trigger] f.requires((i2,)),
                forall|k: int| 0 <= k < i ==> f.ensures((k as usize,), #[trigger] vals@[k]),
            decreases count - i,
        {
            let value = f(i);
            vals.push(value);
            i += 1;
        }
        self.create_buffer_from_slice(elem_size, &vals)
    }
}

impl Device {
    /// Hand a module to the backend compiler. Deterministic: an accepted
    /// module always compiles to [`crate::semantics::shader_of`] of itself,
    /// and a rejected one always fails with a compile error.
    pub(crate) fn compile_module(&mut self, module: &KernelModule) -> (r: Result<
        api::Shader,
        Error,
    >)
        requires
            old(self).wf(),
        ensures
            final(self).wf(),
            r is Ok <==> crate::ir::module_ok(*module),
            r is Err ==> final(self)@ == old(self)@ && r->Err_0 == Error::Compile,
            r is Ok ==> r->Ok_0.0 == old(self)@.shaders.len() && final(self)@ == (DeviceSnap {
                shaders: old(self)@.shaders.push(shader_of(*module)),
                ..old(self)@
            }),
    {
        if !crate::ir::check_module(module) {
            return Err(Error::Compile);
        }
        let id = self.shaders.len();
        self.shaders.push(ShaderSlot { body: module.body, n_args: module.n_args });
        proof {
            assert(self@.shaders =~~= old(self)@.shaders.push(shader_of(*module)));
            assert(self@ =~~= (DeviceSnap {
                shaders: old(self)@.shaders.push(shader_of(*module)),
                ..old(self)@
            }));
            assert forall|aid: int| 0 <= aid < self@.artifacts.len() implies match #[trigger] self@.artifacts[aid].result {
                Some(Ok(s)) => {
                    &&& crate::ir::module_ok(self@.artifacts[aid].module)
                    &&& 0 <= s.0 < self@.shaders.len()
                    &&& self@.shaders[s.0 as int] == shader_of(self@.artifacts[aid].module)
                },
                Some(Err(e)) => !crate::ir::module_ok(self@.artifacts[aid].module) && e
                    == Error::Compile,
                None => true,
            } by {
                assert(self@.artifacts[aid] == old(self)@.artifacts[aid]);
            }
        }
        Ok(api::Shader(id))
    }

    /// Compile a kernel module synchronously: block until the backend
    /// returns a shader object or a compile failure.
    pub fn create_kernel<A: crate::shader::KernelArg>(&mut self, module: KernelModule) -> (r:
        Result<crate::shader::Kernel<A>, Error>)
        requires
            old(self).wf(),
        ensures
            final(self).wf(),
            r is Ok <==> crate::ir::module_ok(module),
            r is Err ==> final(self)@ == old(self)@ && r->Err_0 == Error::Compile,
            r is Ok ==> ({
                let k = r->Ok_0;
                &&& k.inner.module@ == module
                &&& k.inner.wf_in(final(self)@)
                &&& final(self)@ == (DeviceSnap {
                    shaders: old(self)@.shaders.push(shader_of(module)),
                    ..old(self)@
                })
            }),
    {
        match self.compile_module(&module) {
            Ok(s) => Ok(
                crate::shader::Kernel {
                    inner: crate::shader::RawShader {
                        artifact: crate::shader::ShaderArtifact::Sync(s),
                        module: Ghost(module),
                    },
                    _marker: core::marker::PhantomData,
                },
            ),
            Err(e) => Err(e),
        }
    }

    /// Compile a kernel module in the background: return at once with a
    /// kernel whose shader resolves at first use.
    pub fn create_kernel_async<A: crate::shader::KernelArg>(&mut self, module: KernelModule) -> (r:
        Result<crate::shader::Kernel<A>, Error>)
        requires
            old(self).wf(),
        ensures
            final(self).wf(),
            r is Ok,
            r->Ok_0.inner.module@ == module,
            r->Ok_0.inner.wf_in(final(self)@),
            final(self)@ == (DeviceSnap {
                artifacts: old(self)@.artifacts.push(ArtifactSnap { module, result: None }),
                ..old(self)@
            }),
    {
        let aid = self.artifacts.len();
        self.artifacts.push(ArtifactSlot { module, result: None });
        proof {
            assert(self@.artifacts =~~= old(self)@.artifacts.push(
                ArtifactSnap { module, result: None },
            ));
            assert(self@ =~~= (DeviceSnap {
                artifacts: old(self)@.artifacts.push(ArtifactSnap { module, result: None }),
                ..old(self)@
            }));
        }
        Ok(
            crate::shader::Kernel {
                inner: crate::shader::RawShader {
                    artifact: crate::shader::ShaderArtifact::Async(aid),
                    module: Ghost(module),
                },
                _marker: core::marker::PhantomData,
            },
        )
    }

    /// Resolve a deferred-compilation slot: if it already holds a result,
    /// return that result without recompiling; otherwise run the build now
    /// and store its outcome. The slot transitions from empty to resolved
    /// exactly once, so every waiter observes the same terminal result.
    pub(crate) fn resolve_async(&mut self, aid: usize) -> (r: Result<api::Shader, Error>)
        requires
            old(self).wf(),
            aid < old(self)@.artifacts.len(),
        ensures
            final(self).wf(),
            final(self)@.mem == old(self)@.mem,
            final(self)@.queues == old(self)@.queues,
            final(self)@.artifacts.len() == old(self)@.artifacts.len(),
            forall|j: int|
                0 <= j < old(self)@.artifacts.len() && j != aid ==> final(self)@.artifacts[j]
                    == old(self)@.artifacts[j],
            final(self)@.artifacts[aid as int].module == old(self)@.artifacts[aid as int].module,
            final(self)@.artifacts[aid as int].result == Some(r),
            old(self)@.artifacts[aid as int].result is Some ==> final(self)@ == old(self)@ && Some(
                r,
            ) == old(self)@.artifacts[aid as int].result,
            r is Ok <==> crate::ir::module_ok(old(self)@.artifacts[aid as int].module),
            r is Err ==> r->Err_0 == Error::Compile && final(self)@.shaders == old(self)@.shaders,
            r is Ok ==> 0 <= r->Ok_0.0 < final(self)@.shaders.len() && final(self)@.shaders[
                r->Ok_0.0 as int
            ] == shader_of(old(self)@.artifacts[aid as int].module),
            final(self)@.shaders == old(self)@.shaders || final(self)@.shaders
                == old(self)@.shaders.push(shader_of(old(self)@.artifacts[aid as int].module)),
    {
        let stored = self.artifacts[aid].result;
        match stored {
            Some(res) => {
                proof {
                    assert(old(self)@.artifacts[aid as int].result == Some(res));
                }
                res
            },
            None => {
                let module = self.artifacts[aid].module;
                let ghost pre = self@;
                let res = self.compile_module(&module);
                let ghost mid = self@;
                self.artifacts[aid].result = Some(res);
                proof {
                    assert(self@.artifacts =~~= mid.artifacts.update(
                        aid as int,
                        ArtifactSnap { module, result: Some(res) },
                    ));
                    assert(self@.mem =~~= mid.mem);
                    assert(self@.queues =~~= mid.queues);
                    assert(self@.shaders =~~= mid.shaders);
                    assert forall|j: int| 0 <= j < self@.artifacts.len() implies match #[trigger] self@.artifacts[j].result {
                        Some(Ok(s)) => {
                            &&& crate::ir::module_ok(self@.artifacts[j].module)
                            &&& 0 <= s.0 < self@.shaders.len()
                            &&& self@.shaders[s.0 as int] == shader_of(self@.artifacts[j].module)
                        },
                        Some(Err(e)) => !crate::ir::module_ok(self@.artifacts[j].module) && e
                            == Error::Compile,
                        None => true,
                    } by {
                        if j != aid {
                            assert(self@.artifacts[j] == mid.artifacts[j]);
                        }
                    }
                }
                res
            },
        }
    }

    /// Take one in-flight (tracker) reference to every resource an argument
    /// list names, in order, and return the retained ids.
    #[verifier::loop_isolation(false)]
    pub(crate) fn retain_args(&mut self, args: &Vec<api::Argument>) -> (t: Vec<usize>)
        requires
            old(self).wf(),
            args_live(old(self)@.mem, args@),
            retain_headroom(old(self)@.mem, args@),
        ensures
            final(self).wf(),
            t@.map_values(|u: usize| u as int) == argument_resources(args@),
            final(self)@ == (DeviceSnap {
                mem: retain_ids(old(self)@.mem, argument_resources(args@)),
                ..old(self)@
            }),
    {
        let ghost mem0 = self@.mem;
        let ghost ids = argument_resources(args@);
        let mut t: Vec<usize> = Vec::new();
        proof {
            assert(ids.take(0) =~= Seq::<int>::empty());
            assert(t@.map_values(|u: usize| u as int) =~= ids.take(0));
            assert(self@ =~~= (DeviceSnap { mem: retain_ids(mem0, ids.take(0)), ..old(self)@ }));
        }
        let mut i: usize = 0;
        while i < args.len()
            invariant
                i <= args@.len(),
                t@.len() == i,
                t@.map_values(|u: usize| u as int) == ids.take(i as int),
                self.resources@.len() == mem0.len(),
                self@.mem.len() == mem0.len(),
                forall|j: int|
                    0 <= j < self@.mem.len() ==> (#[trigger] self@.mem[j]).cmd_refs <= mem0[
                        j
                    ].cmd_refs + i,
                self@ == (DeviceSnap { mem: retain_ids(mem0, ids.take(i as int)), ..old(self)@ }),
            decreases args@.len() - i,
        {
            let a = args[i];
            let id = match a {
                api::Argument::Buffer(ba) => ba.buffer.0,
                api::Argument::Texture(ta) => ta.texture.0,
                api::Argument::BindlessArray(b) => b.0,
                api::Argument::Accel(ac) => ac.0,
            };
            proof {
                assert(argument_resource(args@[i as int]) == id as int);
                assert(ids[i as int] == id as int);
                assert(0 <= (id as int) < mem0.len() && mem0[id as int].cmd_refs + args@.len()
                    <= usize::MAX);
                assert(self@.mem[id as int].cmd_refs <= mem0[id as int].cmd_refs + i);
            }
            let ghost pre = self@;
            let refs = self.resources[id].cmd_refs + 1;
            self.resources[id].cmd_refs = refs;
            t.push(id);
            proof {
                assert(self@.mem =~~= retain_one(pre.mem, id as int));
                assert(ids.take(i + 1) =~= ids.take(i as int).push(ids[i as int]));
                lemma_retain_ids_push(mem0, ids.take(i as int), ids[i as int]);
                assert(self@.mem == retain_ids(mem0, ids.take(i + 1)));
                assert(t@.map_values(|u: usize| u as int) =~= ids.take(i + 1));
                assert(self@ =~~= (DeviceSnap {
                    mem: retain_ids(mem0, ids.take(i + 1)),
                    ..old(self)@
                }));
            }
            i += 1;
        }
        proof {
            assert(ids.take(args@.len() as int) =~= ids);
        }
        t
    }

    /// The identity under which the backend keys the on-disk shader cache of
    /// a compiled shader.
    pub(crate) fn shader_cache_key(&self, s: api::Shader) -> (k: Option<crate::ir::ShaderCacheKey>)
        requires
            s.0 < self@.shaders.len(),
            self@.shaders[s.0 as int].n_args <= 16,
        ensures
            k == Some(
                crate::ir::cache_key_of(
                    self@.shaders[s.0 as int].n_args,
                    self@.shaders[s.0 as int].body,
                ),
            ),
    {
        let slot_args = self.shaders[s.0].n_args;
        let slot_body = self.shaders[s.0].body;
        Some(crate::ir::compute_cache_key(slot_args, slot_body))
    }
}

} // verus!
