//! The specification-level state of the reference backend, and the meaning of
//! queued work.
//!
//! A device snapshot records, per resource, its kind and shape, its contents
//! (one machine word per element for buffers), and two reference counts: one
//! for live user handles, one for in-flight commands whose resource trackers
//! retain it. A resource stays alive while either count is positive and its
//! backing store is torn down exactly once, when the last count drops.
//!
//! Synchronizing a stream means: run every queued command, in submission
//! order, against the resource state, then release every command's tracker.

use vstd::prelude::*;
use crate::api;
use crate::ir::KernelBody;

verus! {

/// Kind of a device resource.
#[derive(Clone, Copy, PartialEq, Eq, Structural, Debug)]
pub enum ResourceKind {
    Buffer,
    Texture,
    BindlessArray,
    Mesh,
    Accel,
}

/// Snapshot of one resource slot of the device.
#[verifier::ext_equal]
pub ghost struct ResSnap {
    pub kind: ResourceKind,
    /// Byte size of one element (buffers; 1 for other kinds).
    pub elem_size: nat,
    /// Element count (buffers), slot count (bindless arrays); 0 for the
    /// kinds whose shape the runtime does not read.
    pub len: nat,
    /// Buffer contents, one word per element; empty once destroyed.
    pub data: Seq<u64>,
    /// Live user handles owning this resource.
    pub user_refs: nat,
    /// In-flight commands whose tracker retains this resource.
    pub cmd_refs: nat,
    /// False exactly once both counts have dropped to zero.
    pub alive: bool,
}

/// Snapshot of one compiled shader object.
#[verifier::ext_equal]
pub ghost struct ShaderSnap {
    pub body: KernelBody,
    pub n_args: nat,
}

/// Snapshot of one queued command: a resolved shader, its encoded arguments,
/// the x extent of the dispatch grid, and the retained resource ids.
#[verifier::ext_equal]
pub ghost struct CmdSnap {
    pub shader: int,
    pub args: Seq<api::Argument>,
    pub grid_x: nat,
    pub tracker: Seq<int>,
}

/// Snapshot of the whole device.
#[verifier::ext_equal]
pub ghost struct DeviceSnap {
    pub mem: Seq<ResSnap>,
    /// Pending commands of each stream, in submission order.
    pub queues: Seq<Seq<CmdSnap>>,
    pub shaders: Seq<ShaderSnap>,
    /// Deferred-compilation slots: the submitted module and, once the build
    /// has run, its result.
    pub artifacts: Seq<ArtifactSnap>,
}

/// Snapshot of one deferred-compilation slot.
#[verifier::ext_equal]
pub ghost struct ArtifactSnap {
    pub module: crate::ir::KernelModule,
    /// `None` while the build is outstanding; set exactly once.
    pub result: Option<Result<api::Shader, crate::Error>>,
}

/// The resource id an argument record refers to.
pub open spec fn argument_resource(a: api::Argument) -> int {
    match a {
        api::Argument::Buffer(ba) => ba.buffer.0 as int,
        api::Argument::Texture(ta) => ta.texture.0 as int,
        api::Argument::BindlessArray(b) => b.0 as int,
        api::Argument::Accel(ac) => ac.0 as int,
    }
}

/// Resource ids of a whole argument list, in order.
pub open spec fn argument_resources(args: Seq<api::Argument>) -> Seq<int> {
    args.map_values(|a: api::Argument| argument_resource(a))
}

/// Whether a buffer argument record can be consumed by a kernel: it must name
/// a live buffer and bind an element-aligned byte range inside it.
pub open spec fn buffer_arg_ok(mem: Seq<ResSnap>, ba: api::BufferArgument) -> bool {
    let id = ba.buffer.0 as int;
    &&& 0 <= id < mem.len()
    &&& mem[id].alive
    &&& mem[id].kind == ResourceKind::Buffer
    &&& mem[id].elem_size > 0
    &&& mem[id].data.len() == mem[id].len
    &&& ba.offset as int % mem[id].elem_size as int == 0
    &&& ba.size as int % mem[id].elem_size as int == 0
    &&& ba.offset + ba.size <= mem[id].len * mem[id].elem_size
    &&& mem[id].len * mem[id].elem_size <= usize::MAX
}

/// First element bound by a buffer argument.
pub open spec fn arg_elem_offset(mem: Seq<ResSnap>, ba: api::BufferArgument) -> int {
    ba.offset as int / mem[ba.buffer.0 as int].elem_size as int
}

/// Number of elements bound by a buffer argument.
pub open spec fn arg_elem_len(mem: Seq<ResSnap>, ba: api::BufferArgument) -> int {
    ba.size as int / mem[ba.buffer.0 as int].elem_size as int
}

/// Contents of a buffer after thread `i` of `n` wrote value `i` at element
/// `off + i`.
pub open spec fn write_iota_data(data: Seq<u64>, off: int, n: int) -> Seq<u64> {
    Seq::new(data.len(), |j: int| if off <= j < off + n { (j - off) as u64 } else { data[j] })
}

/// Contents of a buffer after thread `i` of `n` wrote `v` at element `off + i`.
pub open spec fn fill_data(data: Seq<u64>, off: int, n: int, v: u64) -> Seq<u64> {
    Seq::new(data.len(), |j: int| if off <= j < off + n { v } else { data[j] })
}

/// Contents of the destination after thread `i` of `n` copied element
/// `soff + i` of `src` to element `doff + i`.
pub open spec fn copy_into_data(dst: Seq<u64>, src: Seq<u64>, doff: int, soff: int, n: int) -> Seq<
    u64,
> {
    Seq::new(dst.len(), |j: int| if doff <= j < doff + n { src[soff + (j - doff)] } else { dst[j] })
}

/// Effect of running a kernel body over the resource state. A body whose
/// argument records do not fit it (missing, of the wrong kind, or naming a
/// range it cannot consume) is dropped by the backend without effect.
pub open spec fn exec_body(
    body: KernelBody,
    mem: Seq<ResSnap>,
    args: Seq<api::Argument>,
    grid_x: nat,
) -> Seq<ResSnap> {
    match body {
        KernelBody::Nop => mem,
        KernelBody::WriteIota => {
            if args.len() >= 1 {
                match args[0] {
                    api::Argument::Buffer(ba) => {
                        if buffer_arg_ok(mem, ba) {
                            let id = ba.buffer.0 as int;
                            let off = arg_elem_offset(mem, ba);
                            let n = vstd::math::min(grid_x as int, arg_elem_len(mem, ba));
                            mem.update(
                                id,
                                ResSnap { data: write_iota_data(mem[id].data, off, n), ..mem[id] },
                            )
                        } else {
                            mem
                        }
                    },
                    _ => mem,
                }
            } else {
                mem
            }
        },
        KernelBody::Fill(v) => {
            if args.len() >= 1 {
                match args[0] {
                    api::Argument::Buffer(ba) => {
                        if buffer_arg_ok(mem, ba) {
                            let id = ba.buffer.0 as int;
                            let off = arg_elem_offset(mem, ba);
                            let n = vstd::math::min(grid_x as int, arg_elem_len(mem, ba));
                            mem.update(
                                id,
                                ResSnap { data: fill_data(mem[id].data, off, n, v), ..mem[id] },
                            )
                        } else {
                            mem
                        }
                    },
                    _ => mem,
                }
            } else {
                mem
            }
        },
        KernelBody::CopyBuffer => {
            if args.len() >= 2 {
                match (args[0], args[1]) {
                    (api::Argument::Buffer(src), api::Argument::Buffer(dst)) => {
                        if buffer_arg_ok(mem, src) && buffer_arg_ok(mem, dst) {
                            let sid = src.buffer.0 as int;
                            let did = dst.buffer.0 as int;
                            let soff = arg_elem_offset(mem, src);
                            let doff = arg_elem_offset(mem, dst);
                            let n = vstd::math::min(
                                grid_x as int,
                                vstd::math::min(arg_elem_len(mem, src), arg_elem_len(mem, dst)),
                            );
                            mem.update(
                                did,
                                ResSnap {
                                    data: copy_into_data(
                                        mem[did].data,
                                        mem[sid].data,
                                        doff,
                                        soff,
                                        n,
                                    ),
                                    ..mem[did]
                                },
                            )
                        } else {
                            mem
                        }
                    },
                    _ => mem,
                }
            } else {
                mem
            }
        },
    }
}

/// Effect of running one queued command: look its shader up and run the body.
/// A command whose shader id is unknown is dropped without effect.
pub open spec fn exec_command(shaders: Seq<ShaderSnap>, mem: Seq<ResSnap>, c: CmdSnap) -> Seq<
    ResSnap,
> {
    if 0 <= c.shader < shaders.len() {
        exec_body(shaders[c.shader].body, mem, c.args, c.grid_x)
    } else {
        mem
    }
}

/// Effect of running a batch of commands, first to last.
pub open spec fn exec_commands(
    shaders: Seq<ShaderSnap>,
    mem: Seq<ResSnap>,
    cmds: Seq<CmdSnap>,
) -> Seq<ResSnap>
    decreases cmds.len(),
{
    if cmds.len() == 0 {
        mem
    } else {
        exec_commands(shaders, exec_command(shaders, mem, cmds[0]), cmds.drop_first())
    }
}

/// One tracker reference to `id` taken: its in-flight count grows by one.
pub open spec fn retain_one(mem: Seq<ResSnap>, id: int) -> Seq<ResSnap> {
    if 0 <= id < mem.len() {
        mem.update(id, ResSnap { cmd_refs: mem[id].cmd_refs + 1, ..mem[id] })
    } else {
        mem
    }
}

/// Tracker references to all of `ids` taken, in order.
pub open spec fn retain_ids(mem: Seq<ResSnap>, ids: Seq<int>) -> Seq<ResSnap>
    decreases ids.len(),
{
    if ids.len() == 0 {
        mem
    } else {
        retain_ids(retain_one(mem, ids[0]), ids.drop_first())
    }
}

/// One tracker reference to `id` released; the resource is destroyed, exactly
/// once, when its last reference of either kind goes.
pub open spec fn release_one(mem: Seq<ResSnap>, id: int) -> Seq<ResSnap> {
    if 0 <= id < mem.len() && mem[id].cmd_refs > 0 {
        let r = mem[id];
        let refs = (r.cmd_refs - 1) as nat;
        if refs == 0 && r.user_refs == 0 {
            mem.update(id, ResSnap { cmd_refs: refs, alive: false, data: Seq::empty(), ..r })
        } else {
            mem.update(id, ResSnap { cmd_refs: refs, ..r })
        }
    } else {
        mem
    }
}

/// Tracker references to all of `ids` released, in order.
pub open spec fn release_ids(mem: Seq<ResSnap>, ids: Seq<int>) -> Seq<ResSnap>
    decreases ids.len(),
{
    if ids.len() == 0 {
        mem
    } else {
        release_ids(release_one(mem, ids[0]), ids.drop_first())
    }
}

/// Trackers of a whole batch released, in order.
pub open spec fn release_commands(mem: Seq<ResSnap>, cmds: Seq<CmdSnap>) -> Seq<ResSnap>
    decreases cmds.len(),
{
    if cmds.len() == 0 {
        mem
    } else {
        release_commands(release_ids(mem, cmds[0].tracker), cmds.drop_first())
    }
}

/// One user handle released; the resource is destroyed, exactly once, when
/// its last reference of either kind goes.
pub open spec fn release_user(mem: Seq<ResSnap>, id: int) -> Seq<ResSnap> {
    if 0 <= id < mem.len() && mem[id].user_refs > 0 {
        let r = mem[id];
        let refs = (r.user_refs - 1) as nat;
        if refs == 0 && r.cmd_refs == 0 {
            mem.update(id, ResSnap { user_refs: refs, alive: false, data: Seq::empty(), ..r })
        } else {
            mem.update(id, ResSnap { user_refs: refs, ..r })
        }
    } else {
        mem
    }
}

/// Whether every argument of a list names a live resource.
pub open spec fn args_live(mem: Seq<ResSnap>, args: Seq<api::Argument>) -> bool {
    forall|i: int|
        0 <= i < args.len() ==> {
            let id = argument_resource(#[trigger] args[i]);
            &&& 0 <= id < mem.len()
            &&& mem[id].alive
        }
}

/// Whether the in-flight counts of the resources an argument list names can
/// take one more reference each without overflowing.
pub open spec fn retain_headroom(mem: Seq<ResSnap>, args: Seq<api::Argument>) -> bool {
    forall|i: int|
        0 <= i < args.len() ==> {
            let id = argument_resource(#[trigger] args[i]);
            0 <= id < mem.len() && mem[id].cmd_refs + args.len() <= usize::MAX
        }
}

/// Whether a host-side access of `len` elements at element `offset` of
/// resource `id` is serviceable: a live buffer with the range in bounds.
pub open spec fn host_range_ok(mem: Seq<ResSnap>, id: int, offset: nat, len: nat) -> bool {
    &&& 0 <= id < mem.len()
    &&& mem[id].alive
    &&& mem[id].kind == ResourceKind::Buffer
    &&& mem[id].data.len() == mem[id].len
    &&& offset + len <= mem[id].len
}

/// Buffer contents after the host wrote `vals` starting at element `off`.
pub open spec fn write_range_data(data: Seq<u64>, off: int, vals: Seq<u64>) -> Seq<u64> {
    Seq::new(
        data.len(),
        |j: int| if off <= j < off + vals.len() { vals[j - off] } else { data[j] },
    )
}

/// What draining a stream does to the resource state: run every queued
/// command in order, then release every tracker.
pub open spec fn drain_effect(
    shaders: Seq<ShaderSnap>,
    mem: Seq<ResSnap>,
    cmds: Seq<CmdSnap>,
) -> Seq<ResSnap> {
    release_commands(exec_commands(shaders, mem, cmds), cmds)
}

/// The compiled form of an accepted module.
pub open spec fn shader_of(m: crate::ir::KernelModule) -> ShaderSnap {
    ShaderSnap { body: m.body, n_args: m.n_args as nat }
}

/// Soundness of the recorded compilation results: a slot that resolved to a
/// shader points at the compiled form of its own module, and a slot resolves
/// to a compile failure exactly when the compiler rejects its module.
pub open spec fn artifacts_sound(d: DeviceSnap) -> bool {
    forall|aid: int|
        0 <= aid < d.artifacts.len() ==> match #[trigger] d.artifacts[aid].result {
            Some(Ok(s)) => {
                &&& crate::ir::module_ok(d.artifacts[aid].module)
                &&& 0 <= s.0 < d.shaders.len()
                &&& d.shaders[s.0 as int] == shader_of(d.artifacts[aid].module)
            },
            Some(Err(e)) => !crate::ir::module_ok(d.artifacts[aid].module) && e
                == crate::Error::Compile,
            None => true,
        }
}

/// Well-formedness of a device snapshot: it has its built-in default stream,
/// and its recorded compilation results are sound.
pub open spec fn device_wf(d: DeviceSnap) -> bool {
    &&& d.queues.len() >= 1
    &&& artifacts_sound(d)
}

// Batch execution distributes over batch concatenation; these unroll the
// fold-left definitions one command at a time from the right.
pub proof fn lemma_exec_commands_push(
    shaders: Seq<ShaderSnap>,
    mem: Seq<ResSnap>,
    cmds: Seq<CmdSnap>,
    c: CmdSnap,
)
    ensures
        exec_commands(shaders, mem, cmds.push(c)) == exec_command(
            shaders,
            exec_commands(shaders, mem, cmds),
            c,
        ),
    decreases cmds.len(),
{
    if cmds.len() == 0 {
        assert(cmds.push(c) =~= seq![c]);
        assert(seq![c].drop_first() =~= Seq::<CmdSnap>::empty());
        assert(exec_commands(shaders, mem, seq![c]) == exec_commands(
            shaders,
            exec_command(shaders, mem, c),
            seq![c].drop_first(),
        ));
    } else {
        assert(cmds.push(c).drop_first() =~= cmds.drop_first().push(c));
        assert(cmds.push(c)[0] == cmds[0]);
        lemma_exec_commands_push(shaders, exec_command(shaders, mem, cmds[0]), cmds.drop_first(), c);
        assert(exec_commands(shaders, mem, cmds.push(c)) == exec_commands(
            shaders,
            exec_command(shaders, mem, cmds[0]),
            cmds.drop_first().push(c),
        ));
        assert(exec_commands(shaders, mem, cmds) == exec_commands(
            shaders,
            exec_command(shaders, mem, cmds[0]),
            cmds.drop_first(),
        ));
    }
}

pub proof fn lemma_release_ids_push(mem: Seq<ResSnap>, ids: Seq<int>, id: int)
    ensures
        release_ids(mem, ids.push(id)) == release_one(release_ids(mem, ids), id),
    decreases ids.len(),
{
    if ids.len() == 0 {
        assert(ids.push(id) =~= seq![id]);
        assert(seq![id].drop_first() =~= Seq::<int>::empty());
        assert(release_ids(mem, seq![id]) == release_ids(
            release_one(mem, id),
            seq![id].drop_first(),
        ));
    } else {
        assert(ids.push(id).drop_first() =~= ids.drop_first().push(id));
        assert(ids.push(id)[0] == ids[0]);
        lemma_release_ids_push(release_one(mem, ids[0]), ids.drop_first(), id);
        assert(release_ids(mem, ids.push(id)) == release_ids(
            release_one(mem, ids[0]),
            ids.drop_first().push(id),
        ));
        assert(release_ids(mem, ids) == release_ids(release_one(mem, ids[0]), ids.drop_first()));
    }
}

pub proof fn lemma_release_commands_push(mem: Seq<ResSnap>, cmds: Seq<CmdSnap>, c: CmdSnap)
    ensures
        release_commands(mem, cmds.push(c)) == release_ids(release_commands(mem, cmds), c.tracker),
    decreases cmds.len(),
{
    if cmds.len() == 0 {
        assert(cmds.push(c) =~= seq![c]);
        assert(seq![c].drop_first() =~= Seq::<CmdSnap>::empty());
        assert(release_commands(mem, seq![c]) == release_commands(
            release_ids(mem, c.tracker),
            seq![c].drop_first(),
        ));
    } else {
        assert(cmds.push(c).drop_first() =~= cmds.drop_first().push(c));
        assert(cmds.push(c)[0] == cmds[0]);
        lemma_release_commands_push(release_ids(mem, cmds[0].tracker), cmds.drop_first(), c);
        assert(release_commands(mem, cmds.push(c)) == release_commands(
            release_ids(mem, cmds[0].tracker),
            cmds.drop_first().push(c),
        ));
        assert(release_commands(mem, cmds) == release_commands(
            release_ids(mem, cmds[0].tracker),
            cmds.drop_first(),
        ));
    }
}

pub proof fn lemma_retain_ids_push(mem: Seq<ResSnap>, ids: Seq<int>, id: int)
    ensures
        retain_ids(mem, ids.push(id)) == retain_one(retain_ids(mem, ids), id),
    decreases ids.len(),
{
    if ids.len() == 0 {
        assert(ids.push(id) =~= seq![id]);
        assert(seq![id].drop_first() =~= Seq::<int>::empty());
        assert(retain_ids(mem, seq![id]) == retain_ids(
            retain_one(mem, id),
            seq![id].drop_first(),
        ));
    } else {
        assert(ids.push(id).drop_first() =~= ids.drop_first().push(id));
        assert(ids.push(id)[0] == ids[0]);
        lemma_retain_ids_push(retain_one(mem, ids[0]), ids.drop_first(), id);
        assert(retain_ids(mem, ids.push(id)) == retain_ids(
            retain_one(mem, ids[0]),
            ids.drop_first().push(id),
        ));
        assert(retain_ids(mem, ids) == retain_ids(retain_one(mem, ids[0]), ids.drop_first()));
    }
}

} // verus!
