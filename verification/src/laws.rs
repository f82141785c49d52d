//! Laws of the runtime, stated and proved over the specification-level
//! semantics that the public contracts use.

use vstd::prelude::*;
use crate::api;
use crate::ir::{cache_key_of, KernelBody, KernelModule};
use crate::semantics::{
    arg_elem_len, arg_elem_offset, buffer_arg_ok, drain_effect, exec_command, exec_commands,
    release_commands, release_ids, release_one, release_user, retain_ids, retain_one,
    write_iota_data, CmdSnap, ResSnap, ResourceKind, ShaderSnap,
};

verus! {

/// Committing an empty command buffer is a valid no-op: draining a stream
/// with nothing queued leaves every resource exactly as it was.
pub proof fn lemma_empty_batch_is_noop(shaders: Seq<ShaderSnap>, mem: Seq<ResSnap>)
    ensures
        drain_effect(shaders, mem, Seq::empty()) == mem,
{
}

/// In-order execution: running a batch `a` followed by a batch `b` is the
/// same as running `a` to completion and then running `b` on the result. A
/// stream that executes its queue in submission order therefore gives every
/// later command the completed effects of every earlier one.
pub proof fn lemma_in_order_execution(
    shaders: Seq<ShaderSnap>,
    mem: Seq<ResSnap>,
    a: Seq<CmdSnap>,
    b: Seq<CmdSnap>,
)
    ensures
        exec_commands(shaders, mem, a + b) == exec_commands(
            shaders,
            exec_commands(shaders, mem, a),
            b,
        ),
    decreases a.len(),
{
    if a.len() == 0 {
        assert(a + b =~= b);
    } else {
        assert((a + b)[0] == a[0]);
        assert((a + b).drop_first() =~= a.drop_first() + b);
        lemma_in_order_execution(shaders, exec_command(shaders, mem, a[0]), a.drop_first(), b);
    }
}

/// Tracker release distributes over batch concatenation the same way.
pub proof fn lemma_release_in_order(mem: Seq<ResSnap>, a: Seq<CmdSnap>, b: Seq<CmdSnap>)
    ensures
        release_commands(mem, a + b) == release_commands(release_commands(mem, a), b),
    decreases a.len(),
{
    if a.len() == 0 {
        assert(a + b =~= b);
    } else {
        assert((a + b)[0] == a[0]);
        assert((a + b).drop_first() =~= a.drop_first() + b);
        lemma_release_in_order(release_ids(mem, a[0].tracker), a.drop_first(), b);
    }
}

/// Draining a single queued command runs it and then releases its tracker.
pub proof fn lemma_drain_single(shaders: Seq<ShaderSnap>, mem: Seq<ResSnap>, c: CmdSnap)
    ensures
        drain_effect(shaders, mem, Seq::empty().push(c)) == release_ids(
            exec_command(shaders, mem, c),
            c.tracker,
        ),
{
    let q = Seq::empty().push(c);
    assert(q.drop_first() =~= Seq::<CmdSnap>::empty());
    assert(q[0] == c);
    assert(exec_commands(shaders, mem, q) == exec_commands(
        shaders,
        exec_command(shaders, mem, c),
        q.drop_first(),
    ));
    assert(exec_commands(shaders, exec_command(shaders, mem, c), Seq::<CmdSnap>::empty())
        == exec_command(shaders, mem, c));
    let e = exec_command(shaders, mem, c);
    assert(release_commands(e, q) == release_commands(release_ids(e, c.tracker), q.drop_first()));
    assert(release_commands(release_ids(e, c.tracker), Seq::<CmdSnap>::empty()) == release_ids(
        e,
        c.tracker,
    ));
}

/// Compilation mode is an optimization with no observable behavioral
/// difference: a dispatch of a shader compiled from a module behaves the same
/// whichever shader table and slot the compilation produced, as long as the
/// slot holds the compiled form of that module. A kernel compiled
/// synchronously and the same module compiled in the background therefore
/// produce identical dispatch results.
pub proof fn lemma_compilation_mode_immaterial(
    m: KernelModule,
    shaders1: Seq<ShaderSnap>,
    s1: int,
    shaders2: Seq<ShaderSnap>,
    s2: int,
    mem: Seq<ResSnap>,
    args: Seq<api::Argument>,
    grid_x: nat,
    tracker: Seq<int>,
)
    requires
        0 <= s1 < shaders1.len(),
        shaders1[s1] == crate::semantics::shader_of(m),
        0 <= s2 < shaders2.len(),
        shaders2[s2] == crate::semantics::shader_of(m),
    ensures
        exec_command(shaders1, mem, CmdSnap { shader: s1, args, grid_x, tracker })
            == exec_command(shaders2, mem, CmdSnap { shader: s2, args, grid_x, tracker }),
{
    assert(shaders1[s1].body == m.body);
    assert(shaders2[s2].body == m.body);
}

/// A resource retained by an in-flight command's tracker survives the drop
/// of its last user handle: releasing the user reference leaves it alive,
/// with its contents intact, while the tracker reference is outstanding.
pub proof fn lemma_tracker_keeps_alive(mem: Seq<ResSnap>, id: int)
    requires
        0 <= id < mem.len(),
        mem[id].alive,
        mem[id].cmd_refs > 0,
    ensures
        release_user(mem, id)[id].alive,
        release_user(mem, id)[id].data == mem[id].data,
{
}

/// Two structurally identical kernel modules report the same shader-cache
/// key, for any one backend.
pub proof fn lemma_cache_key_structural(m1: KernelModule, m2: KernelModule)
    requires
        m1.body == m2.body,
        m1.n_args == m2.n_args,
    ensures
        cache_key_of(m1.n_args as nat, m1.body) == cache_key_of(m2.n_args as nat, m2.body),
{
}

/// The destroyed state of a resource slot: torn down, with no reference of
/// either kind left.
pub open spec fn destroyed(r: ResSnap) -> bool {
    &&& !r.alive
    &&& r.user_refs == 0
    &&& r.cmd_refs == 0
}

/// Running one command never touches a destroyed resource: a kernel consumes
/// only live buffers.
pub proof fn lemma_exec_command_preserves_destroyed(
    shaders: Seq<ShaderSnap>,
    mem: Seq<ResSnap>,
    c: CmdSnap,
    j: int,
)
    requires
        0 <= j < mem.len(),
        destroyed(mem[j]),
    ensures
        exec_command(shaders, mem, c).len() == mem.len(),
        exec_command(shaders, mem, c)[j] == mem[j],
{
}

/// Releasing tracker references never destroys a resource twice: a slot in
/// the destroyed state is left exactly as it is, by any sequence of
/// releases.
pub proof fn lemma_release_ids_preserves_destroyed(mem: Seq<ResSnap>, ids: Seq<int>, j: int)
    requires
        0 <= j < mem.len(),
        destroyed(mem[j]),
    ensures
        release_ids(mem, ids).len() == mem.len(),
        release_ids(mem, ids)[j] == mem[j],
    decreases ids.len(),
{
    if ids.len() > 0 {
        lemma_release_ids_preserves_destroyed(release_one(mem, ids[0]), ids.drop_first(), j);
    }
}

/// A resource is destroyed at most once: draining any batch of work leaves a
/// slot that is already in the destroyed state exactly as it is — it is
/// neither torn down again nor brought back.
pub proof fn lemma_destroyed_stays_destroyed(
    shaders: Seq<ShaderSnap>,
    mem: Seq<ResSnap>,
    cmds: Seq<CmdSnap>,
    j: int,
)
    requires
        0 <= j < mem.len(),
        destroyed(mem[j]),
    ensures
        drain_effect(shaders, mem, cmds).len() == mem.len(),
        drain_effect(shaders, mem, cmds)[j] == mem[j],
    decreases cmds.len(),
{
    lemma_exec_preserves_destroyed(shaders, mem, cmds, j);
    lemma_release_cmds_preserves_destroyed(exec_commands(shaders, mem, cmds), cmds, j);
}

proof fn lemma_exec_preserves_destroyed(
    shaders: Seq<ShaderSnap>,
    mem: Seq<ResSnap>,
    cmds: Seq<CmdSnap>,
    j: int,
)
    requires
        0 <= j < mem.len(),
        destroyed(mem[j]),
    ensures
        exec_commands(shaders, mem, cmds).len() == mem.len(),
        exec_commands(shaders, mem, cmds)[j] == mem[j],
    decreases cmds.len(),
{
    if cmds.len() > 0 {
        lemma_exec_command_preserves_destroyed(shaders, mem, cmds[0], j);
        lemma_exec_preserves_destroyed(
            shaders,
            exec_command(shaders, mem, cmds[0]),
            cmds.drop_first(),
            j,
        );
    }
}

proof fn lemma_release_cmds_preserves_destroyed(mem: Seq<ResSnap>, cmds: Seq<CmdSnap>, j: int)
    requires
        0 <= j < mem.len(),
        destroyed(mem[j]),
    ensures
        release_commands(mem, cmds).len() == mem.len(),
        release_commands(mem, cmds)[j] == mem[j],
    decreases cmds.len(),
{
    if cmds.len() > 0 {
        lemma_release_ids_preserves_destroyed(mem, cmds[0].tracker, j);
        lemma_release_cmds_preserves_destroyed(
            release_ids(mem, cmds[0].tracker),
            cmds.drop_first(),
            j,
        );
    }
}

/// For every `n > 0`: running a kernel that writes index `i` into element
/// `i` over a whole live buffer of `n` elements, with grid extent `n`,
/// yields exactly the sequence `0 .. n` in that buffer — and a dispatch that
/// retains the buffer first and releases it afterwards leaves it alive, with
/// those contents, and with its reference counts restored.
pub proof fn lemma_write_iota_yields_indices(
    shaders: Seq<ShaderSnap>,
    mem: Seq<ResSnap>,
    s: int,
    ba: api::BufferArgument,
    n: nat,
)
    requires
        0 <= s < shaders.len(),
        shaders[s].body == KernelBody::WriteIota,
        0 <= ba.buffer.0 < mem.len(),
        mem[ba.buffer.0 as int].alive,
        mem[ba.buffer.0 as int].kind == ResourceKind::Buffer,
        mem[ba.buffer.0 as int].elem_size > 0,
        mem[ba.buffer.0 as int].user_refs > 0,
        mem[ba.buffer.0 as int].len == n,
        mem[ba.buffer.0 as int].data.len() == n,
        mem[ba.buffer.0 as int].len * mem[ba.buffer.0 as int].elem_size <= usize::MAX,
        mem[ba.buffer.0 as int].cmd_refs < usize::MAX,
        ba.offset == 0,
        ba.size == n * mem[ba.buffer.0 as int].elem_size,
    ensures
        ({
            let id = ba.buffer.0 as int;
            let c = CmdSnap {
                shader: s,
                args: seq![api::Argument::Buffer(ba)],
                grid_x: n,
                tracker: seq![id],
            };
            let out = drain_effect(shaders, retain_ids(mem, seq![id]), Seq::empty().push(c));
            &&& out.len() == mem.len()
            &&& out[id].alive
            &&& out[id].data == Seq::new(n, |i: int| i as u64)
            &&& out[id].kind == mem[id].kind
            &&& out[id].len == mem[id].len
            &&& out[id].elem_size == mem[id].elem_size
            &&& out[id].user_refs == mem[id].user_refs
            &&& out[id].cmd_refs == mem[id].cmd_refs
            &&& forall|j: int| 0 <= j < mem.len() && j != id ==> out[j] == mem[j]
        }),
{
    let id = ba.buffer.0 as int;
    let es = mem[id].elem_size as int;
    let c = CmdSnap {
        shader: s,
        args: seq![api::Argument::Buffer(ba)],
        grid_x: n,
        tracker: seq![id],
    };
    assert(seq![id].drop_first() =~= Seq::<int>::empty());
    let mem1 = retain_ids(mem, seq![id]);
    assert(seq![id][0] == id);
    assert(mem1 == retain_ids(retain_one(mem, id), seq![id].drop_first()));
    assert(retain_ids(retain_one(mem, id), Seq::<int>::empty()) == retain_one(mem, id));
    assert(mem1 == retain_one(mem, id));
    lemma_drain_single(shaders, mem1, c);
    vstd::arithmetic::div_mod::lemma_mod_multiples_basic(n as int, es);
    assert(ba.size as int % es == 0);
    assert(ba.offset as int % es == 0) by {
        vstd::arithmetic::div_mod::lemma_mod_multiples_basic(0, es);
    }
    assert(buffer_arg_ok(mem1, ba));
    assert(mem1[id].elem_size == mem[id].elem_size);
    vstd::arithmetic::div_mod::lemma_div_multiples_vanish(n as int, es);
    assert(ba.size as int == es * (n as int)) by (nonlinear_arith)
        requires
            ba.size == n * mem[ba.buffer.0 as int].elem_size,
            es == mem[ba.buffer.0 as int].elem_size,
    ;
    assert(arg_elem_len(mem1, ba) == (es * (n as int)) / es);
    assert(arg_elem_len(mem1, ba) == n);
    assert(arg_elem_offset(mem1, ba) == 0) by {
        vstd::arithmetic::div_mod::lemma_div_multiples_vanish(0, es);
    }
    assert(vstd::math::min(n as int, n as int) == n);
    let mem2 = exec_command(shaders, mem1, c);
    assert(mem2 == mem1.update(
        id,
        ResSnap { data: write_iota_data(mem1[id].data, 0, n as int), ..mem1[id] },
    ));
    assert(write_iota_data(mem1[id].data, 0, n as int) =~= Seq::new(n, |i: int| i as u64));
    let out = release_ids(mem2, seq![id]);
    assert(out == release_ids(release_one(mem2, id), seq![id].drop_first()));
    assert(release_ids(release_one(mem2, id), Seq::<int>::empty()) == release_one(mem2, id));
    assert(out == release_one(mem2, id));
    assert forall|j: int| 0 <= j < mem.len() && j != id implies out[j] == mem[j] by {
        assert(mem1[j] == mem[j]);
        assert(mem2[j] == mem1[j]);
    }
}

} // verus!
