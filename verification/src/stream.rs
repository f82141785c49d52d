//! Streams, command buffers and synchronization tokens.
//!
//! A stream is an ordered submission queue. A command buffer batches
//! commands and is consumed by committing it, which hands the batch to the
//! backend in order and returns a one-shot [`SyncHandle`]; synchronizing that
//! token (or the stream) drains the queue: every queued command runs, in
//! submission order, and then every command's resource tracker is released.

use vstd::prelude::*;
use crate::api;
use crate::device::Device;
use crate::semantics::{drain_effect, CmdSnap, DeviceSnap};
use crate::Error;

verus! {

/// An ordered command submission queue of a device.
#[derive(Clone, Copy)]
pub struct Stream {
    pub handle: api::Stream,
}

/// One backend-native operation record, together with the resource tracker
/// that keeps every resource it references alive until it has run.
pub struct Command {
    pub inner: api::Command,
    /// Ids of the resources this command retains.
    pub tracker: Vec<usize>,
}

impl Command {
    /// The queued form of this command.
    pub open spec fn snap(self) -> CmdSnap {
        match self.inner {
            api::Command::ShaderDispatch(sd) => CmdSnap {
                shader: sd.shader.0 as int,
                args: sd.args@,
                grid_x: sd.dispatch_size[0] as nat,
                tracker: self.tracker@.map_values(|u: usize| u as int),
            },
        }
    }

    /// The shader this command dispatches.
    pub open spec fn shader_id(self) -> int {
        self.snap().shader
    }
}

/// The queued forms of a whole batch, in order.
pub open spec fn batch_snaps(commands: Seq<Command>) -> Seq<CmdSnap> {
    commands.map_values(|c: Command| c.snap())
}

/// Whether every command of a batch names a shader the device knows.
pub open spec fn batch_shaders_known(d: DeviceSnap, commands: Seq<Command>) -> bool {
    forall|i: int| 0 <= i < commands.len() ==> 0 <= (#[trigger] commands[i]).shader_id() < d.shaders.len()
}

/// An append-only, single-use batch of commands bound to one stream.
pub struct CommandBuffer {
    pub stream: api::Stream,
    pub commands: Vec<Command>,
}

/// A one-shot token for work that was submitted and not yet waited on.
/// Synchronizing it consumes the token, so at most one explicit wait is
/// issued per submitted batch.
pub struct SyncHandle {
    pub stream: Option<api::Stream>,
}

impl Stream {
    /// The backend identifier of this stream.
    pub fn handle(&self) -> (h: api::Stream)
        ensures
            h == self.handle,
    {
        self.handle
    }

    /// Block until the backend has drained this stream: run every queued
    /// command in submission order, then release every command's tracker.
    pub fn synchronize(&self, device: &mut Device) -> (r: Result<(), Error>)
        requires
            old(device).wf(),
            self.handle.0 < old(device)@.queues.len(),
        ensures
            final(device).wf(),
            r is Ok,
            final(device)@ == (DeviceSnap {
                mem: drain_effect(
                    old(device)@.shaders,
                    old(device)@.mem,
                    old(device)@.queues[self.handle.0 as int],
                ),
                queues: old(device)@.queues.update(self.handle.0 as int, Seq::empty()),
                ..old(device)@
            }),
    {
        device.sync_stream(self.handle.0)
    }

    /// An empty command buffer bound to this stream.
    pub fn command_buffer(&self) -> (cb: CommandBuffer)
        ensures
            cb.stream == self.handle,
            cb.commands@ == Seq::<Command>::empty(),
    {
        CommandBuffer { stream: self.handle, commands: Vec::new() }
    }

    /// Batch the given commands and commit them to this stream.
    pub fn submit(&self, device: &mut Device, commands: Vec<Command>) -> (r: Result<
        SyncHandle,
        Error,
    >)
        requires
            old(device).wf(),
            self.handle.0 < old(device)@.queues.len(),
        ensures
            final(device).wf(),
            r is Ok <==> batch_shaders_known(old(device)@, commands@),
            r is Err ==> final(device)@ == old(device)@ && r->Err_0 == Error::Backend,
            r is Ok ==> ({
                &&& r->Ok_0.stream == Some(self.handle)
                &&& final(device)@ == (DeviceSnap {
                    queues: old(device)@.queues.update(
                        self.handle.0 as int,
                        old(device)@.queues[self.handle.0 as int] + batch_snaps(commands@),
                    ),
                    ..old(device)@
                })
            }),
    {
        let mut command_buffer = self.command_buffer();
        command_buffer.extend(commands);
        command_buffer.commit(device)
    }

    /// Submit the given commands and block until they have run.
    pub fn submit_and_sync(&self, device: &mut Device, commands: Vec<Command>) -> (r: Result<
        (),
        Error,
    >)
        requires
            old(device).wf(),
            self.handle.0 < old(device)@.queues.len(),
        ensures
            final(device).wf(),
            r is Ok <==> batch_shaders_known(old(device)@, commands@),
            r is Err ==> final(device)@ == old(device)@ && r->Err_0 == Error::Backend,
            r is Ok ==> final(device)@ == (DeviceSnap {
                mem: drain_effect(
                    old(device)@.shaders,
                    old(device)@.mem,
                    old(device)@.queues[self.handle.0 as int] + batch_snaps(commands@),
                ),
                queues: old(device)@.queues.update(self.handle.0 as int, Seq::empty()),
                ..old(device)@
            }),
    {
        let mut handle = match self.submit(device, commands) {
            Ok(h) => h,
            Err(e) => {
                return Err(e);
            },
        };
        handle.synchronize(device)
    }
}

impl CommandBuffer {
    /// Append a batch of commands, in order.
    pub fn extend(&mut self, commands: Vec<Command>)
        ensures
            final(self).stream == old(self).stream,
            final(self).commands@ == old(self).commands@ + commands@,
    {
        let mut commands = commands;
        self.commands.append(&mut commands);
    }

    /// Append one command.
    pub fn push(&mut self, command: Command)
        ensures
            final(self).stream == old(self).stream,
            final(self).commands@ == old(self).commands@.push(command),
    {
        self.commands.push(command);
    }

    /// Hand the batch to the backend on this buffer's stream. The commands
    /// are appended to the stream's queue in batch order; an empty batch is a
    /// valid no-op dispatch. The backend rejects the whole batch, leaving
    /// the device unchanged, if a command names a shader it does not know.
    pub fn commit(self, device: &mut Device) -> (r: Result<SyncHandle, Error>)
        requires
            old(device).wf(),
            self.stream.0 < old(device)@.queues.len(),
        ensures
            final(device).wf(),
            r is Ok <==> batch_shaders_known(old(device)@, self.commands@),
            r is Err ==> final(device)@ == old(device)@ && r->Err_0 == Error::Backend,
            r is Ok ==> ({
                &&& r->Ok_0.stream == Some(self.stream)
                &&& final(device)@ == (DeviceSnap {
                    queues: old(device)@.queues.update(
                        self.stream.0 as int,
                        old(device)@.queues[self.stream.0 as int] + batch_snaps(self.commands@),
                    ),
                    ..old(device)@
                })
            }),
    {
        let CommandBuffer { stream, commands } = self;
        match device.submit_batch(stream.0, commands) {
            Ok(()) => Ok(SyncHandle { stream: Some(stream) }),
            Err(e) => Err(e),
        }
    }
}

impl SyncHandle {
    /// Whether this token still awaits its wait.
    pub open spec fn pending(self) -> bool {
        self.stream is Some
    }

    /// Block until the submitted work has completed. Consumes the token's
    /// stream reference, so the wait is issued exactly once.
    pub fn synchronize(&mut self, device: &mut Device) -> (r: Result<(), Error>)
        requires
            old(self).pending(),
            old(device).wf(),
            (old(self).stream->0).0 < old(device)@.queues.len(),
        ensures
            final(device).wf(),
            r is Ok,
            !final(self).pending(),
            final(device)@ == (DeviceSnap {
                mem: drain_effect(
                    old(device)@.shaders,
                    old(device)@.mem,
                    old(device)@.queues[(old(self).stream->0).0 as int],
                ),
                queues: old(device)@.queues.update((old(self).stream->0).0 as int, Seq::empty()),
                ..old(device)@
            }),
    {
        let stream = self.stream.take().unwrap();
        device.sync_stream(stream.0)
    }
}

/// Batch the given commands on the device's default stream and block until
/// they have run.
pub fn submit_default_stream_and_sync(device: &mut Device, commands: Vec<Command>) -> (r: Result<
    (),
    Error,
>)
    requires
        old(device).wf(),
    ensures
        final(device).wf(),
        r is Ok <==> batch_shaders_known(old(device)@, commands@),
        r is Err ==> final(device)@ == old(device)@ && r->Err_0 == Error::Backend,
        r is Ok ==> final(device)@ == (DeviceSnap {
            mem: drain_effect(
                old(device)@.shaders,
                old(device)@.mem,
                old(device)@.queues[0] + batch_snaps(commands@),
            ),
            queues: old(device)@.queues.update(0, Seq::empty()),
            ..old(device)@
        }),
{
    let default_stream = device.default_stream();
    default_stream.submit_and_sync(device, commands)
}

} // verus!
