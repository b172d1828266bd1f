//! Decision logic of the per-socket I/O workers.
//!
//! A worker owns one socket. Each loop iteration it (a) waits a short
//! bounded interval for one command from the coordinator, (b) drains
//! whatever bytes the socket has ready into its accumulation buffer, and
//! (c) emits events about what it observed. The waiting, reading and
//! writing happen in the unverified shell; every decision in between is a
//! function here, with a contract over the models in the crate root.

use vstd::prelude::*;

use crate::{
    DataPipe,
    EventV,
    FullDuplexTcpState,
    PipeV,
    StreamSide,
    concat_all,
    copy_bytes,
    shutdown_event,
    write_event,
};

verus! {

/// One observation made while draining readable bytes from a socket.
#[derive(Debug, PartialEq, Eq)]
pub enum ReadEvent {
    /// The read returned these bytes.
    Data(Vec<u8>),
    /// The read returned zero bytes: the peer closed its sending side.
    Eof,
    /// The read would block (or timed out): nothing more is ready now.
    WouldBlock,
    /// The peer reset the connection.
    Reset,
    /// Any other I/O error; it is logged and the drain goes on.
    Other,
}

/// Mathematical model of a read observation.
pub enum ReadEventV {
    Data(Seq<u8>),
    Eof,
    WouldBlock,
    Reset,
    Other,
}

impl View for ReadEvent {
    type V = ReadEventV;

    open spec fn view(&self) -> ReadEventV {
        match self {
            ReadEvent::Data(d) => ReadEventV::Data(d@),
            ReadEvent::Eof => ReadEventV::Eof,
            ReadEvent::WouldBlock => ReadEventV::WouldBlock,
            ReadEvent::Reset => ReadEventV::Reset,
            ReadEvent::Other => ReadEventV::Other,
        }
    }
}

/// Why a read drain stopped.
#[derive(Copy, Clone, PartialEq, Eq, Structural, Debug)]
pub enum DrainEnd {
    Eof,
    WouldBlock,
    Reset,
}

/// Folds one read observation into the accumulation buffer. Data is
/// appended and counted; the three terminal observations stop the drain;
/// any other error leaves the state alone and the drain goes on.
pub fn drain_step(buffer: &mut Vec<u8>, total: &mut usize, ev: ReadEvent) -> (done: Option<
    DrainEnd,
>)
    requires
        ev matches ReadEvent::Data(c) ==> old(buffer)@.len() + c@.len() <= usize::MAX && *old(
            total,
        ) + c@.len() <= usize::MAX,
    ensures
        match ev@ {
            ReadEventV::Data(c) => final(buffer)@ == old(buffer)@ + c && *final(total) == *old(
                total,
            ) + c.len() && done is None,
            ReadEventV::Eof => final(buffer)@ == old(buffer)@ && *final(total) == *old(total)
                && done == Some(DrainEnd::Eof),
            ReadEventV::WouldBlock => final(buffer)@ == old(buffer)@ && *final(total) == *old(total)
                && done == Some(DrainEnd::WouldBlock),
            ReadEventV::Reset => final(buffer)@ == old(buffer)@ && *final(total) == *old(total)
                && done == Some(DrainEnd::Reset),
            ReadEventV::Other => final(buffer)@ == old(buffer)@ && *final(total) == *old(total)
                && done is None,
        },
{
    match ev {
        ReadEvent::Data(mut c) => {
            let n = c.len();
            buffer.append(&mut c);
            *total = *total + n;
            None
        },
        ReadEvent::Eof => Some(DrainEnd::Eof),
        ReadEvent::WouldBlock => Some(DrainEnd::WouldBlock),
        ReadEvent::Reset => Some(DrainEnd::Reset),
        ReadEvent::Other => None,
    }
}

/// What a completed drain means for the worker.
#[derive(Copy, Clone, PartialEq, Eq, Structural, Debug)]
pub enum DrainOutcome {
    /// Bytes were accumulated: emit them toward the opposite side.
    Flush,
    /// The peer closed cleanly and nothing is pending.
    PeerClosed,
    /// Nothing was ready and nothing was accumulated: stay silent.
    NoData,
    /// The connection was reset.
    Reset,
}

/// How a finished drain is classified. A reset dominates whatever was
/// read before it; otherwise accumulated bytes are flushed, a bare
/// end-of-file means the peer closed, and a bare would-block means there
/// is simply nothing to do.
pub open spec fn drain_outcome_model(end: DrainEnd, total: nat) -> DrainOutcome {
    if end is Reset {
        DrainOutcome::Reset
    } else if total > 0 {
        DrainOutcome::Flush
    } else if end is Eof {
        DrainOutcome::PeerClosed
    } else {
        DrainOutcome::NoData
    }
}

/// Classifies a finished drain.
pub fn drain_outcome(end: DrainEnd, total: usize) -> (o: DrainOutcome)
    ensures
        o == drain_outcome_model(end, total as nat),
{
    match end {
        DrainEnd::Reset => DrainOutcome::Reset,
        DrainEnd::Eof => if total > 0 {
            DrainOutcome::Flush
        } else {
            DrainOutcome::PeerClosed
        },
        DrainEnd::WouldBlock => if total > 0 {
            DrainOutcome::Flush
        } else {
            DrainOutcome::NoData
        },
    }
}

/// The result of one bounded wait on the worker's command channel.
#[derive(Debug, PartialEq, Eq)]
pub enum CommandEvent {
    /// A command arrived.
    Received(DataPipe),
    /// The wait timed out; the worker turns to its socket.
    TimedOut,
    /// The coordinator dropped its sender; the worker is orphaned.
    Disconnected,
}

/// Mathematical model of a command-channel observation.
pub enum CommandEventV {
    Received(PipeV),
    TimedOut,
    Disconnected,
}

impl View for CommandEvent {
    type V = CommandEventV;

    open spec fn view(&self) -> CommandEventV {
        match self {
            CommandEvent::Received(p) => CommandEventV::Received(p@),
            CommandEvent::TimedOut => CommandEventV::TimedOut,
            CommandEvent::Disconnected => CommandEventV::Disconnected,
        }
    }
}

/// What the shell must do next on behalf of a worker: write bytes to the
/// socket, emit an event to the coordinator, shut the socket down, stop
/// running the worker — in that order, each part optional.
#[derive(Debug, PartialEq, Eq)]
pub struct WorkerAction {
    pub write: Option<Vec<u8>>,
    pub emit: Option<FullDuplexTcpState>,
    pub shut_stream: bool,
    pub exit: bool,
}

/// Mathematical model of a worker action.
pub struct WorkerActionV {
    pub write: Option<Seq<u8>>,
    pub emit: Option<EventV>,
    pub shut_stream: bool,
    pub exit: bool,
}

impl View for WorkerAction {
    type V = WorkerActionV;

    open spec fn view(&self) -> WorkerActionV {
        WorkerActionV {
            write: match &self.write {
                Some(d) => Some(d@),
                None => None,
            },
            emit: match &self.emit {
                Some(e) => Some(e@),
                None => None,
            },
            shut_stream: self.shut_stream,
            exit: self.exit,
        }
    }
}

/// How a worker answers one command-channel observation: a write request
/// is written out; an explicit shutdown closes the socket and ends the
/// worker; a timeout just moves on to the read phase; a disconnected
/// channel ends the worker without touching the socket (the coordinator
/// is gone and will not command it again).
pub open spec fn command_action_model(ev: CommandEventV) -> WorkerActionV {
    match ev {
        CommandEventV::Received(PipeV::DataWrite(d)) => WorkerActionV {
            write: Some(d),
            emit: None,
            shut_stream: false,
            exit: false,
        },
        CommandEventV::Received(PipeV::Shutdown) => WorkerActionV {
            write: None,
            emit: None,
            shut_stream: true,
            exit: true,
        },
        CommandEventV::TimedOut => WorkerActionV {
            write: None,
            emit: None,
            shut_stream: false,
            exit: false,
        },
        CommandEventV::Disconnected => WorkerActionV {
            write: None,
            emit: None,
            shut_stream: false,
            exit: true,
        },
    }
}

/// Decides the worker's answer to one command-channel observation.
pub fn worker_command_action(ev: CommandEvent) -> (a: WorkerAction)
    ensures
        a@ == command_action_model(ev@),
{
    match ev {
        CommandEvent::Received(DataPipe::DataWrite(d)) => WorkerAction {
            write: Some(d),
            emit: None,
            shut_stream: false,
            exit: false,
        },
        CommandEvent::Received(DataPipe::Shutdown) => WorkerAction {
            write: None,
            emit: None,
            shut_stream: true,
            exit: true,
        },
        CommandEvent::TimedOut => WorkerAction {
            write: None,
            emit: None,
            shut_stream: false,
            exit: false,
        },
        CommandEvent::Disconnected => WorkerAction {
            write: None,
            emit: None,
            shut_stream: false,
            exit: true,
        },
    }
}

/// How a worker answers a finished drain: accumulated bytes become one
/// write event for the opposite side; a clean close or a reset becomes
/// this side's shutdown event, the socket is shut and the worker ends;
/// nothing-to-do stays silent.
pub open spec fn read_action_model(side: StreamSide, o: DrainOutcome, buf: Seq<u8>) -> WorkerActionV {
    match o {
        DrainOutcome::Flush => WorkerActionV {
            write: None,
            emit: Some(write_event(side, buf)),
            shut_stream: false,
            exit: false,
        },
        DrainOutcome::PeerClosed => WorkerActionV {
            write: None,
            emit: Some(shutdown_event(side)),
            shut_stream: true,
            exit: true,
        },
        DrainOutcome::NoData => WorkerActionV {
            write: None,
            emit: None,
            shut_stream: false,
            exit: false,
        },
        DrainOutcome::Reset => WorkerActionV {
            write: None,
            emit: Some(shutdown_event(side)),
            shut_stream: true,
            exit: true,
        },
    }
}

/// The accumulation buffer after the drain is answered: flushing hands the
/// bytes to the event and clears the buffer, so only bytes read after this
/// emission can appear in the next one.
pub open spec fn read_buffer_after(o: DrainOutcome, buf: Seq<u8>) -> Seq<u8> {
    if o is Flush {
        Seq::empty()
    } else {
        buf
    }
}

/// Decides the worker's answer to a finished drain, clearing the
/// accumulation buffer exactly when its contents are emitted.
pub fn worker_read_action(side: StreamSide, o: DrainOutcome, buffer: &mut Vec<u8>) -> (a:
    WorkerAction)
    ensures
        a@ == read_action_model(side, o, old(buffer)@),
        final(buffer)@ == read_buffer_after(o, old(buffer)@),
{
    match o {
        DrainOutcome::Flush => {
            let out = copy_bytes(buffer);
            buffer.clear();
            let ev = match side {
                StreamSide::DownStream => FullDuplexTcpState::UpStreamWrite(out),
                StreamSide::UpStream => FullDuplexTcpState::DownStreamWrite(out),
            };
            WorkerAction { write: None, emit: Some(ev), shut_stream: false, exit: false }
        },
        DrainOutcome::PeerClosed | DrainOutcome::Reset => {
            let ev = match side {
                StreamSide::DownStream => FullDuplexTcpState::DownStreamShutDown,
                StreamSide::UpStream => FullDuplexTcpState::UpStreamShutDown,
            };
            WorkerAction { write: None, emit: Some(ev), shut_stream: true, exit: true }
        },
        DrainOutcome::NoData => WorkerAction {
            write: None,
            emit: None,
            shut_stream: false,
            exit: false,
        },
    }
}

/// The worker's answer to a write that failed irrecoverably: report this
/// side's shutdown, close the socket, end the worker.
pub open spec fn write_failure_model(side: StreamSide) -> WorkerActionV {
    WorkerActionV { write: None, emit: Some(shutdown_event(side)), shut_stream: true, exit: true }
}

/// Decides the worker's answer to a failed write.
pub fn worker_write_failure_action(side: StreamSide) -> (a: WorkerAction)
    ensures
        a@ == write_failure_model(side),
{
    let ev = match side {
        StreamSide::DownStream => FullDuplexTcpState::DownStreamShutDown,
        StreamSide::UpStream => FullDuplexTcpState::UpStreamShutDown,
    };
    WorkerAction { write: None, emit: Some(ev), shut_stream: true, exit: true }
}

/// The worker's answer when an emission toward the coordinator fails: the
/// coordinator is gone, so the socket is closed and the worker ends
/// without emitting anything further.
pub open spec fn emit_failure_model() -> WorkerActionV {
    WorkerActionV { write: None, emit: None, shut_stream: true, exit: true }
}

/// Decides the worker's answer to a failed emission.
pub fn worker_emit_failure_action() -> (a: WorkerAction)
    ensures
        a@ == emit_failure_model(),
{
    WorkerAction { write: None, emit: None, shut_stream: true, exit: true }
}

/// Law: a clean zero-byte read with nothing accumulated yields this side's
/// shutdown event — never a zero-length write event — and ends the worker
/// with its socket closed.
pub proof fn lemma_zero_read_is_shutdown(side: StreamSide, buf: Seq<u8>)
    ensures
        drain_outcome_model(DrainEnd::Eof, 0) == DrainOutcome::PeerClosed,
        read_action_model(side, DrainOutcome::PeerClosed, buf).emit == Some(shutdown_event(side)),
        forall|d: Seq<u8>|
            read_action_model(side, DrainOutcome::PeerClosed, buf).emit != Some(
                #[trigger] write_event(side, d),
            ),
        read_action_model(side, DrainOutcome::PeerClosed, buf).shut_stream,
        read_action_model(side, DrainOutcome::PeerClosed, buf).exit,
{
}

/// Law: a would-block with nothing accumulated emits nothing and keeps the
/// worker running with its socket open.
pub proof fn lemma_would_block_silent(side: StreamSide, buf: Seq<u8>)
    ensures
        drain_outcome_model(DrainEnd::WouldBlock, 0) == DrainOutcome::NoData,
        read_action_model(side, DrainOutcome::NoData, buf).emit is None,
        !read_action_model(side, DrainOutcome::NoData, buf).shut_stream,
        !read_action_model(side, DrainOutcome::NoData, buf).exit,
        read_buffer_after(DrainOutcome::NoData, buf) == buf,
{
}

/// Law: an irrecoverable write failure produces exactly one event — this
/// side's shutdown — and the worker closes its socket and exits, so no
/// further event can follow it.
pub proof fn lemma_write_failure_single_shutdown(side: StreamSide)
    ensures
        write_failure_model(side).emit == Some(shutdown_event(side)),
        write_failure_model(side).write is None,
        write_failure_model(side).shut_stream,
        write_failure_model(side).exit,
{
}

/// Law: worker shutdown discipline. A worker decision closes its socket
/// exactly when it is about to exit with the coordinator still reachable:
/// every close is followed by exit, and every exit closes the socket
/// except when the command channel is disconnected (the coordinator has
/// dropped the worker, and dropping the stream closes the socket).
pub proof fn lemma_worker_shutdown_discipline(
    ev: CommandEventV,
    side: StreamSide,
    o: DrainOutcome,
    buf: Seq<u8>,
)
    ensures
        command_action_model(ev).shut_stream ==> command_action_model(ev).exit,
        command_action_model(ev).exit ==> command_action_model(ev).shut_stream || ev
            is Disconnected,
        read_action_model(side, o, buf).shut_stream == read_action_model(side, o, buf).exit,
        write_failure_model(side).shut_stream && write_failure_model(side).exit,
        emit_failure_model().shut_stream && emit_failure_model().exit,
{
}

/// The accumulation buffer a drain reaches after appending the given
/// chunks, in order, to an initial buffer.
pub open spec fn drain_run(init: Seq<u8>, chunks: Seq<Seq<u8>>) -> Seq<u8>
    decreases chunks.len(),
{
    if chunks.len() == 0 {
        init
    } else {
        drain_run(init, chunks.drop_last()) + chunks.last()
    }
}

/// Law: a drain conserves bytes — appending chunk after chunk leaves the
/// initial buffer followed by the concatenation of everything that was
/// read, in order. Together with the flush emitting exactly the buffer,
/// a worker's write events carry exactly the bytes its socket yielded.
pub proof fn lemma_drain_accumulates(init: Seq<u8>, chunks: Seq<Seq<u8>>)
    ensures
        drain_run(init, chunks) == init + concat_all(chunks),
    decreases chunks.len(),
{
    if chunks.len() == 0 {
        assert(drain_run(init, chunks) =~= init + concat_all(chunks));
    } else {
        lemma_drain_accumulates(init, chunks.drop_last());
        assert(drain_run(init, chunks) =~= init + concat_all(chunks));
    }
}

/// Law: a worker that drains `chunks` into an empty buffer and then
/// flushes emits exactly one write event for the opposite side, carrying
/// the concatenation of the chunks in the order they were read.
pub proof fn lemma_worker_flush_carries_drain(side: StreamSide, chunks: Seq<Seq<u8>>)
    ensures
        read_action_model(side, DrainOutcome::Flush, drain_run(Seq::empty(), chunks)).emit == Some(
            write_event(side, concat_all(chunks)),
        ),
        read_buffer_after(DrainOutcome::Flush, drain_run(Seq::empty(), chunks)) == Seq::<
            u8,
        >::empty(),
{
    lemma_drain_accumulates(Seq::empty(), chunks);
    assert(Seq::<u8>::empty() + concat_all(chunks) =~= concat_all(chunks));
}

} // verus!
