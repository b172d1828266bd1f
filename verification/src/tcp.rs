//! Decision logic of the full-duplex coordinator.
//!
//! The coordinator owns the two workers of one connection. It receives
//! their events over a shared state channel, runs the user callbacks, and
//! answers with commands on the two per-worker command channels. The
//! channels and threads live in the unverified shell; the interpretation
//! of every event and verdict is decided here.

use vstd::prelude::*;

use crate::{
    CallbackRet,
    DataPipe,
    EventV,
    FullDuplexTcpState,
    HandlerCallbacks,
    PipeV,
    StreamSide,
    VerdictV,
    concat_all,
    copy_bytes,
};

verus! {

/// What the coordinator does after one event: an optional command for
/// each worker, and whether the coordinator itself terminates.
#[derive(Debug, PartialEq, Eq)]
pub struct FdcAction {
    pub to_downstream: Option<DataPipe>,
    pub to_upstream: Option<DataPipe>,
    pub exit: bool,
}

/// Mathematical model of a coordinator action.
pub struct FdcActionV {
    pub to_downstream: Option<PipeV>,
    pub to_upstream: Option<PipeV>,
    pub exit: bool,
}

impl View for FdcAction {
    type V = FdcActionV;

    open spec fn view(&self) -> FdcActionV {
        FdcActionV {
            to_downstream: match &self.to_downstream {
                Some(p) => Some(p@),
                None => None,
            },
            to_upstream: match &self.to_upstream {
                Some(p) => Some(p@),
                None => None,
            },
            exit: self.exit,
        }
    }
}

/// How a verdict on bytes read by `read_side` is dispatched. Relay
/// forwards the (possibly rewritten) bytes onward to the opposite worker;
/// Spoof sends its bytes back to the worker that read; Freeze drops the
/// bytes; Shutdown commands both workers to shut down and terminates the
/// coordinator.
pub open spec fn dispatch_model(read_side: StreamSide, v: VerdictV) -> FdcActionV {
    match read_side {
        StreamSide::DownStream => match v {
            VerdictV::Relay(b) => FdcActionV {
                to_downstream: None,
                to_upstream: Some(PipeV::DataWrite(b)),
                exit: false,
            },
            VerdictV::Spoof(b) => FdcActionV {
                to_downstream: Some(PipeV::DataWrite(b)),
                to_upstream: None,
                exit: false,
            },
            VerdictV::Freeze => FdcActionV { to_downstream: None, to_upstream: None, exit: false },
            VerdictV::Shutdown => FdcActionV {
                to_downstream: Some(PipeV::Shutdown),
                to_upstream: Some(PipeV::Shutdown),
                exit: true,
            },
        },
        StreamSide::UpStream => match v {
            VerdictV::Relay(b) => FdcActionV {
                to_downstream: Some(PipeV::DataWrite(b)),
                to_upstream: None,
                exit: false,
            },
            VerdictV::Spoof(b) => FdcActionV {
                to_downstream: None,
                to_upstream: Some(PipeV::DataWrite(b)),
                exit: false,
            },
            VerdictV::Freeze => FdcActionV { to_downstream: None, to_upstream: None, exit: false },
            VerdictV::Shutdown => FdcActionV {
                to_downstream: Some(PipeV::Shutdown),
                to_upstream: Some(PipeV::Shutdown),
                exit: true,
            },
        },
    }
}

/// Dispatches one callback verdict over bytes read by `read_side`.
pub fn dispatch_verdict(read_side: StreamSide, ret: CallbackRet) -> (a: FdcAction)
    ensures
        a@ == dispatch_model(read_side, ret@),
{
    match (read_side, ret) {
        (StreamSide::DownStream, CallbackRet::Relay(b)) => FdcAction {
            to_downstream: None,
            to_upstream: Some(DataPipe::DataWrite(b)),
            exit: false,
        },
        (StreamSide::DownStream, CallbackRet::Spoof(b)) => FdcAction {
            to_downstream: Some(DataPipe::DataWrite(b)),
            to_upstream: None,
            exit: false,
        },
        (StreamSide::UpStream, CallbackRet::Relay(b)) => FdcAction {
            to_downstream: Some(DataPipe::DataWrite(b)),
            to_upstream: None,
            exit: false,
        },
        (StreamSide::UpStream, CallbackRet::Spoof(b)) => FdcAction {
            to_downstream: None,
            to_upstream: Some(DataPipe::DataWrite(b)),
            exit: false,
        },
        (_, CallbackRet::Freeze) => FdcAction {
            to_downstream: None,
            to_upstream: None,
            exit: false,
        },
        (_, CallbackRet::Shutdown) => FdcAction {
            to_downstream: Some(DataPipe::Shutdown),
            to_upstream: Some(DataPipe::Shutdown),
            exit: true,
        },
    }
}

/// How the coordinator answers a worker's shutdown event: the opposite
/// worker is commanded to shut down and the coordinator terminates.
pub open spec fn peer_shutdown_model(side: StreamSide) -> FdcActionV {
    match side {
        StreamSide::DownStream => FdcActionV {
            to_downstream: None,
            to_upstream: Some(PipeV::Shutdown),
            exit: true,
        },
        StreamSide::UpStream => FdcActionV {
            to_downstream: Some(PipeV::Shutdown),
            to_upstream: None,
            exit: true,
        },
    }
}

/// How the coordinator answers a closed state channel: both workers are
/// commanded to shut down and the coordinator terminates.
pub open spec fn channel_closed_model() -> FdcActionV {
    FdcActionV {
        to_downstream: Some(PipeV::Shutdown),
        to_upstream: Some(PipeV::Shutdown),
        exit: true,
    }
}

/// Decides the coordinator's answer to a closed state channel.
pub fn fdc_channel_closed_action() -> (a: FdcAction)
    ensures
        a@ == channel_closed_model(),
{
    FdcAction {
        to_downstream: Some(DataPipe::Shutdown),
        to_upstream: Some(DataPipe::Shutdown),
        exit: true,
    }
}

/// The bytes handed to the non-blocking observer for an event: an exact
/// copy of the bytes that were read, and nothing for shutdown events.
/// The shell passes the copy to a detached observer task before it runs
/// the blocking transform, so observation precedes the transform's
/// effect.
pub fn observe_input(ev: &FullDuplexTcpState) -> (r: Option<Vec<u8>>)
    ensures
        match ev@ {
            EventV::DownStreamWrite(d) => r matches Some(c) && c@ == d,
            EventV::UpStreamWrite(d) => r matches Some(c) && c@ == d,
            EventV::DownStreamShutDown => r is None,
            EventV::UpStreamShutDown => r is None,
        },
{
    match ev {
        FullDuplexTcpState::DownStreamWrite(d) => Some(copy_bytes(d)),
        FullDuplexTcpState::UpStreamWrite(d) => Some(copy_bytes(d)),
        FullDuplexTcpState::DownStreamShutDown => None,
        FullDuplexTcpState::UpStreamShutDown => None,
    }
}

/// Handles one coordinator event: a write event runs the blocking
/// transform for its direction and dispatches the verdict; a shutdown
/// event commands the opposite worker to shut down and terminates the
/// coordinator.
pub fn fdc_handle_event<H: HandlerCallbacks>(cb: &mut H, ev: FullDuplexTcpState) -> (a: FdcAction)
    ensures
        match ev@ {
            EventV::UpStreamWrite(d) => exists|v: VerdictV|
                a@ == dispatch_model(StreamSide::DownStream, v),
            EventV::DownStreamWrite(d) => exists|v: VerdictV|
                a@ == dispatch_model(StreamSide::UpStream, v),
            EventV::DownStreamShutDown => a@ == peer_shutdown_model(StreamSide::DownStream),
            EventV::UpStreamShutDown => a@ == peer_shutdown_model(StreamSide::UpStream),
        },
{
    match ev {
        FullDuplexTcpState::UpStreamWrite(d) => {
            let ret = cb.ds_b_callback(d);
            let ghost v = ret@;
            let a = dispatch_verdict(StreamSide::DownStream, ret);
            proof {
                assert(a@ == dispatch_model(StreamSide::DownStream, v));
            }
            a
        },
        FullDuplexTcpState::DownStreamWrite(d) => {
            let ret = cb.us_b_callback(d);
            let ghost v = ret@;
            let a = dispatch_verdict(StreamSide::UpStream, ret);
            proof {
                assert(a@ == dispatch_model(StreamSide::UpStream, v));
            }
            a
        },
        FullDuplexTcpState::DownStreamShutDown => FdcAction {
            to_downstream: None,
            to_upstream: Some(DataPipe::Shutdown),
            exit: true,
        },
        FullDuplexTcpState::UpStreamShutDown => FdcAction {
            to_downstream: Some(DataPipe::Shutdown),
            to_upstream: None,
            exit: true,
        },
    }
}

/// Law: verdict dispatch correctness. On a downstream read, Relay writes
/// exactly its bytes upstream and nothing downstream; Spoof writes exactly
/// its bytes downstream and nothing upstream; Freeze writes nothing at
/// all; Shutdown commands both sockets shut and terminates the
/// coordinator, after which it issues no further command. The upstream
/// read pipeline is the exact mirror.
pub proof fn lemma_verdict_dispatch(b: Seq<u8>)
    ensures
        dispatch_model(StreamSide::DownStream, VerdictV::Relay(b)) == (FdcActionV {
            to_downstream: None,
            to_upstream: Some(PipeV::DataWrite(b)),
            exit: false,
        }),
        dispatch_model(StreamSide::DownStream, VerdictV::Spoof(b)) == (FdcActionV {
            to_downstream: Some(PipeV::DataWrite(b)),
            to_upstream: None,
            exit: false,
        }),
        dispatch_model(StreamSide::DownStream, VerdictV::Freeze) == (FdcActionV {
            to_downstream: None,
            to_upstream: None,
            exit: false,
        }),
        dispatch_model(StreamSide::DownStream, VerdictV::Shutdown) == (FdcActionV {
            to_downstream: Some(PipeV::Shutdown),
            to_upstream: Some(PipeV::Shutdown),
            exit: true,
        }),
        dispatch_model(StreamSide::UpStream, VerdictV::Relay(b)) == (FdcActionV {
            to_downstream: Some(PipeV::DataWrite(b)),
            to_upstream: None,
            exit: false,
        }),
        dispatch_model(StreamSide::UpStream, VerdictV::Spoof(b)) == (FdcActionV {
            to_downstream: None,
            to_upstream: Some(PipeV::DataWrite(b)),
            exit: false,
        }),
        dispatch_model(StreamSide::UpStream, VerdictV::Freeze) == (FdcActionV {
            to_downstream: None,
            to_upstream: None,
            exit: false,
        }),
        dispatch_model(StreamSide::UpStream, VerdictV::Shutdown) == (FdcActionV {
            to_downstream: Some(PipeV::Shutdown),
            to_upstream: Some(PipeV::Shutdown),
            exit: true,
        }),
{
}

/// The command a Relay verdict sends onward: to the upstream worker for a
/// downstream read, to the downstream worker for an upstream read.
pub open spec fn relay_forward(read_side: StreamSide, b: Seq<u8>) -> Option<PipeV> {
    match read_side {
        StreamSide::DownStream => dispatch_model(read_side, VerdictV::Relay(b)).to_upstream,
        StreamSide::UpStream => dispatch_model(read_side, VerdictV::Relay(b)).to_downstream,
    }
}

/// The payload of a write command, or the empty sequence for anything
/// else.
pub open spec fn pipe_payload(p: Option<PipeV>) -> Seq<u8> {
    match p {
        Some(PipeV::DataWrite(d)) => d,
        _ => Seq::empty(),
    }
}

/// The payload sequence a passthrough run forwards onward for a sequence
/// of read blocks.
pub open spec fn passthrough_forwarded(read_side: StreamSide, blocks: Seq<Seq<u8>>) -> Seq<
    Seq<u8>,
> {
    blocks.map(|i: int, b: Seq<u8>| pipe_payload(relay_forward(read_side, b)))
}

/// Law: byte conservation under passthrough. If every transform returns
/// Relay of its input, each read block is forwarded onward unchanged and
/// in order — nothing goes back toward the reader and the coordinator
/// keeps running — so the opposite worker is commanded exactly the read
/// blocks, and their concatenation equals the concatenation of the bytes
/// read. The command channel is FIFO and the worker writes each command
/// in full, so the peer receives exactly those bytes in order.
pub proof fn lemma_passthrough_byte_conservation(read_side: StreamSide, blocks: Seq<Seq<u8>>)
    ensures
        passthrough_forwarded(read_side, blocks) == blocks,
        concat_all(passthrough_forwarded(read_side, blocks)) == concat_all(blocks),
        forall|i: int|
            0 <= i < blocks.len() ==> !(#[trigger] dispatch_model(
                read_side,
                VerdictV::Relay(blocks[i]),
            )).exit,
        forall|i: int|
            0 <= i < blocks.len() ==> (match read_side {
                StreamSide::DownStream => dispatch_model(
                    read_side,
                    VerdictV::Relay(#[trigger] blocks[i]),
                ).to_downstream is None,
                StreamSide::UpStream => dispatch_model(
                    read_side,
                    VerdictV::Relay(blocks[i]),
                ).to_upstream is None,
            }),
{
    assert(passthrough_forwarded(read_side, blocks) =~= blocks);
}

/// Law: round trip. With a downstream transform that relays f of its
/// input and an upstream transform that relays g of its input, bytes x
/// read from the client are written upstream as f(x); when the remote
/// echoes them back, the bytes read upstream are f(x) and are written
/// downstream as g(f(x)) — the client gets back g(echo(f(x))).
pub proof fn lemma_round_trip(
    x: Seq<u8>,
    f: spec_fn(Seq<u8>) -> Seq<u8>,
    g: spec_fn(Seq<u8>) -> Seq<u8>,
)
    ensures
        dispatch_model(StreamSide::DownStream, VerdictV::Relay(f(x))).to_upstream == Some(
            PipeV::DataWrite(f(x)),
        ),
        dispatch_model(StreamSide::UpStream, VerdictV::Relay(g(f(x)))).to_downstream == Some(
            PipeV::DataWrite(g(f(x))),
        ),
{
}

/// Law: coordinator shutdown discipline. A worker's shutdown event makes
/// the coordinator command the opposite worker to shut down and
/// terminate; a closed state channel shuts both workers; a Shutdown
/// verdict shuts both workers; and those verdicts are the only ones that
/// terminate the coordinator. Together with the worker discipline, every
/// exit path closes both sockets exactly once.
pub proof fn lemma_fdc_shutdown_discipline(side: StreamSide, v: VerdictV)
    ensures
        peer_shutdown_model(side).exit,
        side is DownStream ==> peer_shutdown_model(side).to_upstream == Some(PipeV::Shutdown)
            && peer_shutdown_model(side).to_downstream is None,
        side is UpStream ==> peer_shutdown_model(side).to_downstream == Some(PipeV::Shutdown)
            && peer_shutdown_model(side).to_upstream is None,
        channel_closed_model().exit,
        channel_closed_model().to_downstream == Some(PipeV::Shutdown),
        channel_closed_model().to_upstream == Some(PipeV::Shutdown),
        dispatch_model(side, VerdictV::Shutdown).to_downstream == Some(PipeV::Shutdown),
        dispatch_model(side, VerdictV::Shutdown).to_upstream == Some(PipeV::Shutdown),
        dispatch_model(side, v).exit ==> v is Shutdown,
{
}

} // verus!
