//! Bidirectional TCP/TLS relay engine.
//!
//! The library splices bytes between a downstream (client-facing) socket and
//! an upstream (remote-facing) socket. At each splice point a user-supplied
//! handler may observe, rewrite, spoof, freeze, or tear down the traffic.
//! The per-connection engine is a pair of I/O workers plus a full-duplex
//! coordinator; their decision logic lives here, stated and verified over
//! mathematical models of the messages that cross thread boundaries.
//! The sockets, threads and channels themselves are driven by a thin
//! unverified shell that consults these decision functions.

use vstd::prelude::*;

pub mod data;
pub mod http;
pub mod relay;
pub mod tcp;

verus! {

/// Whether an endpoint of the relay carries TLS or raw TCP bytes.
#[derive(Copy, Clone)]
pub enum TCPDataType {
    TLS,
    RAW,
}

/// TLS material for the listening (downstream) side of the relay.
/// FILE points at a PEM certificate chain and private key on disk;
/// DATA passes the PEM bytes directly; NONE is for a raw downstream.
#[derive(Clone)]
pub enum TLSConfig {
    FILE { certificate_path: String, private_key_path: String },
    DATA { certificate: Vec<u8>, private_key: Vec<u8> },
    NONE,
}

/// Process-lifetime relay configuration.
#[derive(Clone)]
pub struct RelayConfig {
    pub downstream_data_type: TCPDataType,
    pub upstream_data_type: TCPDataType,
    pub bind_host: String,
    pub bind_port: String,
    pub remote_host: String,
    pub remote_port: String,
    pub tls_config: TLSConfig,
}

impl RelayConfig {
    /// A configuration is well formed when a TLS downstream comes with TLS
    /// material to terminate it.
    pub open spec fn wf(&self) -> bool {
        (self.downstream_data_type is TLS) ==> !(self.tls_config is NONE)
    }

    /// Decides well-formedness of the configuration.
    pub fn check(&self) -> (r: bool)
        ensures
            r == self.wf(),
    {
        match self.downstream_data_type {
            TCPDataType::TLS => !matches!(self.tls_config, TLSConfig::NONE),
            TCPDataType::RAW => true,
        }
    }
}

/// The two sockets of one relayed connection: the client-facing one and the
/// remote-facing one. Each is owned by exactly one I/O worker.
#[derive(Copy, Clone, PartialEq, Eq, Structural, Debug)]
pub enum StreamSide {
    DownStream,
    UpStream,
}

/// A message a worker sends to the coordinator. The write requests are named
/// for the direction of the intended write: bytes read from the client ask
/// for an upstream write, and bytes read from the remote ask for a
/// downstream write.
#[derive(Debug, PartialEq, Eq)]
pub enum FullDuplexTcpState {
    DownStreamWrite(Vec<u8>),
    UpStreamWrite(Vec<u8>),
    DownStreamShutDown,
    UpStreamShutDown,
}

/// Mathematical model of a coordinator-bound message.
pub enum EventV {
    DownStreamWrite(Seq<u8>),
    UpStreamWrite(Seq<u8>),
    DownStreamShutDown,
    UpStreamShutDown,
}

impl View for FullDuplexTcpState {
    type V = EventV;

    open spec fn view(&self) -> EventV {
        match self {
            FullDuplexTcpState::DownStreamWrite(d) => EventV::DownStreamWrite(d@),
            FullDuplexTcpState::UpStreamWrite(d) => EventV::UpStreamWrite(d@),
            FullDuplexTcpState::DownStreamShutDown => EventV::DownStreamShutDown,
            FullDuplexTcpState::UpStreamShutDown => EventV::UpStreamShutDown,
        }
    }
}

/// A command the coordinator sends to a worker.
#[derive(Debug, PartialEq, Eq)]
pub enum DataPipe {
    DataWrite(Vec<u8>),
    Shutdown,
}

/// Mathematical model of a worker-bound command.
pub enum PipeV {
    DataWrite(Seq<u8>),
    Shutdown,
}

impl View for DataPipe {
    type V = PipeV;

    open spec fn view(&self) -> PipeV {
        match self {
            DataPipe::DataWrite(d) => PipeV::DataWrite(d@),
            DataPipe::Shutdown => PipeV::Shutdown,
        }
    }
}

/// The event a worker emits when it reads bytes: the downstream worker asks
/// for an upstream write and the upstream worker for a downstream write.
pub open spec fn write_event(side: StreamSide, data: Seq<u8>) -> EventV {
    match side {
        StreamSide::DownStream => EventV::UpStreamWrite(data),
        StreamSide::UpStream => EventV::DownStreamWrite(data),
    }
}

/// The event a worker emits when its own socket is done.
pub open spec fn shutdown_event(side: StreamSide) -> EventV {
    match side {
        StreamSide::DownStream => EventV::DownStreamShutDown,
        StreamSide::UpStream => EventV::UpStreamShutDown,
    }
}

/// The value a blocking callback returns; it selects what happens to the
/// bytes that were just read.
#[derive(Debug, PartialEq, Eq)]
pub enum CallbackRet {
    /// Forward these bytes to the opposite side.
    Relay(Vec<u8>),
    /// Skip relaying and send these bytes back where they came from.
    Spoof(Vec<u8>),
    /// Shut the whole connection down.
    Shutdown,
    /// Drop the bytes as if they were never read.
    Freeze,
}

/// Mathematical model of a callback verdict.
pub enum VerdictV {
    Relay(Seq<u8>),
    Spoof(Seq<u8>),
    Shutdown,
    Freeze,
}

impl View for CallbackRet {
    type V = VerdictV;

    open spec fn view(&self) -> VerdictV {
        match self {
            CallbackRet::Relay(d) => VerdictV::Relay(d@),
            CallbackRet::Spoof(d) => VerdictV::Spoof(d@),
            CallbackRet::Shutdown => VerdictV::Shutdown,
            CallbackRet::Freeze => VerdictV::Freeze,
        }
    }
}

/// Callback functions a user may or may not implement. The blocking
/// callbacks decide the fate of each read; the non-blocking ones observe a
/// copy of the bytes without touching the data path. The defaults relay
/// everything unchanged and observe nothing.
pub trait HandlerCallbacks {
    fn ds_b_callback(&mut self, _in_data: Vec<u8>) -> CallbackRet {
        CallbackRet::Relay(_in_data)
    }

    fn ds_nb_callback(&self, _in_data: Vec<u8>) {
    }

    fn us_b_callback(&mut self, _in_data: Vec<u8>) -> CallbackRet {
        CallbackRet::Relay(_in_data)
    }

    fn us_nb_callback(&self, _in_data: Vec<u8>) {
    }
}

/// The user handler, wrapped so a clone can travel to each place that
/// invokes callbacks.
#[derive(Clone)]
pub(crate) struct InnerHandlers<H> where H: HandlerCallbacks + Sync + Send + Clone + 'static {
    pub(crate) cb: H,
}

/// The main relay object: a configuration plus the user handler. The
/// unverified shell takes both and runs the accept loop.
#[derive(Clone)]
pub struct SSLRelay<H> where H: HandlerCallbacks + Sync + Send + Clone + 'static {
    pub(crate) config: RelayConfig,
    pub(crate) handlers: Option<InnerHandlers<H>>,
}

/// The concatenation of a sequence of byte blocks, in order.
pub open spec fn concat_all(blocks: Seq<Seq<u8>>) -> Seq<u8>
    decreases blocks.len(),
{
    if blocks.len() == 0 {
        Seq::empty()
    } else {
        concat_all(blocks.drop_last()) + blocks.last()
    }
}

/// Copies a byte vector.
pub fn copy_bytes(v: &Vec<u8>) -> (r: Vec<u8>)
    ensures
        r@ == v@,
{
    let mut r: Vec<u8> = Vec::new();
    let mut i: usize = 0;
    while i < v.len()
        invariant
            i <= v.len(),
            r@ == v@.subrange(0, i as int),
        decreases v.len() - i,
    {
        r.push(v[i]);
        proof {
            assert(r@ =~= v@.subrange(0, i + 1 as int));
        }
        i = i + 1;
    }
    proof {
        assert(r@ =~= v@);
    }
    r
}

} // verus!
