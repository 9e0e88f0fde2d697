use vstd::prelude::*;
use vstd::pervasive::unreached;
use vstd::slice::{slice_subrange, slice_to_vec};
use crate::error::TuyaError;
use crate::mesparse::{encode_spec, parse_spec, views_of, Message, MessageParser};

verus! {

/// The read timeout, in seconds, a driver must set on the connection
/// before performing [`TransportOp::Read`]. Devices sit on the local
/// network and answer quickly; the bound keeps a dead device from
/// blocking a call indefinitely.
pub const READ_TIMEOUT_SECS: u64 = 2;

/// The size of the receive buffer a driver should read the reply into.
/// One read of at most this many bytes is made per exchange; a reply is
/// assumed to fit in it.
pub const RECV_BUFFER_SIZE: usize = 256;

/// One transport action the driver is asked to perform. The driver reports
/// the outcome of each as a [`TransportEvent`].
#[derive(Debug, Clone, PartialEq, Eq)]
pub enum TransportOp {
    /// Open a fresh TCP connection to the session's endpoint.
    Connect,
    /// Disable send-side coalescing delay and set a read timeout of
    /// [`READ_TIMEOUT_SECS`] seconds on the connection.
    Configure,
    /// Write all of these bytes to the connection.
    Write(Vec<u8>),
    /// Read once into a buffer of [`RECV_BUFFER_SIZE`] bytes.
    Read,
    /// Shut down both directions of the connection.
    Shutdown,
}

/// The outcome of one transport action, reported by the driver.
#[derive(Debug, Clone, PartialEq, Eq)]
pub enum TransportEvent {
    /// The action completed: the connection is open, configured, fully
    /// written, or shut down.
    Succeeded,
    /// A read completed: the first `count` bytes of `buffer` are the bytes
    /// received. `count` may be zero.
    Received { buffer: Vec<u8>, count: usize },
    /// The action failed at the transport layer (including a read that
    /// timed out). Carries the underlying detail text.
    Failed(String),
}

/// Where an exchange stands: which transport action is outstanding.
#[derive(Debug, Clone, PartialEq, Eq)]
pub enum ExchangeState {
    /// Waiting for the connection to open.
    Connecting,
    /// Waiting for the connection to be configured.
    Configuring,
    /// Waiting for the encoded request to be written.
    Writing,
    /// Waiting for the single reply read.
    Reading,
    /// Waiting for the shutdown that follows a non-empty read; `reply`
    /// holds exactly the bytes received.
    ShuttingDown { reply: Vec<u8> },
    /// The exchange has ended; no further event is accepted.
    Complete,
}

/// What the state machine decided on an event: either the next transport
/// action to perform, or the result of the whole exchange.
#[derive(Debug, PartialEq, Eq)]
pub enum ExchangeStep {
    Perform(TransportOp),
    Done(Result<Vec<Message>, TuyaError>),
}

/// One request/response exchange: a strictly linear pass through
/// connect, configure, write, read, shutdown, decode. The machine owns the
/// outbound message and decides every step; a driver outside this crate
/// performs the transport actions and feeds their outcomes back in. On the
/// first failure the machine ends the exchange with the matching error and
/// leaves the connection for the driver to release.
pub struct Exchange {
    pub state: ExchangeState,
    pub mes: Message,
}

/// Which events can answer which state: reads answer with data or a
/// failure, every other outstanding action with success or a failure, and
/// a complete exchange accepts nothing.
pub open spec fn event_fits(state: ExchangeState, ev: TransportEvent) -> bool {
    match state {
        ExchangeState::Reading => !(ev is Succeeded),
        ExchangeState::Complete => false,
        _ => !(ev is Received),
    }
}

impl Exchange {
    /// Starts an exchange for one outbound message. The first action is
    /// always to connect; nothing is read or written before that
    /// succeeds.
    pub fn begin(mes: Message) -> (r: (Exchange, TransportOp))
        ensures
            r.0.state is Connecting,
            r.0.mes == mes,
            r.1 is Connect,
    {
        (Exchange { state: ExchangeState::Connecting, mes }, TransportOp::Connect)
    }

    /// Advances the exchange on the outcome of the outstanding action.
    ///
    /// The contract is the protocol: connect, then configure, then encode
    /// and write, then one read, then shutdown, then parse. Any transport
    /// failure ends the exchange with a transport error carrying the
    /// driver's detail text; an empty read ends it with a bad-read error;
    /// an encode or parse failure ends it with a codec error; otherwise
    /// the decoded messages come back exactly as the codec parses the
    /// bytes received.
    pub fn step(&mut self, mp: &MessageParser, ev: TransportEvent) -> (r: ExchangeStep)
        requires
            event_fits(old(self).state, ev),
            ev matches TransportEvent::Received { buffer, count } ==> count <= buffer@.len(),
        ensures
            old(self).state is Connecting && ev is Succeeded ==> final(self).state is Configuring
                && final(self).mes == old(self).mes && r == ExchangeStep::Perform(
                TransportOp::Configure,
            ),
            old(self).state is Configuring && ev is Succeeded ==> (match encode_spec(
                old(self).mes@,
                true,
            ) {
                Some(b) => final(self).state is Writing && (r matches ExchangeStep::Perform(op)
                    && op matches TransportOp::Write(w) && w@ == b),
                None => final(self).state is Complete && r == ExchangeStep::Done(
                    Err(TuyaError::Codec),
                ),
            }),
            old(self).state is Writing && ev is Succeeded ==> final(self).state is Reading && r
                == ExchangeStep::Perform(TransportOp::Read),
            old(self).state is Reading ==> (ev matches TransportEvent::Received { buffer, count }
                ==> (if count == 0 {
                final(self).state is Complete && r == ExchangeStep::Done(Err(TuyaError::BadTcpRead))
            } else {
                (final(self).state matches ExchangeState::ShuttingDown { reply } && reply@
                    == buffer@.subrange(0, count as int)) && r == ExchangeStep::Perform(
                    TransportOp::Shutdown,
                )
            })),
            ev is Succeeded ==> (old(self).state matches ExchangeState::ShuttingDown { reply }
                ==> final(self).state is Complete && (match parse_spec(reply@) {
                Some(ms) => r matches ExchangeStep::Done(res) && res matches Ok(v) && views_of(v@)
                    == ms,
                None => r == ExchangeStep::Done(Err(TuyaError::Codec)),
            })),
            ev matches TransportEvent::Failed(detail) ==> final(self).state is Complete && (
            r matches ExchangeStep::Done(res) && res matches Err(e) && e matches
                TuyaError::Transport(d) && d@ == detail@),
    {
        let mut prev = ExchangeState::Complete;
        core::mem::swap(&mut prev, &mut self.state);
        match ev {
            TransportEvent::Failed(detail) => ExchangeStep::Done(
                Err(TuyaError::Transport(detail)),
            ),
            TransportEvent::Succeeded => match prev {
                ExchangeState::Connecting => {
                    self.state = ExchangeState::Configuring;
                    ExchangeStep::Perform(TransportOp::Configure)
                },
                ExchangeState::Configuring => match mp.encode(&self.mes, true) {
                    Ok(bytes) => {
                        self.state = ExchangeState::Writing;
                        ExchangeStep::Perform(TransportOp::Write(bytes))
                    },
                    Err(_) => ExchangeStep::Done(Err(TuyaError::Codec)),
                },
                ExchangeState::Writing => {
                    self.state = ExchangeState::Reading;
                    ExchangeStep::Perform(TransportOp::Read)
                },
                ExchangeState::ShuttingDown { reply } => match mp.parse(reply.as_slice()) {
                    Ok(messages) => ExchangeStep::Done(Ok(messages)),
                    Err(_) => ExchangeStep::Done(Err(TuyaError::Codec)),
                },
                _ => unreached(),
            },
            TransportEvent::Received { buffer, count } => match prev {
                ExchangeState::Reading => {
                    if count == 0 {
                        ExchangeStep::Done(Err(TuyaError::BadTcpRead))
                    } else {
                        let reply = slice_to_vec(slice_subrange(buffer.as_slice(), 0, count));
                        self.state = ExchangeState::ShuttingDown { reply };
                        ExchangeStep::Perform(TransportOp::Shutdown)
                    }
                },
                _ => unreached(),
            },
        }
    }
}

} // verus!
