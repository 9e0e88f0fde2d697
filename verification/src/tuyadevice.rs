use vstd::prelude::*;
use crate::error::TuyaError;
use crate::exchange::{Exchange, TransportOp};
use crate::mesparse::{
    key_ok, version_of, version_ok, CommandType, Message, MessageModel, MessageParser,
};

verus! {

/// The port every device listens on.
pub const DEVICE_PORT: u16 = 6668;

/// The fixed network endpoint of one device: a host and the protocol's
/// port. Created at session construction and never changed.
#[derive(Debug, Clone, PartialEq, Eq)]
pub struct DeviceEndpoint {
    pub host: String,
    pub port: u16,
}

/// A session with one device: a codec and the device's endpoint, both
/// immutable. The session keeps no connection and no other state between
/// calls; every exchange opens and tears down its own connection, so the
/// session may be reused freely.
#[derive(Debug, Clone, PartialEq, Eq)]
pub struct TuyaDevice {
    pub mp: MessageParser,
    pub addr: DeviceEndpoint,
}

impl TuyaDevice {
    /// Builds a session from a protocol version, an optional key and the
    /// device's host address. Fails with a codec error, and constructs no
    /// session, exactly when the codec rejects the version/key pair. The
    /// endpoint's port is always [`DEVICE_PORT`], whatever the address.
    pub fn create(ver: &str, key: Option<&str>, addr: String) -> (r: Result<TuyaDevice, TuyaError>)
        ensures
            r is Ok <==> version_ok(ver@) && key_ok(key),
            r matches Ok(d) ==> d.mp.version == version_of(ver@) && d.addr.host@ == addr@
                && d.addr.port == DEVICE_PORT,
            r matches Err(e) ==> e == TuyaError::Codec,
    {
        let mp = match MessageParser::create(ver, key) {
            Ok(mp) => mp,
            Err(e) => {
                return Err(e);
            },
        };
        Ok(TuyaDevice::create_with_mp(mp, addr))
    }

    /// Binds an already-constructed codec to a device address. Infallible;
    /// the endpoint's port is always [`DEVICE_PORT`].
    pub fn create_with_mp(mp: MessageParser, addr: String) -> (d: TuyaDevice)
        ensures
            d.mp == mp,
            d.addr.host@ == addr@,
            d.addr.port == DEVICE_PORT,
    {
        TuyaDevice { mp, addr: DeviceEndpoint { host: addr, port: DEVICE_PORT } }
    }

    /// Starts a fire-and-forget ("set") exchange: the payload is framed as
    /// a state-changing command under the given sequence id. The returned
    /// machine, driven with this session's codec, performs the exchange.
    pub fn begin_set(&self, tuya_payload: &[u8], seq_id: u32) -> (r: (Exchange, TransportOp))
        ensures
            r.0.state is Connecting,
            r.0.mes@ == (MessageModel {
                payload: tuya_payload@,
                command: CommandType::Control,
                seq_nr: Some(seq_id),
            }),
            r.1 is Connect,
    {
        Exchange::begin(Message::new(tuya_payload, CommandType::Control, Some(seq_id)))
    }

    /// Starts a query ("get") exchange: as [`Self::begin_set`], but the
    /// payload is framed as a state-reading query, and the caller keeps
    /// the decoded replies.
    pub fn begin_get(&self, tuya_payload: &[u8], seq_id: u32) -> (r: (Exchange, TransportOp))
        ensures
            r.0.state is Connecting,
            r.0.mes@ == (MessageModel {
                payload: tuya_payload@,
                command: CommandType::DpQuery,
                seq_nr: Some(seq_id),
            }),
            r.1 is Connect,
    {
        Exchange::begin(Message::new(tuya_payload, CommandType::DpQuery, Some(seq_id)))
    }
}

/// What a "set" call reports: success alone. The decoded replies of a
/// state-changing command are exposed only to the observability sink,
/// never returned; a failure passes through unchanged.
pub fn set_outcome(r: Result<Vec<Message>, TuyaError>) -> (out: Result<(), TuyaError>)
    ensures
        out is Ok <==> r is Ok,
        r matches Err(e) ==> out == Err::<(), TuyaError>(e),
{
    match r {
        Ok(_) => Ok(()),
        Err(e) => Err(e),
    }
}

} // verus!
