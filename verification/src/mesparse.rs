use vstd::prelude::*;
use vstd::slice::{slice_subrange, slice_to_vec};
use crate::error::TuyaError;

verus! {

/// Whether a request changes device state ("set") or reads it ("get").
/// The kind determines the protocol opcode embedded in the frame.
#[derive(Debug, Clone, Copy, PartialEq, Eq, Structural)]
pub enum CommandType {
    /// A state-changing command.
    Control,
    /// A state-reading query.
    DpQuery,
}

/// The protocol versions the codec accepts.
#[derive(Debug, Clone, Copy, PartialEq, Eq, Structural)]
pub enum ProtocolVersion {
    V3_1,
    V3_3,
}

/// One protocol message: a raw payload, the command kind, and an optional
/// caller-assigned sequence id used to correlate requests with replies.
#[derive(Debug, Clone, PartialEq, Eq)]
pub struct Message {
    pub payload: Vec<u8>,
    pub command: CommandType,
    pub seq_nr: Option<u32>,
}

/// The mathematical value of a [`Message`].
pub ghost struct MessageModel {
    pub payload: Seq<u8>,
    pub command: CommandType,
    pub seq_nr: Option<u32>,
}

impl View for Message {
    type V = MessageModel;

    open spec fn view(&self) -> MessageModel {
        MessageModel { payload: self.payload@, command: self.command, seq_nr: self.seq_nr }
    }
}

/// The models of a sequence of messages.
pub open spec fn views_of(s: Seq<Message>) -> Seq<MessageModel> {
    s.map_values(|m: Message| m@)
}

impl Message {
    pub fn new(payload: &[u8], command: CommandType, seq_nr: Option<u32>) -> (m: Message)
        ensures
            m@ == (MessageModel { payload: payload@, command: command, seq_nr: seq_nr }),
    {
        Message { payload: slice_to_vec(payload), command, seq_nr }
    }
}

/// The opcode a command kind puts on the wire.
pub open spec fn command_code(c: CommandType) -> u32 {
    match c {
        CommandType::Control => 7u32,
        CommandType::DpQuery => 10u32,
    }
}

/// The command kind an opcode stands for, if any.
pub open spec fn command_of_code(code: int) -> Option<CommandType> {
    if code == 7 {
        Some(CommandType::Control)
    } else if code == 10 {
        Some(CommandType::DpQuery)
    } else {
        None
    }
}

impl CommandType {
    pub fn code(&self) -> (c: u32)
        ensures
            c == command_code(*self),
    {
        match self {
            CommandType::Control => 7,
            CommandType::DpQuery => 10,
        }
    }
}

/// The value of four bytes read big-endian.
pub open spec fn be32(b0: u8, b1: u8, b2: u8, b3: u8) -> int {
    0x100_0000 * (b0 as int) + 0x1_0000 * (b1 as int) + 0x100 * (b2 as int) + (b3 as int)
}

/// The four big-endian bytes of a 32-bit value.
pub open spec fn u32_be(n: u32) -> Seq<u8> {
    seq![
        (n as int / 0x100_0000) as u8,
        ((n as int / 0x1_0000) % 0x100) as u8,
        ((n as int / 0x100) % 0x100) as u8,
        ((n as int) % 0x100) as u8,
    ]
}

/// The four bytes that open every frame.
pub open spec fn frame_prefix() -> Seq<u8> {
    seq![0u8, 0u8, 0x55u8, 0xaau8]
}

/// The four bytes that close every frame.
pub open spec fn frame_suffix() -> Seq<u8> {
    seq![0u8, 0u8, 0xaau8, 0x55u8]
}

/// The sequence id written on the wire: a message without one is sent as 0.
pub open spec fn seq_value(m: MessageModel) -> u32 {
    match m.seq_nr {
        Some(s) => s,
        None => 0u32,
    }
}

/// The full wire envelope of a message: prefix, sequence id, opcode,
/// payload length, payload, suffix, each number in four big-endian bytes.
pub open spec fn frame_bytes(m: MessageModel) -> Seq<u8> {
    frame_prefix() + u32_be(seq_value(m)) + u32_be(command_code(m.command)) + u32_be(
        m.payload.len() as u32,
    ) + m.payload + frame_suffix()
}

/// What encoding a message yields: the framed envelope when one is asked
/// for, the bare payload otherwise; nothing when the payload length cannot
/// be written in the 32-bit length field.
pub open spec fn encode_spec(m: MessageModel, envelope: bool) -> Option<Seq<u8>> {
    if m.payload.len() > 0xFFFF_FFFF {
        None
    } else if envelope {
        Some(frame_bytes(m))
    } else {
        Some(m.payload)
    }
}

/// The messages a byte buffer parses into: a sequence of complete frames,
/// each well-formed, or nothing if the buffer is not exactly such a
/// sequence.
pub open spec fn parse_spec(b: Seq<u8>) -> Option<Seq<MessageModel>>
    decreases b.len(),
{
    if b.len() == 0 {
        Some(Seq::empty())
    } else if b.len() < 20 {
        None
    } else if !(b[0] == 0 && b[1] == 0 && b[2] == 0x55 && b[3] == 0xaa) {
        None
    } else {
        let seqno = be32(b[4], b[5], b[6], b[7]);
        let cmd = be32(b[8], b[9], b[10], b[11]);
        let n = be32(b[12], b[13], b[14], b[15]);
        match command_of_code(cmd) {
            None => None,
            Some(c) => if b.len() < 20 + n {
                None
            } else if !(b[16 + n] == 0 && b[17 + n] == 0 && b[18 + n] == 0xaa && b[19 + n]
                == 0x55) {
                None
            } else {
                let m = MessageModel {
                    payload: b.subrange(16, 16 + n),
                    command: c,
                    seq_nr: Some(seqno as u32),
                };
                match parse_spec(b.subrange(20 + n, b.len() as int)) {
                    Some(rest) => Some(seq![m] + rest),
                    None => None,
                }
            },
        }
    }
}

/// A valid version string: "3.1" or "3.3".
pub open spec fn version_ok(v: Seq<char>) -> bool {
    v == "3.1"@ || v == "3.3"@
}

/// The version a valid version string names.
pub open spec fn version_of(v: Seq<char>) -> ProtocolVersion {
    if v == "3.1"@ {
        ProtocolVersion::V3_1
    } else {
        ProtocolVersion::V3_3
    }
}

/// A well-formed key: absent, or exactly 16 characters.
pub open spec fn key_ok(key: Option<&str>) -> bool {
    match key {
        None => true,
        Some(k) => k@.len() == 16,
    }
}

/// The encoder/decoder of the wire protocol, bound to a protocol version at
/// construction. Construction validates the version and the optional key;
/// the framing itself applies no key-dependent transformation.
#[derive(Debug, Clone, Copy, PartialEq, Eq, Structural)]
pub struct MessageParser {
    pub version: ProtocolVersion,
}

/// Appends the four big-endian bytes of `n`.
fn push_be32(out: &mut Vec<u8>, n: u32)
    ensures
        final(out)@ == old(out)@ + u32_be(n),
{
    out.push((n / 0x100_0000) as u8);
    out.push(((n / 0x1_0000) % 0x100) as u8);
    out.push(((n / 0x100) % 0x100) as u8);
    out.push((n % 0x100) as u8);
    proof {
        assert(out@ =~= old(out)@ + u32_be(n));
    }
}

impl MessageParser {
    /// Builds a codec for the given protocol version and optional key.
    /// Fails with a codec error on an unknown version or a key of the wrong
    /// length; no codec is produced then.
    pub fn create(ver: &str, key: Option<&str>) -> (r: Result<MessageParser, TuyaError>)
        ensures
            r is Ok <==> version_ok(ver@) && key_ok(key),
            r matches Ok(mp) ==> mp.version == version_of(ver@),
            r matches Err(e) ==> e == TuyaError::Codec,
    {
        let key_fits = match key {
            None => true,
            Some(k) => k.unicode_len() == 16,
        };
        if !key_fits {
            return Err(TuyaError::Codec);
        }
        if ver.unicode_len() == 3 && ver.get_char(0) == '3' && ver.get_char(1) == '.' {
            let minor = ver.get_char(2);
            if minor == '1' {
                proof {
                    reveal_strlit("3.1");
                    assert(ver@ =~= "3.1"@);
                }
                return Ok(MessageParser { version: ProtocolVersion::V3_1 });
            }
            if minor == '3' {
                proof {
                    reveal_strlit("3.1");
                    reveal_strlit("3.3");
                    assert(ver@ =~= "3.3"@);
                    assert(ver@ != "3.1"@);
                }
                return Ok(MessageParser { version: ProtocolVersion::V3_3 });
            }
        }
        proof {
            reveal_strlit("3.1");
            reveal_strlit("3.3");
            assert(!version_ok(ver@));
        }
        Err(TuyaError::Codec)
    }

    /// Encodes a message. With `envelope` the result is the full frame;
    /// without it, the bare payload. Fails exactly when the payload is too
    /// long for the 32-bit length field.
    pub fn encode(&self, mes: &Message, envelope: bool) -> (r: Result<Vec<u8>, TuyaError>)
        ensures
            (match encode_spec(mes@, envelope) {
                Some(b) => r matches Ok(v) && v@ == b,
                None => r == Err::<Vec<u8>, TuyaError>(TuyaError::Codec),
            }),
    {
        if mes.payload.len() as u64 > 0xFFFF_FFFFu64 {
            return Err(TuyaError::Codec);
        }
        if !envelope {
            return Ok(slice_to_vec(mes.payload.as_slice()));
        }
        let mut out: Vec<u8> = Vec::new();
        out.push(0);
        out.push(0);
        out.push(0x55);
        out.push(0xaa);
        proof {
            assert(out@ =~= frame_prefix());
        }
        let seqno: u32 = match mes.seq_nr {
            Some(s) => s,
            None => 0,
        };
        push_be32(&mut out, seqno);
        push_be32(&mut out, mes.command.code());
        push_be32(&mut out, mes.payload.len() as u32);
        let ghost header = out@;
        proof {
            assert(header + mes.payload@.subrange(0, 0) =~= header);
        }
        let mut i: usize = 0;
        while i < mes.payload.len()
            invariant
                i <= mes.payload.len(),
                out@ == header + mes.payload@.subrange(0, i as int),
            decreases mes.payload.len() - i,
        {
            out.push(mes.payload[i]);
            proof {
                assert(out@ =~= header + mes.payload@.subrange(0, i as int + 1));
            }
            i += 1;
        }
        proof {
            assert(mes.payload@.subrange(0, mes.payload@.len() as int) =~= mes.payload@);
        }
        let ghost body = out@;
        out.push(0);
        out.push(0);
        out.push(0xaa);
        out.push(0x55);
        proof {
            assert(out@ =~= body + frame_suffix());
        }
        Ok(out)
    }

    /// Parses a byte buffer back into the messages it frames. Succeeds,
    /// with the messages in frame order, exactly when the buffer is a
    /// sequence of complete well-formed frames; any malformed byte ends
    /// the whole parse with a codec error.
    pub fn parse(&self, data: &[u8]) -> (r: Result<Vec<Message>, TuyaError>)
        ensures
            (match parse_spec(data@) {
                Some(ms) => r matches Ok(v) && views_of(v@) == ms,
                None => r == Err::<Vec<Message>, TuyaError>(TuyaError::Codec),
            }),
    {
        let mut out: Vec<Message> = Vec::new();
        let mut off: usize = 0;
        proof {
            assert(views_of(Seq::<Message>::empty()) =~= Seq::<MessageModel>::empty());
            assert(data@.subrange(0, data@.len() as int) =~= data@);
        }
        loop
            invariant
                off <= data@.len(),
                (match parse_spec(data@.subrange(off as int, data@.len() as int)) {
                    Some(rest) => parse_spec(data@) == Some(views_of(out@) + rest),
                    None => parse_spec(data@) is None,
                }),
            decreases data@.len() - off,
        {
            let ghost sub = data@.subrange(off as int, data@.len() as int);
            let rem = data.len() - off;
            if rem == 0 {
                proof {
                    assert(views_of(out@) + Seq::<MessageModel>::empty() =~= views_of(out@));
                }
                return Ok(out);
            }
            if rem < 20 {
                return Err(TuyaError::Codec);
            }
            if !(read_byte(data, off) == 0 && read_byte(data, off + 1) == 0 && read_byte(
                data,
                off + 2,
            ) == 0x55 && read_byte(data, off + 3) == 0xaa) {
                return Err(TuyaError::Codec);
            }
            let seqno = read_be32(data, off + 4);
            let cmd = read_be32(data, off + 8);
            let n32 = read_be32(data, off + 12);
            let command = match command_of_code_exec(cmd) {
                Some(c) => c,
                None => {
                    return Err(TuyaError::Codec);
                },
            };
            if (n32 as u64) > (rem - 20) as u64 {
                proof {
                    assert(sub.len() < 20 + be32(sub[12], sub[13], sub[14], sub[15]));
                }
                return Err(TuyaError::Codec);
            }
            let n = n32 as usize;
            if !(read_byte(data, off + 16 + n) == 0 && read_byte(data, off + 17 + n) == 0
                && read_byte(data, off + 18 + n) == 0xaa && read_byte(data, off + 19 + n)
                == 0x55) {
                return Err(TuyaError::Codec);
            }
            let payload = slice_to_vec(slice_subrange(data, off + 16, off + 16 + n));
            let mes = Message { payload, command, seq_nr: Some(seqno) };
            proof {
                assert(mes@.payload =~= sub.subrange(16, 16 + n as int));
            }
            out.push(mes);
            let ghost new_sub = data@.subrange(off as int + 20 + n as int, data@.len() as int);
            proof {
                assert(sub.subrange(20 + n as int, sub.len() as int) =~= new_sub);
                let ghost m = MessageModel {
                    payload: sub.subrange(16, 16 + n as int),
                    command: command,
                    seq_nr: Some(seqno),
                };
                assert(views_of(out@) =~= views_of(out@.drop_last()) + seq![m]);
                match parse_spec(new_sub) {
                    Some(rest) => {
                        assert(parse_spec(sub) == Some(seq![m] + rest));
                        assert(views_of(out@.drop_last()) + (seq![m] + rest) =~= views_of(out@)
                            + rest);
                    },
                    None => {
                        assert(parse_spec(sub) is None);
                    },
                }
            }
            off = off + 20 + n;
        }
    }
}

/// The byte at an index, read safely.
fn read_byte(data: &[u8], i: usize) -> (b: u8)
    requires
        i < data@.len(),
    ensures
        b == data@[i as int],
{
    *vstd::slice::slice_index_get(data, i)
}

/// Reads the four bytes at `off` as a big-endian 32-bit value.
fn read_be32(data: &[u8], off: usize) -> (r: u32)
    requires
        off + 4 <= data@.len(),
    ensures
        r as int == be32(data@[off as int], data@[off as int + 1], data@[off as int + 2],
            data@[off as int + 3]),
{
    proof {
        assert(data@.len() <= usize::MAX) by {
            vstd::slice::axiom_spec_len(data);
        }
    }
    let b0: u32 = read_byte(data, off) as u32;
    let b1: u32 = read_byte(data, off + 1) as u32;
    let b2: u32 = read_byte(data, off + 2) as u32;
    let b3: u32 = read_byte(data, off + 3) as u32;
    b0 * 0x100_0000 + b1 * 0x1_0000 + b2 * 0x100 + b3
}

/// Encoding is deterministic: two encodings of the same message, with the
/// same envelope choice, meet the encoder's contract only with the same
/// bytes. Any two results that satisfy [`MessageParser::encode`]'s
/// postcondition are therefore equal.
pub proof fn lemma_encode_deterministic(
    m: MessageModel,
    envelope: bool,
    r1: Option<Seq<u8>>,
    r2: Option<Seq<u8>>,
)
    requires
        r1 == encode_spec(m, envelope),
        r2 == encode_spec(m, envelope),
    ensures
        r1 == r2,
{
}

/// Parsing is deterministic: parsing the same byte buffer twice yields the
/// same decoded messages. Any two results that satisfy
/// [`MessageParser::parse`]'s postcondition are therefore equal.
pub proof fn lemma_parse_deterministic(
    b: Seq<u8>,
    r1: Option<Seq<MessageModel>>,
    r2: Option<Seq<MessageModel>>,
)
    requires
        r1 == parse_spec(b),
        r2 == parse_spec(b),
    ensures
        r1 == r2,
{
}

/// Recombining the four big-endian bytes of a 32-bit value gives the value
/// back.
pub proof fn lemma_be32_of_u32_be(n: u32)
    ensures
        be32(
            u32_be(n)[0],
            u32_be(n)[1],
            u32_be(n)[2],
            u32_be(n)[3],
        ) == n as int,
{
    let ni = n as int;
    let d0 = ni % 0x100;
    let m1 = ni / 0x100;
    let d1 = m1 % 0x100;
    let m2 = m1 / 0x100;
    let d2 = m2 % 0x100;
    let m3 = m2 / 0x100;
    vstd::arithmetic::div_mod::lemma_fundamental_div_mod(ni, 0x100);
    vstd::arithmetic::div_mod::lemma_fundamental_div_mod(m1, 0x100);
    vstd::arithmetic::div_mod::lemma_fundamental_div_mod(m2, 0x100);
    vstd::arithmetic::div_mod::lemma_div_denominator(ni, 0x100, 0x100);
    vstd::arithmetic::div_mod::lemma_div_denominator(ni, 0x1_0000, 0x100);
    assert(m2 == ni / 0x1_0000);
    assert(m3 == ni / 0x100_0000);
    vstd::arithmetic::div_mod::lemma_div_is_ordered(ni, 0xFFFF_FFFF, 0x100_0000);
    vstd::arithmetic::div_mod::lemma_mod_bound(ni, 0x100);
    vstd::arithmetic::div_mod::lemma_mod_bound(m1, 0x100);
    vstd::arithmetic::div_mod::lemma_mod_bound(m2, 0x100);
    assert(0 <= m3 < 0x100);
    assert(ni == 0x100_0000 * m3 + 0x1_0000 * d2 + 0x100 * d1 + d0);
}

/// A frame followed by further bytes parses as the framed message followed
/// by whatever the further bytes parse into, and fails exactly when they
/// fail. Holds for every message that carries a sequence id and whose
/// payload fits the length field. This is how a reply holding several
/// frames decodes into that many messages, in frame order.
pub proof fn lemma_parse_of_frame_concat(m: MessageModel, rest: Seq<u8>)
    requires
        m.payload.len() <= 0xFFFF_FFFF,
        m.seq_nr is Some,
    ensures
        parse_spec(frame_bytes(m) + rest) == (match parse_spec(rest) {
            Some(ms) => Some(seq![m] + ms),
            None => None::<Seq<MessageModel>>,
        }),
{
    let b = frame_bytes(m) + rest;
    let n = m.payload.len() as int;
    let len_u32 = m.payload.len() as u32;
    let code = command_code(m.command);
    let sv = seq_value(m);
    assert(b.len() == 20 + n + rest.len());
    assert forall|k: int| 0 <= k < 4 implies b[k] == frame_prefix()[k] && b[4 + k] == u32_be(
        sv,
    )[k] && b[8 + k] == u32_be(code)[k] && b[12 + k] == u32_be(len_u32)[k] && b[16 + n + k]
        == frame_suffix()[k] by {
        assert(b[16 + n + k] == frame_suffix()[k]);
    }
    lemma_be32_of_u32_be(sv);
    lemma_be32_of_u32_be(code);
    lemma_be32_of_u32_be(len_u32);
    assert(be32(b[4], b[5], b[6], b[7]) == sv as int);
    assert(be32(b[8], b[9], b[10], b[11]) == code as int);
    assert(be32(b[12], b[13], b[14], b[15]) == n);
    assert(command_of_code(code as int) == Some(m.command));
    assert(b.subrange(16, 16 + n) =~= m.payload);
    assert(b.subrange(20 + n, b.len() as int) =~= rest);
    let m2 = MessageModel {
        payload: b.subrange(16, 16 + n),
        command: m.command,
        seq_nr: Some((be32(b[4], b[5], b[6], b[7])) as u32),
    };
    assert(m2 == m);
}

/// Round trip: a message framed by the encoder parses back as exactly that
/// message, alone. Holds for every message that carries a sequence id and
/// whose payload fits the length field.
pub proof fn lemma_parse_of_frame(m: MessageModel)
    requires
        m.payload.len() <= 0xFFFF_FFFF,
        m.seq_nr is Some,
    ensures
        parse_spec(frame_bytes(m)) == Some(seq![m]),
{
    lemma_parse_of_frame_concat(m, Seq::empty());
    assert(frame_bytes(m) + Seq::<u8>::empty() =~= frame_bytes(m));
    assert(parse_spec(Seq::<u8>::empty()) == Some(Seq::<MessageModel>::empty()));
    assert(seq![m] + Seq::<MessageModel>::empty() =~= seq![m]);
}

/// The command kind an opcode stands for, if any.
fn command_of_code_exec(code: u32) -> (r: Option<CommandType>)
    ensures
        r == command_of_code(code as int),
{
    if code == 7 {
        Some(CommandType::Control)
    } else if code == 10 {
        Some(CommandType::DpQuery)
    } else {
        None
    }
}

} // verus!
