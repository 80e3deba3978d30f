use crate::bytes::{copy_range, push_all};
use crate::code::{code_byte, code_of_byte, CommandCode};
use crate::error::ClientError;
use crate::session::{Mac, SessionId, MAC_SIZE, MAX_SESSIONS};
use crate::wire::{be_u16, push_be_u16, read_be_u16};
use vstd::prelude::*;

verus! {

/// Largest payload a command message may carry.
pub const MAX_MSG_SIZE: usize = 2048;

#[verifier::external_type_specification]
#[verifier::external_body]
pub struct ExUuid(uuid::Uuid);

/// Relies on uuid's `Uuid::new_v4`: a fresh random identifier. Nothing is
/// promised of its value.
pub assume_specification[ uuid::Uuid::new_v4 ]() -> uuid::Uuid;

/// What a command message holds, as values.
pub struct MessageView {
    pub code: CommandCode,
    pub session: Option<u8>,
    pub data: Seq<u8>,
    pub mac: Option<Seq<u8>>,
}

/// Whether a command runs inside an authenticated session and so carries a
/// session id and a MAC on the wire.
pub open spec fn is_session_scoped(c: CommandCode) -> bool {
    c == CommandCode::AuthenticateSession || c == CommandCode::SessionMessage
}

/// Whether a command code is session-scoped.
pub fn session_scoped(c: CommandCode) -> (r: bool)
    ensures
        r == is_session_scoped(c),
{
    matches!(c, CommandCode::AuthenticateSession | CommandCode::SessionMessage)
}

/// The count the length field encodes: session id, payload and MAC.
pub open spec fn body_len(v: MessageView) -> nat {
    (if v.session.is_some() { 1nat } else { 0nat }) + v.data.len() + (if v.mac.is_some() {
        MAC_SIZE as nat
    } else {
        0nat
    })
}

/// Everything after the length field: session id, payload and MAC.
pub open spec fn body_parts(session: Option<u8>, data: Seq<u8>, mac: Option<Seq<u8>>) -> Seq<u8> {
    (match session {
        Some(s) => seq![s],
        None => Seq::empty(),
    }) + data + (match mac {
        Some(m) => m,
        None => Seq::empty(),
    })
}

/// Everything after the length field of a command message.
pub open spec fn body(v: MessageView) -> Seq<u8> {
    body_parts(v.session, v.data, v.mac)
}

/// Tag, big-endian length of the body, then the body.
pub open spec fn frame(tag: u8, body: Seq<u8>) -> Seq<u8> {
    seq![tag, (body.len() / 256) as u8, (body.len() % 256) as u8] + body
}

/// The wire form of a command message.
pub open spec fn wire(v: MessageView) -> Seq<u8> {
    frame(code_byte(v.code), body(v))
}

/// Whether `b` is a well-formed command message.
pub open spec fn parses(b: Seq<u8>) -> bool {
    &&& b.len() >= 3
    &&& code_of_byte(b[0]).is_some()
    &&& be_u16(b[1], b[2]) + 3 == b.len()
    &&& is_session_scoped(code_of_byte(b[0]).unwrap()) ==> {
        &&& b.len() >= 4 + MAC_SIZE
        &&& b[3] < MAX_SESSIONS
    }
    &&& parsed(b).data.len() <= MAX_MSG_SIZE
}

/// A message within the limits of the format: its payload fits
/// `MAX_MSG_SIZE`, its session id names a slot, and its MAC has its width.
pub open spec fn view_wf(v: MessageView) -> bool {
    &&& v.data.len() <= MAX_MSG_SIZE
    &&& v.session matches Some(s) ==> s < MAX_SESSIONS
    &&& v.mac matches Some(m) ==> m.len() == MAC_SIZE
}

/// The message that well-formed bytes `b` hold.
pub open spec fn parsed(b: Seq<u8>) -> MessageView {
    let code = code_of_byte(b[0]).unwrap();
    if is_session_scoped(code) {
        MessageView {
            code,
            session: Some(b[3]),
            data: b.subrange(4, b.len() - MAC_SIZE),
            mac: Some(b.subrange(b.len() - MAC_SIZE, b.len() as int)),
        }
    } else {
        MessageView { code, session: None, data: b.subrange(3, b.len() as int), mac: None }
    }
}

/// A command sent from the host to the device, authenticated with the
/// session's MAC chain or not.
#[derive(Debug)]
pub struct CommandMessage {
    /// Identifies this message in diagnostics; never sent.
    pub uuid: uuid::Uuid,
    /// The operation to invoke.
    pub command_type: CommandCode,
    /// The session the command belongs to, for session-scoped commands.
    pub session_id: Option<SessionId>,
    /// The command's payload.
    pub data: Vec<u8>,
    /// The command's MAC, for session-scoped commands.
    pub mac: Option<Mac>,
}

impl View for CommandMessage {
    type V = MessageView;

    open spec fn view(&self) -> MessageView {
        MessageView {
            code: self.command_type,
            session: match self.session_id {
                Some(s) => Some(s@),
                None => None,
            },
            data: self.data@,
            mac: match self.mac {
                Some(m) => Some(m@),
                None => None,
            },
        }
    }
}

impl CommandMessage {
    /// Whether this message is within the limits of the format.
    pub open spec fn wf(&self) -> bool {
        view_wf(self@)
    }

    /// Create a new command message without a session id or MAC; a payload
    /// over `MAX_MSG_SIZE` is a protocol error.
    pub fn create(command_type: CommandCode, command_data: Vec<u8>) -> (r: Result<
        CommandMessage,
        ClientError,
    >)
        ensures
            command_data@.len() <= MAX_MSG_SIZE <==> r is Ok,
            command_data@.len() > MAX_MSG_SIZE ==> r == Err::<CommandMessage, ClientError>(
                ClientError::ProtocolError,
            ),
            r matches Ok(m) ==> m@ == (MessageView {
                code: command_type,
                session: None,
                data: command_data@,
                mac: None,
            }) && m.wf(),
    {
        if command_data.len() > MAX_MSG_SIZE {
            return Err(ClientError::ProtocolError);
        }
        Ok(CommandMessage {
            uuid: uuid::Uuid::new_v4(),
            command_type,
            session_id: None,
            data: command_data,
            mac: None,
        })
    }

    /// Create a new command message with a session id and a MAC; a payload
    /// over `MAX_MSG_SIZE` is a protocol error.
    pub fn new_with_mac(
        command_type: CommandCode,
        session_id: SessionId,
        command_data: Vec<u8>,
        mac: Mac,
    ) -> (r: Result<CommandMessage, ClientError>)
        ensures
            command_data@.len() <= MAX_MSG_SIZE <==> r is Ok,
            command_data@.len() > MAX_MSG_SIZE ==> r == Err::<CommandMessage, ClientError>(
                ClientError::ProtocolError,
            ),
            r matches Ok(m) ==> m@ == (MessageView {
                code: command_type,
                session: Some(session_id@),
                data: command_data@,
                mac: Some(mac@),
            }) && m.wf(),
    {
        if command_data.len() > MAX_MSG_SIZE {
            return Err(ClientError::ProtocolError);
        }
        // Learns the MAC's width from its invariant.
        let _ = mac.as_slice();
        let _ = session_id.to_u8();
        Ok(CommandMessage {
            uuid: uuid::Uuid::new_v4(),
            command_type,
            session_id: Some(session_id),
            data: command_data,
            mac: Some(mac),
        })
    }

    /// Parse a command message from its wire form. Fails with a protocol
    /// error on fewer than 3 bytes, a length field that does not count the
    /// rest, an unknown tag, or a session-scoped tag without a valid session
    /// id and a full MAC.
    pub fn parse(bytes: Vec<u8>) -> (r: Result<CommandMessage, ClientError>)
        ensures
            parses(bytes@) <==> r is Ok,
            !parses(bytes@) ==> r == Err::<CommandMessage, ClientError>(
                ClientError::ProtocolError,
            ),
            r matches Ok(m) ==> m@ == parsed(bytes@) && m.wf(),
    {
        if bytes.len() < 3 {
            return Err(ClientError::ProtocolError);
        }
        let command_type = match CommandCode::from_u8(bytes[0]) {
            Ok(c) => c,
            Err(e) => return Err(e),
        };
        let length = read_be_u16(vstd::slice::slice_subrange(bytes.as_slice(), 1, 3)) as usize;
        let n = bytes.len();
        if length + 3 != n {
            return Err(ClientError::ProtocolError);
        }
        if session_scoped(command_type) {
            if n < 4 {
                return Err(ClientError::ProtocolError);
            }
            let id = match SessionId::from_u8(bytes[3]) {
                Ok(id) => id,
                Err(e) => return Err(e),
            };
            if n - 4 < MAC_SIZE {
                return Err(ClientError::ProtocolError);
            }
            let mac_index = n - MAC_SIZE;
            if mac_index - 4 > MAX_MSG_SIZE {
                return Err(ClientError::ProtocolError);
            }
            let data = copy_range(bytes.as_slice(), 4, mac_index);
            let mac = Mac::from_slice(vstd::slice::slice_subrange(bytes.as_slice(), mac_index, n));
            // Learns the MAC's width from its invariant.
            let _ = mac.as_slice();
            Ok(CommandMessage {
                uuid: uuid::Uuid::new_v4(),
                command_type,
                session_id: Some(id),
                data,
                mac: Some(mac),
            })
        } else {
            if n - 3 > MAX_MSG_SIZE {
                return Err(ClientError::ProtocolError);
            }
            let data = copy_range(bytes.as_slice(), 3, n);
            Ok(CommandMessage {
                uuid: uuid::Uuid::new_v4(),
                command_type,
                session_id: None,
                data,
                mac: None,
            })
        }
    }

    /// The count the length field must encode: session id if present,
    /// payload, and MAC if present.
    pub fn len(&self) -> (r: usize)
        requires
            self.wf(),
        ensures
            r == body_len(self@),
    {
        let mut result = self.data.len();
        if self.session_id.is_some() {
            result += 1;
        }
        if self.mac.is_some() {
            result += MAC_SIZE;
        }
        result
    }

    /// The wire form of this message, consuming it: tag, big-endian length
    /// of the rest, session id if present, payload, MAC if present.
    pub fn serialize(self) -> (r: Vec<u8>)
        requires
            self.wf(),
        ensures
            r@ == wire(self@),
    {
        let length = self.len();
        let mut result: Vec<u8> = Vec::with_capacity(3 + length);
        result.push(self.command_type.to_u8());
        push_be_u16(&mut result, length as u16);
        if let Some(session_id) = &self.session_id {
            result.push(session_id.to_u8());
        }
        push_all(&mut result, self.data.as_slice());
        if let Some(mac) = &self.mac {
            push_all(&mut result, mac.as_slice());
        }
        proof {
            lemma_body_len(self@);
            assert(result@ =~= wire(self@));
        }
        result
    }
}

/// The body is as long as the length field says, once the MAC has its width.
pub proof fn lemma_body_len(v: MessageView)
    requires
        v.mac matches Some(m) ==> m.len() == MAC_SIZE,
    ensures
        body(v).len() == body_len(v),
{
}

/// A big-endian pair of bytes made from a 16-bit count reads back as that count.
pub proof fn lemma_be_u16(n: nat)
    requires
        n <= u16::MAX,
    ensures
        be_u16((n / 256) as u8, (n % 256) as u8) == n,
{
    assert(n / 256 < 256 && (n / 256) * 256 + n % 256 == n) by (nonlinear_arith)
        requires n <= 65535;
}

/// The length field of a serialized message holds the message's `len`.
pub proof fn lemma_length_field(v: MessageView)
    requires
        view_wf(v),
    ensures
        wire(v).len() == 3 + body_len(v),
        be_u16(wire(v)[1], wire(v)[2]) == body_len(v),
{
    lemma_body_len(v);
    lemma_be_u16(body_len(v));
}

/// Parsing the wire form of a message gives back its tag, session id,
/// payload and MAC, for every payload within `MAX_MSG_SIZE` whose session
/// id and MAC are present exactly when its tag is session-scoped.
pub proof fn lemma_round_trip(v: MessageView)
    requires
        view_wf(v),
        v.session.is_some() == is_session_scoped(v.code),
        v.mac.is_some() == v.session.is_some(),
    ensures
        parses(wire(v)),
        parsed(wire(v)) == v,
{
    let b = wire(v);
    lemma_length_field(v);
    crate::code::lemma_code_byte_round_trip(v.code);
    if is_session_scoped(v.code) {
        let m = v.mac.unwrap();
        assert(b.subrange(4, b.len() - MAC_SIZE) =~= v.data);
        assert(b.subrange(b.len() - MAC_SIZE, b.len() as int) =~= m);
    } else {
        assert(b.subrange(3, b.len() as int) =~= v.data);
    }
}


/// Fewer than 3 bytes, or a length field that does not count exactly the
/// bytes after it, never parse.
pub proof fn lemma_parse_rejects_bad_framing(b: Seq<u8>)
    requires
        b.len() < 3 || be_u16(b[1], b[2]) + 3 != b.len(),
    ensures
        !parses(b),
{
}

/// A session-scoped tag needs a session id and a full MAC after the header:
/// with fewer bytes parsing fails; with enough, and a valid session id, it
/// succeeds, when the payload fits `MAX_MSG_SIZE`, and the MAC is the last
/// `MAC_SIZE` bytes.
pub proof fn lemma_session_scoped_split(b: Seq<u8>)
    requires
        b.len() >= 3,
        code_of_byte(b[0]) matches Some(c) && is_session_scoped(c),
        be_u16(b[1], b[2]) + 3 == b.len(),
    ensures
        b.len() - 3 < 1 + MAC_SIZE ==> !parses(b),
        (b.len() - 3 >= 1 + MAC_SIZE && b[3] < MAX_SESSIONS && b.len() - 4 - MAC_SIZE
            <= MAX_MSG_SIZE) ==> {
            &&& parses(b)
            &&& parsed(b).session == Some(b[3])
            &&& parsed(b).data == b.subrange(4, b.len() - MAC_SIZE)
            &&& parsed(b).mac == Some(b.subrange(b.len() - MAC_SIZE, b.len() as int))
            &&& b.subrange(3, b.len() as int) == seq![b[3]] + parsed(b).data + parsed(b).mac.unwrap()
        },
{
    if b.len() - 3 >= 1 + MAC_SIZE && b[3] < MAX_SESSIONS {
        assert(b.subrange(3, b.len() as int) =~= seq![b[3]] + b.subrange(4, b.len() - MAC_SIZE)
            + b.subrange(b.len() - MAC_SIZE, b.len() as int));
    }
}

} // verus!
