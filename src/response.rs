use crate::bytes::{copy_range, push_all};
use crate::code::{code_byte, CommandCode};
use crate::error::ClientError;
use crate::message::{body_parts, frame, is_session_scoped, session_scoped, MAX_MSG_SIZE};
use crate::session::{Mac, SessionId, MAC_SIZE, MAX_SESSIONS};
use crate::wire::{be_u16, push_be_u16, read_be_u16};
use vstd::prelude::*;

verus! {

/// Tag of a reply in which the device refuses a command.
pub const DEVICE_ERROR_TAG: u8 = 0xff;

/// Added to a command's code to give the tag of its successful reply.
pub const RESPONSE_FLAG: u8 = 0x80;

/// What a reply says of the command it answers.
#[derive(Clone, Copy, Debug, PartialEq, Eq, Structural)]
pub enum ResponseCode {
    /// The command of this code succeeded.
    Success(CommandCode),
    /// The device refused the command; the payload holds its error code.
    DeviceError,
}

/// The tag of a successful reply to a command of code `c`.
pub open spec fn success_tag(c: CommandCode) -> u8 {
    (code_byte(c) + RESPONSE_FLAG) as u8
}

/// The wire tag of a response code.
pub open spec fn response_tag(c: ResponseCode) -> u8 {
    match c {
        ResponseCode::Success(cc) => success_tag(cc),
        ResponseCode::DeviceError => DEVICE_ERROR_TAG,
    }
}

/// Every command code lies below the response flag.
pub proof fn lemma_code_below_flag(c: CommandCode)
    ensures
        code_byte(c) < RESPONSE_FLAG,
{
}

/// What a response message holds, as values.
pub struct ResponseView {
    pub code: ResponseCode,
    pub session: Option<u8>,
    pub data: Seq<u8>,
    pub mac: Option<Seq<u8>>,
}

/// The wire form of a response message.
pub open spec fn response_wire(v: ResponseView) -> Seq<u8> {
    frame(response_tag(v.code), body_parts(v.session, v.data, v.mac))
}

/// Whether `b` is a well-formed reply to a command of code `expected`: framed
/// like a command, tagged either as that command's success or as a device
/// error, and, for a session-scoped success, holding a valid session id and a
/// full MAC.
pub open spec fn response_parses(b: Seq<u8>, expected: CommandCode) -> bool {
    &&& b.len() >= 3
    &&& be_u16(b[1], b[2]) + 3 == b.len()
    &&& b[0] == DEVICE_ERROR_TAG || b[0] == success_tag(expected)
    &&& (b[0] != DEVICE_ERROR_TAG && is_session_scoped(expected)) ==> {
        &&& b.len() >= 4 + MAC_SIZE
        &&& b[3] < MAX_SESSIONS
    }
    &&& response_parsed(b, expected).data.len() <= MAX_MSG_SIZE
}

/// The reply that well-formed bytes `b` hold.
pub open spec fn response_parsed(b: Seq<u8>, expected: CommandCode) -> ResponseView {
    if b[0] == DEVICE_ERROR_TAG {
        ResponseView {
            code: ResponseCode::DeviceError,
            session: None,
            data: b.subrange(3, b.len() as int),
            mac: None,
        }
    } else if is_session_scoped(expected) {
        ResponseView {
            code: ResponseCode::Success(expected),
            session: Some(b[3]),
            data: b.subrange(4, b.len() - MAC_SIZE),
            mac: Some(b.subrange(b.len() - MAC_SIZE, b.len() as int)),
        }
    } else {
        ResponseView {
            code: ResponseCode::Success(expected),
            session: None,
            data: b.subrange(3, b.len() as int),
            mac: None,
        }
    }
}

/// A reply from the device to the host.
#[derive(Debug)]
pub struct ResponseMessage {
    /// Success of a given command, or a device error.
    pub code: ResponseCode,
    /// The session the reply belongs to, for replies to session-scoped commands.
    pub session_id: Option<SessionId>,
    /// The reply's payload.
    pub data: Vec<u8>,
    /// The reply's MAC, for replies to session-scoped commands.
    pub mac: Option<Mac>,
}

impl View for ResponseMessage {
    type V = ResponseView;

    open spec fn view(&self) -> ResponseView {
        ResponseView {
            code: self.code,
            session: match self.session_id {
                Some(s) => Some(s@),
                None => None,
            },
            data: self.data@,
            mac: match self.mac {
                Some(m) => Some(m@),
                None => None,
            },
        }
    }
}

impl ResponseCode {
    /// The tag this code is sent as.
    pub fn to_u8(self) -> (r: u8)
        ensures
            r == response_tag(self),
    {
        match self {
            ResponseCode::Success(c) => {
                proof {
                    lemma_code_below_flag(c);
                }
                c.to_u8() + RESPONSE_FLAG
            },
            ResponseCode::DeviceError => DEVICE_ERROR_TAG,
        }
    }
}

impl ResponseMessage {
    /// The MAC, where present, has its fixed width.
    pub open spec fn mac_sized(&self) -> bool {
        self.mac matches Some(m) ==> m@.len() == MAC_SIZE
    }

    /// A reply without a session id or MAC; a payload over `MAX_MSG_SIZE` is
    /// a protocol error.
    pub fn create(code: ResponseCode, data: Vec<u8>) -> (r: Result<ResponseMessage, ClientError>)
        ensures
            data@.len() <= MAX_MSG_SIZE <==> r is Ok,
            data@.len() > MAX_MSG_SIZE ==> r == Err::<ResponseMessage, ClientError>(
                ClientError::ProtocolError,
            ),
            r matches Ok(m) ==> m@ == (ResponseView { code, session: None, data: data@, mac: None }),
    {
        if data.len() > MAX_MSG_SIZE {
            return Err(ClientError::ProtocolError);
        }
        Ok(ResponseMessage { code, session_id: None, data, mac: None })
    }

    /// A reply with a session id and a MAC; a payload over `MAX_MSG_SIZE` is
    /// a protocol error.
    pub fn new_with_mac(
        code: ResponseCode,
        session_id: SessionId,
        data: Vec<u8>,
        mac: Mac,
    ) -> (r: Result<ResponseMessage, ClientError>)
        ensures
            data@.len() <= MAX_MSG_SIZE <==> r is Ok,
            data@.len() > MAX_MSG_SIZE ==> r == Err::<ResponseMessage, ClientError>(
                ClientError::ProtocolError,
            ),
            r matches Ok(m) ==> m@ == (ResponseView {
                code,
                session: Some(session_id@),
                data: data@,
                mac: Some(mac@),
            }),
    {
        if data.len() > MAX_MSG_SIZE {
            return Err(ClientError::ProtocolError);
        }
        Ok(ResponseMessage { code, session_id: Some(session_id), data, mac: Some(mac) })
    }

    /// Parse the reply to a command of code `expected`. Fails with a protocol
    /// error on fewer than 3 bytes, a length field that does not count the
    /// rest, a tag that is neither `expected`'s success nor a device error,
    /// or a session-scoped success without a valid session id and a full MAC.
    pub fn parse(bytes: Vec<u8>, expected: CommandCode) -> (r: Result<ResponseMessage, ClientError>)
        ensures
            response_parses(bytes@, expected) <==> r is Ok,
            !response_parses(bytes@, expected) ==> r == Err::<ResponseMessage, ClientError>(
                ClientError::ProtocolError,
            ),
            r matches Ok(m) ==> m@ == response_parsed(bytes@, expected) && m.mac_sized(),
    {
        if bytes.len() < 3 {
            return Err(ClientError::ProtocolError);
        }
        let length = read_be_u16(vstd::slice::slice_subrange(bytes.as_slice(), 1, 3)) as usize;
        let n = bytes.len();
        if length + 3 != n {
            return Err(ClientError::ProtocolError);
        }
        let tag = bytes[0];
        if tag == DEVICE_ERROR_TAG {
            if n - 3 > MAX_MSG_SIZE {
                return Err(ClientError::ProtocolError);
            }
            return Ok(ResponseMessage {
                code: ResponseCode::DeviceError,
                session_id: None,
                data: copy_range(bytes.as_slice(), 3, n),
                mac: None,
            });
        }
        if tag != ResponseCode::Success(expected).to_u8() {
            return Err(ClientError::ProtocolError);
        }
        if session_scoped(expected) {
            if n < 4 {
                return Err(ClientError::ProtocolError);
            }
            let id = match SessionId::from_u8(bytes[3]) {
                Ok(id) => id,
                Err(e) => return Err(e),
            };
            if n - 4 < MAC_SIZE {
                return Err(ClientError::ProtocolError);
            }
            let mac_index = n - MAC_SIZE;
            if mac_index - 4 > MAX_MSG_SIZE {
                return Err(ClientError::ProtocolError);
            }
            let data = copy_range(bytes.as_slice(), 4, mac_index);
            let mac = Mac::from_slice(vstd::slice::slice_subrange(bytes.as_slice(), mac_index, n));
            // Learns the MAC's width from its invariant.
            let _ = mac.as_slice();
            Ok(ResponseMessage {
                code: ResponseCode::Success(expected),
                session_id: Some(id),
                data,
                mac: Some(mac),
            })
        } else {
            if n - 3 > MAX_MSG_SIZE {
                return Err(ClientError::ProtocolError);
            }
            Ok(ResponseMessage {
                code: ResponseCode::Success(expected),
                session_id: None,
                data: copy_range(bytes.as_slice(), 3, n),
                mac: None,
            })
        }
    }

    /// The count the length field must encode: session id if present,
    /// payload, and MAC if present.
    pub fn len(&self) -> (r: usize)
        requires
            self.data@.len() + 1 + MAC_SIZE <= usize::MAX,
        ensures
            r == body_parts(self@.session, self@.data, self@.mac).len(),
            r <= self.data@.len() + 1 + MAC_SIZE,
    {
        if let Some(m) = &self.mac {
            // Learns the MAC's width from its invariant.
            let _ = m.as_slice();
        }
        let mut result = self.data.len();
        if self.session_id.is_some() {
            result += 1;
        }
        if self.mac.is_some() {
            result += MAC_SIZE;
        }
        result
    }

    /// The wire form of this reply, consuming it.
    pub fn serialize(self) -> (r: Vec<u8>)
        requires
            self.data@.len() + 1 + MAC_SIZE <= u16::MAX,
        ensures
            r@ == response_wire(self@),
    {
        let length = self.len();
        let mut result: Vec<u8> = Vec::with_capacity(3 + length);
        result.push(self.code.to_u8());
        push_be_u16(&mut result, length as u16);
        if let Some(session_id) = &self.session_id {
            result.push(session_id.to_u8());
        }
        push_all(&mut result, self.data.as_slice());
        if let Some(mac) = &self.mac {
            push_all(&mut result, mac.as_slice());
        }
        assert(result@ =~= response_wire(self@));
        result
    }
}

} // verus!
