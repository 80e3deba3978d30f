use crate::bytes::{copy_range, push_all};
use crate::code::{code_byte, CommandCode};
use crate::wire::push_be_u16;
use crate::error::ClientError;
use crate::message::{is_session_scoped, session_scoped, wire, CommandMessage, MessageView, MAX_MSG_SIZE};
use crate::response::{
    response_parsed, response_parses, success_tag, ResponseCode, ResponseMessage, DEVICE_ERROR_TAG,
};
use crate::session::{Mac, SessionId, MAC_SIZE};
use vstd::prelude::*;

verus! {

/// Where a session stands in its life.
#[derive(Clone, Copy, Debug, PartialEq, Eq, Structural)]
pub enum SessionState {
    /// Created, not yet authenticated.
    Unauthenticated,
    /// Authentication sent, its reply not yet checked.
    Authenticating,
    /// Authenticated; the MAC chain advances with each exchange.
    Authenticated,
    /// Closed for good, by request or after a failure.
    Closed,
}

/// What a session holds, as values.
pub struct SessionView {
    pub id: u8,
    pub state: SessionState,
    pub chain: Seq<u8>,
    pub exchanges: Seq<(Seq<u8>, Seq<u8>)>,
}

/// The same session, closed.
pub open spec fn closed(s: SessionView) -> SessionView {
    SessionView { state: SessionState::Closed, ..s }
}

/// The state after a successful reply to a command of code `c`.
pub open spec fn state_after(st: SessionState, c: CommandCode) -> SessionState {
    if c == CommandCode::AuthenticateSession {
        SessionState::Authenticated
    } else if c == CommandCode::CloseSession {
        SessionState::Closed
    } else {
        st
    }
}

/// Whether the exchange of a command of code `c` on session `s` is
/// authenticated: a session-scoped command always is, and so is every
/// command on an authenticated session.
pub open spec fn is_authenticated_exchange(s: SessionView, c: CommandCode) -> bool {
    is_session_scoped(c) || s.state == SessionState::Authenticated
}

/// Whether a command of code `c` travels inside a session message on `s`.
pub open spec fn is_wrapped(s: SessionView, c: CommandCode) -> bool {
    !is_session_scoped(c) && s.state == SessionState::Authenticated
}

/// The code of the frame a command of code `c` is sent in on `s`.
pub open spec fn outer_code(s: SessionView, c: CommandCode) -> CommandCode {
    if is_wrapped(s, c) {
        CommandCode::SessionMessage
    } else {
        c
    }
}

/// The payload of that frame: the command's own wire form when it is
/// wrapped, else its payload.
pub open spec fn outer_data(s: SessionView, c: CommandCode, data: Seq<u8>) -> Seq<u8> {
    if is_wrapped(s, c) {
        wire(MessageView { code: c, session: None, data, mac: None })
    } else {
        data
    }
}

/// Whether a command can be sent with a MAC on `s`: its exchange is
/// authenticated, and it and its frame's payload fit `MAX_MSG_SIZE`.
pub open spec fn takes_mac(s: SessionView, c: CommandCode, data: Seq<u8>) -> bool {
    &&& is_authenticated_exchange(s, c)
    &&& data.len() <= MAX_MSG_SIZE
    &&& outer_data(s, c, data).len() <= MAX_MSG_SIZE
}

/// The bytes that the MAC of such a command covers: its frame up to the MAC.
pub open spec fn mac_covered(s: SessionView, c: CommandCode, data: Seq<u8>) -> Seq<u8> {
    let d = outer_data(s, c, data);
    let n = 1 + d.len() + MAC_SIZE;
    seq![code_byte(outer_code(s, c)), (n / 256) as u8, (n % 256) as u8, s.id] + d
}

/// The wire bytes of a command to send on session `s`, or why none is sent.
pub open spec fn outbound_result(
    s: SessionView,
    code: CommandCode,
    data: Seq<u8>,
    mac: Option<Seq<u8>>,
) -> Result<Seq<u8>, ClientError> {
    if s.state == SessionState::Closed {
        Err(ClientError::SessionClosed)
    } else if data.len() > MAX_MSG_SIZE || outer_data(s, code, data).len() > MAX_MSG_SIZE {
        Err(ClientError::ProtocolError)
    } else if is_authenticated_exchange(s, code) {
        if mac.is_none() || (code == CommandCode::AuthenticateSession && s.state
            != SessionState::Unauthenticated) || (code == CommandCode::SessionMessage && s.state
            != SessionState::Authenticated) {
            Err(ClientError::ProtocolError)
        } else {
            Ok(
                wire(
                    MessageView {
                        code: outer_code(s, code),
                        session: Some(s.id),
                        data: outer_data(s, code, data),
                        mac,
                    },
                ),
            )
        }
    } else if mac.is_some() {
        Err(ClientError::ProtocolError)
    } else {
        Ok(wire(MessageView { code, session: None, data, mac: None }))
    }
}

/// The state of session `s` after `outbound_result` was computed.
pub open spec fn outbound_state(s: SessionView, r: Result<Seq<u8>, ClientError>, code: CommandCode) -> SessionView {
    if r is Ok && code == CommandCode::AuthenticateSession {
        SessionView { state: SessionState::Authenticating, ..s }
    } else {
        s
    }
}

/// What a reply `b` to a command of code `expected` says once its framing
/// and tag are checked: its payload, the device's error code, or a
/// protocol error.
pub open spec fn reply_result(b: Seq<u8>, expected: CommandCode) -> Result<Seq<u8>, ClientError> {
    if !response_parses(b, expected) {
        Err(ClientError::ProtocolError)
    } else {
        let v = response_parsed(b, expected);
        if v.code == ResponseCode::DeviceError {
            if v.data.len() >= 1 {
                Err(ClientError::DeviceError(v.data[0]))
            } else {
                Err(ClientError::ProtocolError)
            }
        } else {
            Ok(v.data)
        }
    }
}

/// Session `s` after it accepted the authenticated exchange of `sent` and
/// `received`: the chain moves to `next_chain` and the exchange is recorded.
pub open spec fn advanced(s: SessionView, sent: Seq<u8>, received: Seq<u8>, next_chain: Seq<u8>) -> SessionView {
    SessionView { chain: next_chain, exchanges: s.exchanges.push((sent, received)), ..s }
}

/// The session and the result after the reply `reply` (`None` when the
/// transport failed) to the command `sent` of code `expected`. `expected_mac`
/// is the MAC the session's chain gives for the reply, and `next_chain` the
/// chain value after this exchange.
pub open spec fn inbound_outcome(
    s: SessionView,
    expected: CommandCode,
    sent: Seq<u8>,
    reply: Option<Seq<u8>>,
    expected_mac: Option<Seq<u8>>,
    next_chain: Seq<u8>,
) -> (SessionView, Result<Seq<u8>, ClientError>) {
    if s.state == SessionState::Closed {
        (s, Err(ClientError::SessionClosed))
    } else {
        match reply {
            None => (closed(s), Err(ClientError::ConnectionError)),
            Some(b) => match reply_result(b, outer_code(s, expected)) {
                Err(ClientError::DeviceError(code)) => (s, Err(ClientError::DeviceError(code))),
                Err(_) => (closed(s), Err(ClientError::ProtocolError)),
                Ok(payload) => if !is_authenticated_exchange(s, expected) {
                    (SessionView { state: state_after(s.state, expected), ..s }, Ok(payload))
                } else {
                    let v = response_parsed(b, outer_code(s, expected));
                    let adv = advanced(s, sent, b, next_chain);
                    if v.session != Some(s.id) || expected_mac.is_none() || v.mac != expected_mac {
                        (closed(s), Err(ClientError::ProtocolError))
                    } else if !is_wrapped(s, expected) {
                        (SessionView { state: state_after(s.state, expected), ..adv }, Ok(payload))
                    } else {
                        match reply_result(payload, expected) {
                            Ok(inner) => (
                                SessionView { state: state_after(s.state, expected), ..adv },
                                Ok(inner),
                            ),
                            Err(ClientError::DeviceError(code)) => (
                                adv,
                                Err(ClientError::DeviceError(code)),
                            ),
                            Err(_) => (closed(s), Err(ClientError::ProtocolError)),
                        }
                    }
                },
            },
        }
    }
}

/// A result with its payload as a sequence.
pub open spec fn result_view(r: Result<Vec<u8>, ClientError>) -> Result<Seq<u8>, ClientError> {
    match r {
        Ok(v) => Ok(v@),
        Err(e) => Err(e),
    }
}

/// A MAC, if present, as a sequence.
pub open spec fn mac_view(m: Option<Mac>) -> Option<Seq<u8>> {
    match m {
        Some(m) => Some(m@),
        None => None,
    }
}

/// An open session with the device: its id, state, current MAC chain value,
/// and the authenticated exchanges that chain has absorbed, in order.
pub struct Session {
    id: SessionId,
    state: SessionState,
    chain: Mac,
    exchanges: Ghost<Seq<(Seq<u8>, Seq<u8>)>>,
}

impl View for Session {
    type V = SessionView;

    closed spec fn view(&self) -> SessionView {
        SessionView {
            id: self.id@,
            state: self.state,
            chain: self.chain@,
            exchanges: self.exchanges@,
        }
    }
}

impl Session {
    /// A new, unauthenticated session in slot `id`, whose MAC chain starts at `chain`.
    pub fn new(id: SessionId, chain: Mac) -> (r: Session)
        ensures
            r@ == (SessionView {
                id: id@,
                state: SessionState::Unauthenticated,
                chain: chain@,
                exchanges: Seq::empty(),
            }),
    {
        Session { id, state: SessionState::Unauthenticated, chain, exchanges: Ghost(Seq::empty()) }
    }

    /// The session's slot.
    pub fn id(&self) -> (r: SessionId)
        ensures
            r@ == self@.id,
    {
        self.id
    }

    /// Where the session stands.
    pub fn state(&self) -> (r: SessionState)
        ensures
            r == self@.state,
    {
        self.state
    }

    /// The current MAC chain value.
    pub fn chain(&self) -> (r: &Mac)
        ensures
            r@ == self@.chain,
    {
        &self.chain
    }

    /// Closes the session for good.
    pub fn close(&mut self)
        ensures
            final(self)@ == closed(old(self)@),
    {
        self.state = SessionState::Closed;
    }

    /// Builds and serializes a command of code `code` with payload `data` for
    /// this session. An authenticated exchange needs `mac`, computed by the
    /// caller from the chain over `mac_input`; any other takes none. On an
    /// authenticated session a command that is not session-scoped is sent
    /// inside a session message. Fails without effect when the session is
    /// closed, the payload is too long, or the MAC or the session's state
    /// does not fit the command; authentication marks the session as
    /// authenticating.
    pub fn outbound(&mut self, code: CommandCode, data: Vec<u8>, mac: Option<Mac>) -> (r: Result<
        Vec<u8>,
        ClientError,
    >)
        ensures
            result_view(r) == outbound_result(old(self)@, code, data@, mac_view(mac)),
            final(self)@ == outbound_state(old(self)@, result_view(r), code),
    {
        if self.state == SessionState::Closed {
            return Err(ClientError::SessionClosed);
        }
        if data.len() > MAX_MSG_SIZE {
            return Err(ClientError::ProtocolError);
        }
        let scoped = session_scoped(code);
        let wrapped = !scoped && self.state == SessionState::Authenticated;
        if wrapped && data.len() + 3 > MAX_MSG_SIZE {
            return Err(ClientError::ProtocolError);
        }
        if scoped || wrapped {
            let wrong_state = (code == CommandCode::AuthenticateSession && self.state
                != SessionState::Unauthenticated) || (code == CommandCode::SessionMessage
                && self.state != SessionState::Authenticated);
            match mac {
                None => Err(ClientError::ProtocolError),
                Some(m) => {
                    if wrong_state {
                        return Err(ClientError::ProtocolError);
                    }
                    let (outer, payload) = if wrapped {
                        let inner = match CommandMessage::create(code, data) {
                            Ok(msg) => msg,
                            Err(e) => return Err(e),
                        };
                        (CommandCode::SessionMessage, inner.serialize())
                    } else {
                        (code, data)
                    };
                    let msg = match CommandMessage::new_with_mac(outer, self.id, payload, m) {
                        Ok(msg) => msg,
                        Err(e) => return Err(e),
                    };
                    let bytes = msg.serialize();
                    if code == CommandCode::AuthenticateSession {
                        self.state = SessionState::Authenticating;
                    }
                    Ok(bytes)
                },
            }
        } else if mac.is_some() {
            Err(ClientError::ProtocolError)
        } else {
            let msg = match CommandMessage::create(code, data) {
                Ok(msg) => msg,
                Err(e) => return Err(e),
            };
            Ok(msg.serialize())
        }
    }

    /// Checks the reply to the command `sent` of code `expected` and returns
    /// its payload. `reply` is `None` when the transport failed; `expected_mac`
    /// is the MAC the chain gives for the reply and `next_chain` the chain
    /// value after this exchange, both computed by the caller. On an
    /// authenticated exchange the reply's session id and MAC are checked and,
    /// for a wrapped command, the reply inside it; an accepted reply advances
    /// the chain once. A device error leaves the session open; a transport
    /// failure, a malformed or mismatched reply, or a wrong session id or MAC
    /// closes it without advancing the chain.
    pub fn inbound(
        &mut self,
        expected: CommandCode,
        sent: &[u8],
        reply: Option<Vec<u8>>,
        expected_mac: Option<Mac>,
        next_chain: Mac,
    ) -> (r: Result<Vec<u8>, ClientError>)
        ensures
            (final(self)@, result_view(r)) == inbound_outcome(
                old(self)@,
                expected,
                sent@,
                match reply {
                    Some(b) => Some(b@),
                    None => None,
                },
                mac_view(expected_mac),
                next_chain@,
            ),
    {
        if self.state == SessionState::Closed {
            return Err(ClientError::SessionClosed);
        }
        let bytes = match reply {
            None => {
                self.state = SessionState::Closed;
                return Err(ClientError::ConnectionError);
            },
            Some(b) => b,
        };
        let ghost received = bytes@;
        let scoped = session_scoped(expected);
        let wrapped = !scoped && self.state == SessionState::Authenticated;
        let outer = if wrapped {
            CommandCode::SessionMessage
        } else {
            expected
        };
        let new_state = next_state(self.state, expected);
        let response = match read_reply(bytes, outer) {
            Ok(m) => m,
            Err(ClientError::DeviceError(c)) => return Err(ClientError::DeviceError(c)),
            Err(_) => {
                self.state = SessionState::Closed;
                return Err(ClientError::ProtocolError);
            },
        };
        if !scoped && !wrapped {
            self.state = new_state;
            return Ok(response.data);
        }
        let id_ok = match &response.session_id {
            Some(id) => id.to_u8() == self.id.to_u8(),
            None => false,
        };
        let mac_ok = match (&response.mac, &expected_mac) {
            (Some(got), Some(want)) => got.matches(want),
            _ => false,
        };
        if !id_ok || !mac_ok {
            self.state = SessionState::Closed;
            return Err(ClientError::ProtocolError);
        }
        let payload = if wrapped {
            match read_reply(response.data, expected) {
                Ok(m) => m.data,
                Err(ClientError::DeviceError(c)) => {
                    self.chain = next_chain;
                    self.exchanges = Ghost(self.exchanges@.push((sent@, received)));
                    return Err(ClientError::DeviceError(c));
                },
                Err(_) => {
                    self.state = SessionState::Closed;
                    return Err(ClientError::ProtocolError);
                },
            }
        } else {
            response.data
        };
        self.chain = next_chain;
        self.exchanges = Ghost(self.exchanges@.push((sent@, received)));
        self.state = new_state;
        Ok(payload)
    }

    /// The bytes that the MAC of a command of code `code` with payload
    /// `data` covers on this session: its whole frame but the MAC. `None`
    /// when the command takes no MAC here, or is too long to be sent.
    pub fn mac_input(&self, code: CommandCode, data: &[u8]) -> (r: Option<Vec<u8>>)
        ensures
            r is Some <==> takes_mac(self@, code, data@),
            r matches Some(c) ==> c@ == mac_covered(self@, code, data@),
            r matches Some(c) ==> forall|m: Seq<u8>|
                m.len() == MAC_SIZE ==> #[trigger] wire(
                    MessageView {
                        code: outer_code(self@, code),
                        session: Some(self@.id),
                        data: outer_data(self@, code, data@),
                        mac: Some(m),
                    },
                ) == c@ + m,
    {
        let scoped = session_scoped(code);
        let wrapped = !scoped && self.state == SessionState::Authenticated;
        if !(scoped || wrapped) || data.len() > MAX_MSG_SIZE {
            return None;
        }
        let (outer, payload) = if wrapped {
            let inner = match CommandMessage::create(code, copy_range(data, 0, data.len())) {
                Ok(msg) => msg,
                Err(_) => return None,
            };
            (CommandCode::SessionMessage, inner.serialize())
        } else {
            (code, copy_range(data, 0, data.len()))
        };
        if payload.len() > MAX_MSG_SIZE {
            return None;
        }
        let length = (1 + payload.len() + MAC_SIZE) as u16;
        let mut out: Vec<u8> = Vec::with_capacity(4 + payload.len());
        out.push(outer.to_u8());
        push_be_u16(&mut out, length);
        out.push(self.id.to_u8());
        push_all(&mut out, payload.as_slice());
        proof {
            assert(payload@ == outer_data(self@, code, data@));
            assert(out@ =~= mac_covered(self@, code, data@));
            assert forall|m: Seq<u8>| m.len() == MAC_SIZE implies #[trigger] wire(
                MessageView {
                    code: outer_code(self@, code),
                    session: Some(self@.id),
                    data: outer_data(self@, code, data@),
                    mac: Some(m),
                },
            ) == out@ + m by {
                assert(wire(
                    MessageView {
                        code: outer_code(self@, code),
                        session: Some(self@.id),
                        data: outer_data(self@, code, data@),
                        mac: Some(m),
                    },
                ) =~= out@ + m);
            }
        }
        Some(out)
    }
}

/// The state after a successful reply to a command of code `c`.
fn next_state(st: SessionState, c: CommandCode) -> (r: SessionState)
    ensures
        r == state_after(st, c),
{
    if c == CommandCode::AuthenticateSession {
        SessionState::Authenticated
    } else if c == CommandCode::CloseSession {
        SessionState::Closed
    } else {
        st
    }
}

/// Parses the reply to a command of code `expected` and refuses a device
/// error, with the device's code.
fn read_reply(bytes: Vec<u8>, expected: CommandCode) -> (r: Result<ResponseMessage, ClientError>)
    ensures
        match reply_result(bytes@, expected) {
            Ok(p) => (r matches Ok(m) && m@ == response_parsed(bytes@, expected) && m.data@ == p
                && m.mac_sized()),
            Err(e) => r == Err::<ResponseMessage, ClientError>(e),
        },
{
    let m = match ResponseMessage::parse(bytes, expected) {
        Ok(m) => m,
        Err(e) => return Err(e),
    };
    if m.code == ResponseCode::DeviceError {
        if m.data.len() >= 1 {
            return Err(ClientError::DeviceError(m.data[0]));
        }
        return Err(ClientError::ProtocolError);
    }
    Ok(m)
}

/// The bytes of a reply that its MAC covers: all but the last `MAC_SIZE`,
/// or `None` when the reply is shorter than a MAC.
pub fn reply_mac_input(reply: &[u8]) -> (r: Option<Vec<u8>>)
    ensures
        reply@.len() < MAC_SIZE ==> r is None,
        reply@.len() >= MAC_SIZE ==> (r matches Some(v) && v@ == reply@.subrange(
            0,
            reply@.len() - MAC_SIZE,
        )),
{
    if reply.len() < MAC_SIZE {
        return None;
    }
    Some(copy_range(reply, 0, reply.len() - MAC_SIZE))
}

/// An oversized payload is refused before anything is built or sent, on
/// every open session.
pub proof fn lemma_oversized_refused(
    s: SessionView,
    code: CommandCode,
    data: Seq<u8>,
    mac: Option<Seq<u8>>,
)
    requires
        s.state != SessionState::Closed,
        data.len() > MAX_MSG_SIZE,
    ensures
        outbound_result(s, code, data, mac) == Err::<Seq<u8>, ClientError>(ClientError::ProtocolError),
        outbound_state(s, outbound_result(s, code, data, mac), code) == s,
{
}

/// For every command code, a reply whose frame is tagged neither as the
/// expected success nor as a device error is a protocol error that closes
/// the session.
pub proof fn lemma_tag_mismatch(
    s: SessionView,
    expected: CommandCode,
    sent: Seq<u8>,
    b: Seq<u8>,
    expected_mac: Option<Seq<u8>>,
    next_chain: Seq<u8>,
)
    requires
        s.state != SessionState::Closed,
        b.len() >= 1,
        b[0] != success_tag(outer_code(s, expected)),
        b[0] != DEVICE_ERROR_TAG,
    ensures
        inbound_outcome(s, expected, sent, Some(b), expected_mac, next_chain) == (
        closed(s),
        Err::<Seq<u8>, ClientError>(ClientError::ProtocolError),
        ),
{
}

/// For every command carried inside a session message, an authentic reply
/// whose inner reply is tagged neither as the command's success nor as a
/// device error is a protocol error that closes the session.
pub proof fn lemma_inner_tag_mismatch(
    s: SessionView,
    expected: CommandCode,
    sent: Seq<u8>,
    b: Seq<u8>,
    expected_mac: Option<Seq<u8>>,
    next_chain: Seq<u8>,
)
    requires
        s.state != SessionState::Closed,
        is_wrapped(s, expected),
        reply_result(b, CommandCode::SessionMessage) matches Ok(p) && p.len() >= 1 && p[0]
            != success_tag(expected) && p[0] != DEVICE_ERROR_TAG,
        response_parsed(b, CommandCode::SessionMessage).session == Some(s.id),
        expected_mac == response_parsed(b, CommandCode::SessionMessage).mac,
        expected_mac is Some,
    ensures
        inbound_outcome(s, expected, sent, Some(b), expected_mac, next_chain) == (
        closed(s),
        Err::<Seq<u8>, ClientError>(ClientError::ProtocolError),
        ),
{
}

/// Changing any byte of the MAC of an authenticated reply that would have
/// been accepted makes it a protocol error: the session closes and its
/// chain and exchanges stay as they were.
pub proof fn lemma_corrupted_mac_refused(
    s: SessionView,
    expected: CommandCode,
    sent: Seq<u8>,
    b: Seq<u8>,
    expected_mac: Option<Seq<u8>>,
    next_chain: Seq<u8>,
    i: int,
    x: u8,
)
    requires
        inbound_outcome(s, expected, sent, Some(b), expected_mac, next_chain).1 is Ok,
        is_authenticated_exchange(s, expected),
        b.len() - MAC_SIZE <= i < b.len(),
        x != b[i],
    ensures
        inbound_outcome(s, expected, sent, Some(b.update(i, x)), expected_mac, next_chain) == (
        closed(s),
        Err::<Seq<u8>, ClientError>(ClientError::ProtocolError),
        ),
{
    let c = b.update(i, x);
    let oc = outer_code(s, expected);
    assert(response_parses(b, oc));
    assert(c[0] == b[0]);
    assert(c[1] == b[1] && c[2] == b[2] && c[3] == b[3]);
    if response_parses(c, oc) {
        let v = response_parsed(b, oc);
        let w = response_parsed(c, oc);
        assert(w.mac.unwrap()[i - (b.len() - MAC_SIZE)] == x);
        assert(v.mac.unwrap()[i - (b.len() - MAC_SIZE)] == b[i]);
        assert(w.mac != v.mac);
    }
}

/// The chain's exchanges are a function of the accepted authenticated
/// exchanges in their order: a session that accepts two in turn holds what
/// a fresh session holds after the same two, and two different exchanges
/// taken in the other order leave a different history.
pub proof fn lemma_exchange_order(
    s: SessionView,
    expected1: CommandCode,
    sent1: Seq<u8>,
    reply1: Seq<u8>,
    mac1: Option<Seq<u8>>,
    chain1: Seq<u8>,
    expected2: CommandCode,
    sent2: Seq<u8>,
    reply2: Seq<u8>,
    mac2: Option<Seq<u8>>,
    chain2: Seq<u8>,
)
    requires
        is_authenticated_exchange(s, expected1),
        is_authenticated_exchange(
            inbound_outcome(s, expected1, sent1, Some(reply1), mac1, chain1).0,
            expected2,
        ),
        inbound_outcome(s, expected1, sent1, Some(reply1), mac1, chain1).1 is Ok,
        inbound_outcome(
            inbound_outcome(s, expected1, sent1, Some(reply1), mac1, chain1).0,
            expected2,
            sent2,
            Some(reply2),
            mac2,
            chain2,
        ).1 is Ok,
    ensures
        inbound_outcome(
            inbound_outcome(s, expected1, sent1, Some(reply1), mac1, chain1).0,
            expected2,
            sent2,
            Some(reply2),
            mac2,
            chain2,
        ).0.exchanges == s.exchanges + seq![(sent1, reply1), (sent2, reply2)],
        inbound_outcome(
            inbound_outcome(s, expected1, sent1, Some(reply1), mac1, chain1).0,
            expected2,
            sent2,
            Some(reply2),
            mac2,
            chain2,
        ).0.chain == chain2,
        (sent1, reply1) != (sent2, reply2) ==> s.exchanges + seq![(sent1, reply1), (sent2, reply2)]
            != s.exchanges + seq![(sent2, reply2), (sent1, reply1)],
{
    let e = s.exchanges + seq![(sent1, reply1), (sent2, reply2)];
    let f = s.exchanges + seq![(sent2, reply2), (sent1, reply1)];
    assert(inbound_outcome(
        inbound_outcome(s, expected1, sent1, Some(reply1), mac1, chain1).0,
        expected2,
        sent2,
        Some(reply2),
        mac2,
        chain2,
    ).0.exchanges =~= e);
    if (sent1, reply1) != (sent2, reply2) {
        assert(e[s.exchanges.len() as int] != f[s.exchanges.len() as int]);
    }
}

} // verus!
