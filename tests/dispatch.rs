use yubihsm_apdu::{ClientError, CommandCode, Mac, ResponseCode, ResponseMessage, Session, SessionId, SessionState, MAX_MSG_SIZE};

fn mac_of(seed: u8) -> Mac {
    Mac::from_slice(&[seed; 16])
}

fn reply(tag: u8, sid: Option<u8>, data: &[u8], mac: Option<u8>) -> Vec<u8> {
    let mut body = Vec::new();
    if let Some(s) = sid {
        body.push(s);
    }
    body.extend_from_slice(data);
    if let Some(m) = mac {
        body.extend_from_slice(&[m; 16]);
    }
    let mut out = vec![tag, (body.len() >> 8) as u8, body.len() as u8];
    out.extend(body);
    out
}

fn authenticated_session() -> Session {
    let mut s = Session::new(SessionId::from_u8(3).unwrap(), mac_of(0));
    let sent = s.outbound(CommandCode::AuthenticateSession, vec![1, 2], Some(mac_of(1))).unwrap();
    assert_eq!(s.state(), SessionState::Authenticating);
    let got = s
        .inbound(CommandCode::AuthenticateSession, &sent, Some(reply(0x84, Some(3), &[], Some(2))), Some(mac_of(2)), mac_of(9))
        .unwrap();
    assert!(got.is_empty());
    s
}

#[test]
fn authentication_moves_to_authenticated() {
    let s = authenticated_session();
    assert_eq!(s.state(), SessionState::Authenticated);
    assert_eq!(s.chain().as_slice(), &[9u8; 16]);
    assert_eq!(s.id().to_u8(), 3);
}

#[test]
fn outbound_builds_authenticated_wire_bytes() {
    let mut s = authenticated_session();
    let sent = s.outbound(CommandCode::SessionMessage, vec![0xAA; 5], Some(mac_of(0x42))).unwrap();
    assert_eq!(sent.len(), 25);
    assert_eq!(&sent[..4], &[0x05, 0x00, 22, 3]);
    assert_eq!(&sent[9..], &[0x42u8; 16]);
}

#[test]
fn outbound_refuses_mac_mismatch_with_tag() {
    let mut s = authenticated_session();
    assert_eq!(s.outbound(CommandCode::SessionMessage, vec![], None).unwrap_err(), ClientError::ProtocolError);
    assert_eq!(s.outbound(CommandCode::Echo, vec![], None).unwrap_err(), ClientError::ProtocolError);
    let mut fresh = Session::new(SessionId::from_u8(1).unwrap(), mac_of(0));
    assert_eq!(
        fresh.outbound(CommandCode::SessionMessage, vec![], Some(mac_of(1))).unwrap_err(),
        ClientError::ProtocolError
    );
    assert_eq!(fresh.state(), SessionState::Unauthenticated);
}

#[test]
fn outbound_refuses_oversized_payload() {
    let mut s = Session::new(SessionId::from_u8(0).unwrap(), mac_of(0));
    assert_eq!(
        s.outbound(CommandCode::Echo, vec![0; MAX_MSG_SIZE + 1], None).unwrap_err(),
        ClientError::ProtocolError
    );
    assert_eq!(s.state(), SessionState::Unauthenticated);
}

#[test]
fn unauthenticated_exchange_returns_payload() {
    let mut s = Session::new(SessionId::from_u8(0).unwrap(), mac_of(0));
    let sent = s.outbound(CommandCode::Echo, vec![7, 7], None).unwrap();
    assert_eq!(sent, vec![0x01, 0x00, 0x02, 7, 7]);
    let got = s.inbound(CommandCode::Echo, &sent, Some(reply(0x81, None, &[7, 7], None)), None, mac_of(5)).unwrap();
    assert_eq!(got, vec![7, 7]);
    assert_eq!(s.chain().as_slice(), &[0u8; 16]);
}

#[test]
fn mismatched_reply_tag_closes_session() {
    let mut s = authenticated_session();
    let sent = s.outbound(CommandCode::SessionMessage, vec![1], Some(mac_of(4))).unwrap();
    let r = s.inbound(CommandCode::SessionMessage, &sent, Some(reply(0x81, Some(3), &[1], Some(5))), Some(mac_of(5)), mac_of(6));
    assert_eq!(r.unwrap_err(), ClientError::ProtocolError);
    assert_eq!(s.state(), SessionState::Closed);
    assert_eq!(s.chain().as_slice(), &[9u8; 16]);
}

#[test]
fn device_error_keeps_session() {
    let mut s = authenticated_session();
    let sent = s.outbound(CommandCode::SessionMessage, vec![1], Some(mac_of(4))).unwrap();
    let r = s.inbound(CommandCode::SessionMessage, &sent, Some(reply(0xFF, None, &[0x0B], None)), Some(mac_of(5)), mac_of(6));
    assert_eq!(r.unwrap_err(), ClientError::DeviceError(0x0B));
    assert_eq!(s.state(), SessionState::Authenticated);
    assert_eq!(s.chain().as_slice(), &[9u8; 16]);
}

#[test]
fn empty_device_error_is_protocol_error() {
    let mut s = authenticated_session();
    let r = s.inbound(CommandCode::SessionMessage, &[], Some(reply(0xFF, None, &[], None)), None, mac_of(6));
    assert_eq!(r.unwrap_err(), ClientError::ProtocolError);
    assert_eq!(s.state(), SessionState::Closed);
}

#[test]
fn corrupted_mac_closes_session_without_advancing() {
    let mut s = authenticated_session();
    let sent = s.outbound(CommandCode::SessionMessage, vec![1], Some(mac_of(4))).unwrap();
    let mut bytes = reply(0x85, Some(3), &[1, 2, 3], Some(5));
    let last = bytes.len() - 1;
    bytes[last] ^= 0x01;
    let r = s.inbound(CommandCode::SessionMessage, &sent, Some(bytes), Some(mac_of(5)), mac_of(6));
    assert_eq!(r.unwrap_err(), ClientError::ProtocolError);
    assert_eq!(s.state(), SessionState::Closed);
    assert_eq!(s.chain().as_slice(), &[9u8; 16]);
}

#[test]
fn wrong_session_id_closes_session() {
    let mut s = authenticated_session();
    let r = s.inbound(CommandCode::SessionMessage, &[], Some(reply(0x85, Some(4), &[1], Some(5))), Some(mac_of(5)), mac_of(6));
    assert_eq!(r.unwrap_err(), ClientError::ProtocolError);
    assert_eq!(s.state(), SessionState::Closed);
}

#[test]
fn accepted_reply_advances_chain() {
    let mut s = authenticated_session();
    let sent = s.outbound(CommandCode::SessionMessage, vec![1], Some(mac_of(4))).unwrap();
    let got = s
        .inbound(CommandCode::SessionMessage, &sent, Some(reply(0x85, Some(3), &[1, 2, 3], Some(5))), Some(mac_of(5)), mac_of(6))
        .unwrap();
    assert_eq!(got, vec![1, 2, 3]);
    assert_eq!(s.chain().as_slice(), &[6u8; 16]);
    assert_eq!(s.state(), SessionState::Authenticated);
}

#[test]
fn same_exchanges_give_same_chain() {
    let run = || {
        let mut s = authenticated_session();
        for (m, next) in [(5u8, 6u8), (7, 8)] {
            let sent = s.outbound(CommandCode::SessionMessage, vec![m], Some(mac_of(m))).unwrap();
            s.inbound(CommandCode::SessionMessage, &sent, Some(reply(0x85, Some(3), &[m], Some(m))), Some(mac_of(m)), mac_of(next))
                .unwrap();
        }
        s.chain().as_slice().to_vec()
    };
    assert_eq!(run(), run());
    assert_eq!(run(), vec![8u8; 16]);
}

#[test]
fn transport_failure_closes_session() {
    let mut s = authenticated_session();
    let r = s.inbound(CommandCode::SessionMessage, &[], None, Some(mac_of(5)), mac_of(6));
    assert_eq!(r.unwrap_err(), ClientError::ConnectionError);
    assert_eq!(s.state(), SessionState::Closed);
    assert_eq!(s.outbound(CommandCode::Echo, vec![], None).unwrap_err(), ClientError::SessionClosed);
    let r = s.inbound(CommandCode::Echo, &[], Some(reply(0x81, None, &[], None)), None, mac_of(6));
    assert_eq!(r.unwrap_err(), ClientError::SessionClosed);
}

#[test]
fn close_session_reply_closes() {
    let mut s = Session::new(SessionId::from_u8(2).unwrap(), mac_of(0));
    let sent = s.outbound(CommandCode::CloseSession, vec![], None).unwrap();
    s.inbound(CommandCode::CloseSession, &sent, Some(reply(0xC0, None, &[], None)), None, mac_of(0)).unwrap();
    assert_eq!(s.state(), SessionState::Closed);
}

#[test]
fn response_round_trip() {
    let sid = SessionId::from_u8(5).unwrap();
    let msg = ResponseMessage::new_with_mac(ResponseCode::Success(CommandCode::SessionMessage), sid, vec![4, 5], mac_of(3)).unwrap();
    let bytes = msg.serialize();
    assert_eq!(bytes, reply(0x85, Some(5), &[4, 5], Some(3)));
    let parsed = ResponseMessage::parse(bytes, CommandCode::SessionMessage).unwrap();
    assert_eq!(parsed.code, ResponseCode::Success(CommandCode::SessionMessage));
    assert_eq!(parsed.data, vec![4, 5]);
    assert_eq!(parsed.session_id.unwrap().to_u8(), 5);
}

#[test]
fn response_parse_rejects_other_tags() {
    let bytes = ResponseMessage::create(ResponseCode::Success(CommandCode::Echo), vec![1]).unwrap().serialize();
    assert_eq!(bytes, vec![0x81, 0x00, 0x01, 1]);
    assert_eq!(ResponseMessage::parse(bytes.clone(), CommandCode::Blink).unwrap_err(), ClientError::ProtocolError);
    assert_eq!(ResponseMessage::parse(bytes, CommandCode::Echo).unwrap().data, vec![1]);
    let err = ResponseMessage::parse(vec![0xFF, 0x00, 0x01, 0x03], CommandCode::Echo).unwrap();
    assert_eq!(err.code, ResponseCode::DeviceError);
    assert_eq!(err.data, vec![3]);
    assert_eq!(ResponseMessage::parse(vec![0x81, 0x00], CommandCode::Echo).unwrap_err(), ClientError::ProtocolError);
}

#[test]
fn response_create_refuses_oversized_payload() {
    assert_eq!(
        ResponseMessage::create(ResponseCode::DeviceError, vec![0; MAX_MSG_SIZE + 1]).unwrap_err(),
        ClientError::ProtocolError
    );
}

#[test]
fn explicit_close_refuses_further_commands() {
    let mut s = authenticated_session();
    s.close();
    assert_eq!(s.state(), SessionState::Closed);
    assert_eq!(s.chain().as_slice(), &[9u8; 16]);
    assert_eq!(
        s.outbound(CommandCode::SessionMessage, vec![], Some(mac_of(1))).unwrap_err(),
        ClientError::SessionClosed
    );
}

#[test]
fn mac_input_covers_everything_but_the_mac() {
    let mut s = authenticated_session();
    let covered = s.mac_input(CommandCode::SessionMessage, &[1, 2]).unwrap();
    assert_eq!(covered, vec![0x05, 0x00, 19, 3, 1, 2]);
    let sent = s.outbound(CommandCode::SessionMessage, vec![1, 2], Some(mac_of(8))).unwrap();
    assert_eq!(&sent[..6], covered.as_slice());
    assert_eq!(yubihsm_apdu::dispatch::reply_mac_input(&sent).unwrap(), covered);
    assert!(yubihsm_apdu::dispatch::reply_mac_input(&[0u8; 15]).is_none());
}

fn wrapped_exchange(inner_reply: &[u8], reply_mac: u8) -> (Session, Result<Vec<u8>, ClientError>) {
    let mut s = authenticated_session();
    let covered = s.mac_input(CommandCode::PutHmacKey, &[1, 2, 3]).unwrap();
    assert_eq!(covered, vec![0x05, 0x00, 23, 3, 0x52, 0x00, 0x03, 1, 2, 3]);
    let sent = s.outbound(CommandCode::PutHmacKey, vec![1, 2, 3], Some(mac_of(0x33))).unwrap();
    assert_eq!(&sent[..covered.len()], covered.as_slice());
    assert_eq!(&sent[covered.len()..], &[0x33u8; 16]);
    let r = s.inbound(CommandCode::PutHmacKey, &sent, Some(reply(0x85, Some(3), inner_reply, Some(reply_mac))), Some(mac_of(5)), mac_of(6));
    (s, r)
}

#[test]
fn authenticated_session_wraps_other_commands() {
    let (s, r) = wrapped_exchange(&[0xD2, 0x00, 0x02, 0x00, 0x07], 5);
    assert_eq!(r.unwrap(), vec![0x00, 0x07]);
    assert_eq!(s.chain().as_slice(), &[6u8; 16]);
    assert_eq!(s.state(), SessionState::Authenticated);
}

#[test]
fn wrapped_reply_with_wrong_mac_is_refused() {
    let (s, r) = wrapped_exchange(&[0xD2, 0x00, 0x02, 0x00, 0x07], 4);
    assert_eq!(r.unwrap_err(), ClientError::ProtocolError);
    assert_eq!(s.state(), SessionState::Closed);
    assert_eq!(s.chain().as_slice(), &[9u8; 16]);
}

#[test]
fn wrapped_reply_with_wrong_inner_tag_is_refused() {
    let (s, r) = wrapped_exchange(&[0xC6, 0x00, 0x02, 0x00, 0x07], 5);
    assert_eq!(r.unwrap_err(), ClientError::ProtocolError);
    assert_eq!(s.state(), SessionState::Closed);
    assert_eq!(s.chain().as_slice(), &[9u8; 16]);
}

#[test]
fn wrapped_device_error_advances_chain_and_keeps_session() {
    let (s, r) = wrapped_exchange(&[0xFF, 0x00, 0x01, 0x04], 5);
    assert_eq!(r.unwrap_err(), ClientError::DeviceError(4));
    assert_eq!(s.state(), SessionState::Authenticated);
    assert_eq!(s.chain().as_slice(), &[6u8; 16]);
}

#[test]
fn wrapped_command_needs_mac() {
    let mut s = authenticated_session();
    assert_eq!(s.outbound(CommandCode::PutHmacKey, vec![1], None).unwrap_err(), ClientError::ProtocolError);
    assert_eq!(
        s.outbound(CommandCode::PutHmacKey, vec![0; MAX_MSG_SIZE - 2], Some(mac_of(1))).unwrap_err(),
        ClientError::ProtocolError
    );
    assert!(s.mac_input(CommandCode::PutHmacKey, &vec![0; MAX_MSG_SIZE - 2]).is_none());
    assert!(s.mac_input(CommandCode::PutHmacKey, &vec![0; MAX_MSG_SIZE - 3]).is_some());
    let fresh = Session::new(SessionId::from_u8(1).unwrap(), mac_of(0));
    assert!(fresh.mac_input(CommandCode::PutHmacKey, &[1]).is_none());
}
