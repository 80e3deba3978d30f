use yubihsm_apdu::{
    generate_asymmetric_key, key_id_from_response, put_hmac_key, AsymmetricAlg, Capability, ClientError,
    CommandCode, Domain, HmacAlg, ObjectLabel,
};

fn params(alg: u8) -> Vec<u8> {
    let mut p = vec![0x12, 0x34];
    let mut label = b"key".to_vec();
    label.resize(40, 0);
    p.extend(label);
    p.extend([0x00, 0x05]);
    p.extend([0x01, 0x02, 0x03, 0x04, 0x05, 0x06, 0x07, 0x08]);
    p.push(alg);
    p
}

#[test]
fn generate_asymmetric_key_payload() {
    let label = ObjectLabel::from_bytes(b"key").unwrap();
    let cmd = generate_asymmetric_key(0x1234, &label, Domain(5), Capability(0x0102030405060708), AsymmetricAlg::EcP256);
    assert_eq!(cmd.command_type, CommandCode::GenerateAsymmetricKey);
    assert_eq!(cmd.data, params(12));
    assert_eq!(cmd.data.len(), 53);
}

#[test]
fn put_hmac_key_payload() {
    let label = ObjectLabel::from_bytes(b"key").unwrap();
    let key = vec![0xABu8; 32];
    let cmd = put_hmac_key(0x1234, &label, Domain(5), Capability(0x0102030405060708), HmacAlg::Sha256, key.clone()).unwrap();
    assert_eq!(cmd.command_type, CommandCode::PutHmacKey);
    let mut expected = params(0x14);
    expected.extend(key);
    assert_eq!(cmd.data, expected);
}

#[test]
fn put_hmac_key_length_limits() {
    let label = ObjectLabel::from_bytes(b"").unwrap();
    let put = |alg, n: usize| put_hmac_key(1, &label, Domain(1), Capability(0), alg, vec![1u8; n]);
    assert_eq!(put(HmacAlg::Sha1, 7).unwrap_err(), ClientError::ProtocolError);
    assert!(put(HmacAlg::Sha1, 8).is_ok());
    assert!(put(HmacAlg::Sha1, 64).is_ok());
    assert_eq!(put(HmacAlg::Sha1, 65).unwrap_err(), ClientError::ProtocolError);
    assert!(put(HmacAlg::Sha512, 128).is_ok());
    assert_eq!(put(HmacAlg::Sha384, 129).unwrap_err(), ClientError::ProtocolError);
}

#[test]
fn hmac_algorithms() {
    assert_eq!(HmacAlg::Sha1.max_key_len(), 64);
    assert_eq!(HmacAlg::Sha384.max_key_len(), 128);
    assert_eq!(HmacAlg::Sha512.to_u8(), 0x16);
    assert_eq!(AsymmetricAlg::Ed25519.to_u8(), 46);
}

#[test]
fn label_limits() {
    assert_eq!(ObjectLabel::from_bytes(&[b'x'; 41]).unwrap_err(), ClientError::ProtocolError);
    let l = ObjectLabel::from_bytes(&[b'x'; 40]).unwrap();
    assert_eq!(l.as_slice(), &[b'x'; 40]);
    assert_eq!(ObjectLabel::from_bytes(b"ab").unwrap().as_slice()[2..], [0u8; 38]);
}

#[test]
fn key_id_from_reply() {
    assert_eq!(key_id_from_response(&[0x01, 0x02]).unwrap(), 0x0102);
    assert_eq!(key_id_from_response(&[0x01]).unwrap_err(), ClientError::ProtocolError);
    assert_eq!(key_id_from_response(&[0x01, 0x02, 0x03]).unwrap_err(), ClientError::ProtocolError);
}
