use crate::bytes::push_all;
use crate::code::CommandCode;
use crate::error::ClientError;
use crate::object::{
    asymmetric_alg_byte, hmac_alg_byte, hmac_max_key_len, AsymmetricAlg, Capability, Domain,
    HmacAlg, ObjectId, ObjectLabel,
};
use crate::wire::{be_u16, be_u64_bytes, push_be_u16, push_be_u64, read_be_u16};
use vstd::prelude::*;

verus! {

/// Shortest HMAC key the device takes (64 bits).
pub const HMAC_MIN_KEY_SIZE: usize = 8;

/// A typed command ready for dispatch: the code it is sent under, which also
/// fixes the reply it expects, and its payload.
#[derive(Debug)]
pub struct CommandRequest {
    pub command_type: CommandCode,
    pub data: Vec<u8>,
}

/// The two bytes of `n`, most significant first.
pub open spec fn be_u16_bytes(n: u16) -> Seq<u8> {
    seq![(n / 256) as u8, (n % 256) as u8]
}

/// The parameters that commands creating an object start with: id, label,
/// domains, capabilities and algorithm.
pub open spec fn object_params(
    id: ObjectId,
    label: Seq<u8>,
    domains: u16,
    capabilities: u64,
    algorithm: u8,
) -> Seq<u8> {
    be_u16_bytes(id) + label + be_u16_bytes(domains) + be_u64_bytes(capabilities) + seq![algorithm]
}

/// Appends the parameters of an object to `out`.
fn push_object_params(
    out: &mut Vec<u8>,
    id: ObjectId,
    label: &ObjectLabel,
    domains: Domain,
    capabilities: Capability,
    algorithm: u8,
)
    ensures
        final(out)@ == old(out)@ + object_params(id, label@, domains.0, capabilities.0, algorithm),
{
    push_be_u16(out, id);
    push_all(out, label.as_slice());
    push_be_u16(out, domains.0);
    push_be_u64(out, capabilities.0);
    out.push(algorithm);
    assert(final(out)@ =~= old(out)@ + object_params(id, label@, domains.0, capabilities.0, algorithm));
}

/// The command that generates a new asymmetric key in the device.
pub fn generate_asymmetric_key(
    key_id: ObjectId,
    label: &ObjectLabel,
    domains: Domain,
    capabilities: Capability,
    algorithm: AsymmetricAlg,
) -> (r: CommandRequest)
    ensures
        r.command_type == CommandCode::GenerateAsymmetricKey,
        r.data@ == object_params(key_id, label@, domains.0, capabilities.0, asymmetric_alg_byte(algorithm)),
{
    let mut data: Vec<u8> = Vec::new();
    push_object_params(&mut data, key_id, label, domains, capabilities, algorithm.to_u8());
    CommandRequest { command_type: CommandCode::GenerateAsymmetricKey, data }
}

/// The command that puts an existing HMAC key into the device. A key shorter
/// than `HMAC_MIN_KEY_SIZE` or longer than the algorithm takes is a protocol
/// error, found before anything is sent.
pub fn put_hmac_key(
    key_id: ObjectId,
    label: &ObjectLabel,
    domains: Domain,
    capabilities: Capability,
    algorithm: HmacAlg,
    key_bytes: Vec<u8>,
) -> (r: Result<CommandRequest, ClientError>)
    ensures
        (HMAC_MIN_KEY_SIZE <= key_bytes@.len() <= hmac_max_key_len(algorithm)) <==> r is Ok,
        !(HMAC_MIN_KEY_SIZE <= key_bytes@.len() <= hmac_max_key_len(algorithm)) ==> r
            == Err::<CommandRequest, ClientError>(ClientError::ProtocolError),
        r matches Ok(c) ==> c.command_type == CommandCode::PutHmacKey && c.data@ == object_params(
            key_id,
            label@,
            domains.0,
            capabilities.0,
            hmac_alg_byte(algorithm),
        ) + key_bytes@,
{
    if key_bytes.len() < HMAC_MIN_KEY_SIZE || key_bytes.len() > algorithm.max_key_len() {
        return Err(ClientError::ProtocolError);
    }
    let mut data: Vec<u8> = Vec::new();
    push_object_params(&mut data, key_id, label, domains, capabilities, algorithm.to_u8());
    push_all(&mut data, key_bytes.as_slice());
    Ok(CommandRequest { command_type: CommandCode::PutHmacKey, data })
}

/// The id of the key a reply to a key-creating command names: exactly two
/// bytes, most significant first; anything else is a protocol error.
pub fn key_id_from_response(data: &[u8]) -> (r: Result<ObjectId, ClientError>)
    ensures
        data@.len() == 2 <==> r is Ok,
        data@.len() != 2 ==> r == Err::<ObjectId, ClientError>(ClientError::ProtocolError),
        r matches Ok(id) ==> id as nat == be_u16(data@[0], data@[1]),
{
    if data.len() != 2 {
        return Err(ClientError::ProtocolError);
    }
    Ok(read_be_u16(data))
}

} // verus!
