use crate::error::ClientError;
use vstd::prelude::*;

verus! {

/// The operation a command message invokes, sent as its first byte.
#[derive(Clone, Copy, Debug, PartialEq, Eq, Structural)]
pub enum CommandCode {
    Echo,
    CreateSession,
    AuthenticateSession,
    SessionMessage,
    DeviceInfo,
    Reset,
    CloseSession,
    GetStorageInfo,
    PutOpaqueObject,
    GetOpaqueObject,
    PutAuthKey,
    PutAsymmetricKey,
    GenerateAsymmetricKey,
    SignPkcs1,
    ListObjects,
    DecryptPkcs1,
    ExportWrapped,
    ImportWrapped,
    PutWrapKey,
    GetLogs,
    GetObjectInfo,
    PutOption,
    GetOption,
    GetPseudoRandom,
    PutHmacKey,
    HmacData,
    GetPubKey,
    SignPss,
    SignEcdsa,
    DecryptEcdh,
    DeleteObject,
    DecryptOaep,
    GenerateHmacKey,
    GenerateWrapKey,
    VerifyHmac,
    SshCertify,
    PutTemplate,
    GetTemplate,
    DecryptOtp,
    CreateOtpAead,
    RandomOtpAead,
    RewrapOtpAead,
    SignAttestationCert,
    PutOtpAead,
    GenerateOtpAead,
    SetLogIndex,
    WrapData,
    UnwrapData,
    SignEddsa,
    Blink,
    Error,
}

/// The wire byte of each command code.
pub open spec fn code_byte(c: CommandCode) -> u8 {
    match c {
        CommandCode::Echo => 0x01,
        CommandCode::CreateSession => 0x03,
        CommandCode::AuthenticateSession => 0x04,
        CommandCode::SessionMessage => 0x05,
        CommandCode::DeviceInfo => 0x06,
        CommandCode::Reset => 0x08,
        CommandCode::CloseSession => 0x40,
        CommandCode::GetStorageInfo => 0x41,
        CommandCode::PutOpaqueObject => 0x42,
        CommandCode::GetOpaqueObject => 0x43,
        CommandCode::PutAuthKey => 0x44,
        CommandCode::PutAsymmetricKey => 0x45,
        CommandCode::GenerateAsymmetricKey => 0x46,
        CommandCode::SignPkcs1 => 0x47,
        CommandCode::ListObjects => 0x48,
        CommandCode::DecryptPkcs1 => 0x49,
        CommandCode::ExportWrapped => 0x4a,
        CommandCode::ImportWrapped => 0x4b,
        CommandCode::PutWrapKey => 0x4c,
        CommandCode::GetLogs => 0x4d,
        CommandCode::GetObjectInfo => 0x4e,
        CommandCode::PutOption => 0x4f,
        CommandCode::GetOption => 0x50,
        CommandCode::GetPseudoRandom => 0x51,
        CommandCode::PutHmacKey => 0x52,
        CommandCode::HmacData => 0x53,
        CommandCode::GetPubKey => 0x54,
        CommandCode::SignPss => 0x55,
        CommandCode::SignEcdsa => 0x56,
        CommandCode::DecryptEcdh => 0x57,
        CommandCode::DeleteObject => 0x58,
        CommandCode::DecryptOaep => 0x59,
        CommandCode::GenerateHmacKey => 0x5a,
        CommandCode::GenerateWrapKey => 0x5b,
        CommandCode::VerifyHmac => 0x5c,
        CommandCode::SshCertify => 0x5d,
        CommandCode::PutTemplate => 0x5e,
        CommandCode::GetTemplate => 0x5f,
        CommandCode::DecryptOtp => 0x60,
        CommandCode::CreateOtpAead => 0x61,
        CommandCode::RandomOtpAead => 0x62,
        CommandCode::RewrapOtpAead => 0x63,
        CommandCode::SignAttestationCert => 0x64,
        CommandCode::PutOtpAead => 0x65,
        CommandCode::GenerateOtpAead => 0x66,
        CommandCode::SetLogIndex => 0x67,
        CommandCode::WrapData => 0x68,
        CommandCode::UnwrapData => 0x69,
        CommandCode::SignEddsa => 0x6a,
        CommandCode::Blink => 0x6b,
        CommandCode::Error => 0x7f,
    }
}

/// The command code a wire byte stands for, if any.
pub open spec fn code_of_byte(b: u8) -> Option<CommandCode> {
    if b == 0x01 {
        Some(CommandCode::Echo)
    } else if b == 0x03 {
        Some(CommandCode::CreateSession)
    } else if b == 0x04 {
        Some(CommandCode::AuthenticateSession)
    } else if b == 0x05 {
        Some(CommandCode::SessionMessage)
    } else if b == 0x06 {
        Some(CommandCode::DeviceInfo)
    } else if b == 0x08 {
        Some(CommandCode::Reset)
    } else if b == 0x40 {
        Some(CommandCode::CloseSession)
    } else if b == 0x41 {
        Some(CommandCode::GetStorageInfo)
    } else if b == 0x42 {
        Some(CommandCode::PutOpaqueObject)
    } else if b == 0x43 {
        Some(CommandCode::GetOpaqueObject)
    } else if b == 0x44 {
        Some(CommandCode::PutAuthKey)
    } else if b == 0x45 {
        Some(CommandCode::PutAsymmetricKey)
    } else if b == 0x46 {
        Some(CommandCode::GenerateAsymmetricKey)
    } else if b == 0x47 {
        Some(CommandCode::SignPkcs1)
    } else if b == 0x48 {
        Some(CommandCode::ListObjects)
    } else if b == 0x49 {
        Some(CommandCode::DecryptPkcs1)
    } else if b == 0x4a {
        Some(CommandCode::ExportWrapped)
    } else if b == 0x4b {
        Some(CommandCode::ImportWrapped)
    } else if b == 0x4c {
        Some(CommandCode::PutWrapKey)
    } else if b == 0x4d {
        Some(CommandCode::GetLogs)
    } else if b == 0x4e {
        Some(CommandCode::GetObjectInfo)
    } else if b == 0x4f {
        Some(CommandCode::PutOption)
    } else if b == 0x50 {
        Some(CommandCode::GetOption)
    } else if b == 0x51 {
        Some(CommandCode::GetPseudoRandom)
    } else if b == 0x52 {
        Some(CommandCode::PutHmacKey)
    } else if b == 0x53 {
        Some(CommandCode::HmacData)
    } else if b == 0x54 {
        Some(CommandCode::GetPubKey)
    } else if b == 0x55 {
        Some(CommandCode::SignPss)
    } else if b == 0x56 {
        Some(CommandCode::SignEcdsa)
    } else if b == 0x57 {
        Some(CommandCode::DecryptEcdh)
    } else if b == 0x58 {
        Some(CommandCode::DeleteObject)
    } else if b == 0x59 {
        Some(CommandCode::DecryptOaep)
    } else if b == 0x5a {
        Some(CommandCode::GenerateHmacKey)
    } else if b == 0x5b {
        Some(CommandCode::GenerateWrapKey)
    } else if b == 0x5c {
        Some(CommandCode::VerifyHmac)
    } else if b == 0x5d {
        Some(CommandCode::SshCertify)
    } else if b == 0x5e {
        Some(CommandCode::PutTemplate)
    } else if b == 0x5f {
        Some(CommandCode::GetTemplate)
    } else if b == 0x60 {
        Some(CommandCode::DecryptOtp)
    } else if b == 0x61 {
        Some(CommandCode::CreateOtpAead)
    } else if b == 0x62 {
        Some(CommandCode::RandomOtpAead)
    } else if b == 0x63 {
        Some(CommandCode::RewrapOtpAead)
    } else if b == 0x64 {
        Some(CommandCode::SignAttestationCert)
    } else if b == 0x65 {
        Some(CommandCode::PutOtpAead)
    } else if b == 0x66 {
        Some(CommandCode::GenerateOtpAead)
    } else if b == 0x67 {
        Some(CommandCode::SetLogIndex)
    } else if b == 0x68 {
        Some(CommandCode::WrapData)
    } else if b == 0x69 {
        Some(CommandCode::UnwrapData)
    } else if b == 0x6a {
        Some(CommandCode::SignEddsa)
    } else if b == 0x6b {
        Some(CommandCode::Blink)
    } else if b == 0x7f {
        Some(CommandCode::Error)
    } else {
        None
    }
}

impl CommandCode {
    /// The byte this code is sent as.
    pub fn to_u8(self) -> (r: u8)
        ensures
            r == code_byte(self),
    {
        match self {
            CommandCode::Echo => 0x01,
            CommandCode::CreateSession => 0x03,
            CommandCode::AuthenticateSession => 0x04,
            CommandCode::SessionMessage => 0x05,
            CommandCode::DeviceInfo => 0x06,
            CommandCode::Reset => 0x08,
            CommandCode::CloseSession => 0x40,
            CommandCode::GetStorageInfo => 0x41,
            CommandCode::PutOpaqueObject => 0x42,
            CommandCode::GetOpaqueObject => 0x43,
            CommandCode::PutAuthKey => 0x44,
            CommandCode::PutAsymmetricKey => 0x45,
            CommandCode::GenerateAsymmetricKey => 0x46,
            CommandCode::SignPkcs1 => 0x47,
            CommandCode::ListObjects => 0x48,
            CommandCode::DecryptPkcs1 => 0x49,
            CommandCode::ExportWrapped => 0x4a,
            CommandCode::ImportWrapped => 0x4b,
            CommandCode::PutWrapKey => 0x4c,
            CommandCode::GetLogs => 0x4d,
            CommandCode::GetObjectInfo => 0x4e,
            CommandCode::PutOption => 0x4f,
            CommandCode::GetOption => 0x50,
            CommandCode::GetPseudoRandom => 0x51,
            CommandCode::PutHmacKey => 0x52,
            CommandCode::HmacData => 0x53,
            CommandCode::GetPubKey => 0x54,
            CommandCode::SignPss => 0x55,
            CommandCode::SignEcdsa => 0x56,
            CommandCode::DecryptEcdh => 0x57,
            CommandCode::DeleteObject => 0x58,
            CommandCode::DecryptOaep => 0x59,
            CommandCode::GenerateHmacKey => 0x5a,
            CommandCode::GenerateWrapKey => 0x5b,
            CommandCode::VerifyHmac => 0x5c,
            CommandCode::SshCertify => 0x5d,
            CommandCode::PutTemplate => 0x5e,
            CommandCode::GetTemplate => 0x5f,
            CommandCode::DecryptOtp => 0x60,
            CommandCode::CreateOtpAead => 0x61,
            CommandCode::RandomOtpAead => 0x62,
            CommandCode::RewrapOtpAead => 0x63,
            CommandCode::SignAttestationCert => 0x64,
            CommandCode::PutOtpAead => 0x65,
            CommandCode::GenerateOtpAead => 0x66,
            CommandCode::SetLogIndex => 0x67,
            CommandCode::WrapData => 0x68,
            CommandCode::UnwrapData => 0x69,
            CommandCode::SignEddsa => 0x6a,
            CommandCode::Blink => 0x6b,
            CommandCode::Error => 0x7f,
        }
    }

    /// Reads a command code from its wire byte; an unknown byte is a protocol error.
    pub fn from_u8(b: u8) -> (r: Result<CommandCode, ClientError>)
        ensures
            r == (match code_of_byte(b) {
                Some(c) => Ok(c),
                None => Err(ClientError::ProtocolError),
            }),
    {
        match b {
            0x01 => Ok(CommandCode::Echo),
            0x03 => Ok(CommandCode::CreateSession),
            0x04 => Ok(CommandCode::AuthenticateSession),
            0x05 => Ok(CommandCode::SessionMessage),
            0x06 => Ok(CommandCode::DeviceInfo),
            0x08 => Ok(CommandCode::Reset),
            0x40 => Ok(CommandCode::CloseSession),
            0x41 => Ok(CommandCode::GetStorageInfo),
            0x42 => Ok(CommandCode::PutOpaqueObject),
            0x43 => Ok(CommandCode::GetOpaqueObject),
            0x44 => Ok(CommandCode::PutAuthKey),
            0x45 => Ok(CommandCode::PutAsymmetricKey),
            0x46 => Ok(CommandCode::GenerateAsymmetricKey),
            0x47 => Ok(CommandCode::SignPkcs1),
            0x48 => Ok(CommandCode::ListObjects),
            0x49 => Ok(CommandCode::DecryptPkcs1),
            0x4a => Ok(CommandCode::ExportWrapped),
            0x4b => Ok(CommandCode::ImportWrapped),
            0x4c => Ok(CommandCode::PutWrapKey),
            0x4d => Ok(CommandCode::GetLogs),
            0x4e => Ok(CommandCode::GetObjectInfo),
            0x4f => Ok(CommandCode::PutOption),
            0x50 => Ok(CommandCode::GetOption),
            0x51 => Ok(CommandCode::GetPseudoRandom),
            0x52 => Ok(CommandCode::PutHmacKey),
            0x53 => Ok(CommandCode::HmacData),
            0x54 => Ok(CommandCode::GetPubKey),
            0x55 => Ok(CommandCode::SignPss),
            0x56 => Ok(CommandCode::SignEcdsa),
            0x57 => Ok(CommandCode::DecryptEcdh),
            0x58 => Ok(CommandCode::DeleteObject),
            0x59 => Ok(CommandCode::DecryptOaep),
            0x5a => Ok(CommandCode::GenerateHmacKey),
            0x5b => Ok(CommandCode::GenerateWrapKey),
            0x5c => Ok(CommandCode::VerifyHmac),
            0x5d => Ok(CommandCode::SshCertify),
            0x5e => Ok(CommandCode::PutTemplate),
            0x5f => Ok(CommandCode::GetTemplate),
            0x60 => Ok(CommandCode::DecryptOtp),
            0x61 => Ok(CommandCode::CreateOtpAead),
            0x62 => Ok(CommandCode::RandomOtpAead),
            0x63 => Ok(CommandCode::RewrapOtpAead),
            0x64 => Ok(CommandCode::SignAttestationCert),
            0x65 => Ok(CommandCode::PutOtpAead),
            0x66 => Ok(CommandCode::GenerateOtpAead),
            0x67 => Ok(CommandCode::SetLogIndex),
            0x68 => Ok(CommandCode::WrapData),
            0x69 => Ok(CommandCode::UnwrapData),
            0x6a => Ok(CommandCode::SignEddsa),
            0x6b => Ok(CommandCode::Blink),
            0x7f => Ok(CommandCode::Error),
            _ => Err(ClientError::ProtocolError),
        }
    }
}

/// Every code maps to its byte and back.
pub proof fn lemma_code_byte_round_trip(c: CommandCode)
    ensures
        code_of_byte(code_byte(c)) == Some(c),
{
}

} // verus!
