use vstd::prelude::*;

verus! {

/// Why a command could not be built, sent or answered.
#[derive(Clone, Copy, Debug, PartialEq, Eq, Structural)]
pub enum ClientError {
    /// Malformed framing, unknown tag, missing session id or MAC, a reply of the
    /// wrong type, or a MAC that does not verify.
    ProtocolError,
    /// The transport failed to send or to receive.
    ConnectionError,
    /// The device refused the command, with its own error code.
    DeviceError(u8),
    /// The session is closed and takes no more commands.
    SessionClosed,
}

} // verus!
