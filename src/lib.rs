//! Framing of the command and response messages exchanged with a YubiHSM 2,
//! and the session rules that authenticate them.

pub mod bytes;
pub mod code;
pub mod command;
pub mod dispatch;
pub mod error;
pub mod message;
pub mod object;
pub mod response;
pub mod session;
pub mod wire;

pub use code::CommandCode;
pub use command::{generate_asymmetric_key, key_id_from_response, put_hmac_key, CommandRequest};
pub use dispatch::{Session, SessionState};
pub use error::ClientError;
pub use message::{CommandMessage, MAX_MSG_SIZE};
pub use object::{AsymmetricAlg, Capability, Domain, HmacAlg, ObjectId, ObjectLabel};
pub use response::{ResponseCode, ResponseMessage};
pub use session::{Mac, SessionId, MAC_SIZE};
