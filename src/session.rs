use crate::error::ClientError;
use vstd::prelude::*;

verus! {

/// Number of concurrent session slots the device offers.
pub const MAX_SESSIONS: u8 = 16;

/// Width in bytes of every message authentication code.
pub const MAC_SIZE: usize = 16;

/// One of the device's session slots.
#[derive(Clone, Copy, Debug, PartialEq, Eq)]
pub struct SessionId(u8);

impl View for SessionId {
    type V = u8;

    closed spec fn view(&self) -> u8 {
        self.0
    }
}

impl SessionId {
    #[verifier::type_invariant]
    spec fn inv(&self) -> bool {
        self.0 < MAX_SESSIONS
    }

    /// A session id from its wire byte; a byte past the last slot is a protocol error.
    pub fn from_u8(b: u8) -> (r: Result<SessionId, ClientError>)
        ensures
            b < MAX_SESSIONS ==> (r matches Ok(id) && id@ == b),
            b >= MAX_SESSIONS ==> r == Err::<SessionId, ClientError>(ClientError::ProtocolError),
    {
        if b < MAX_SESSIONS {
            Ok(SessionId(b))
        } else {
            Err(ClientError::ProtocolError)
        }
    }

    /// The wire byte of this session id.
    pub fn to_u8(&self) -> (r: u8)
        ensures
            r == self@,
            r < MAX_SESSIONS,
    {
        proof {
            use_type_invariant(self);
        }
        self.0
    }
}

/// A message authentication code: always exactly `MAC_SIZE` bytes.
#[derive(Debug)]
pub struct Mac {
    bytes: Vec<u8>,
}

impl View for Mac {
    type V = Seq<u8>;

    closed spec fn view(&self) -> Seq<u8> {
        self.bytes@
    }
}

impl Mac {
    #[verifier::type_invariant]
    spec fn inv(&self) -> bool {
        self.bytes@.len() == MAC_SIZE
    }

    /// A MAC made of the given bytes, which must be `MAC_SIZE` of them.
    pub fn from_slice(s: &[u8]) -> (r: Mac)
        requires
            s@.len() == MAC_SIZE,
        ensures
            r@ == s@,
    {
        let mut bytes: Vec<u8> = Vec::with_capacity(MAC_SIZE);
        let mut i: usize = 0;
        while i < s.len()
            invariant
                i <= s@.len(),
                bytes@ == s@.subrange(0, i as int),
            decreases s@.len() - i,
        {
            bytes.push(s[i]);
            i += 1;
            assert(bytes@ =~= s@.subrange(0, i as int));
        }
        assert(bytes@ =~= s@);
        Mac { bytes }
    }

    /// The bytes of this MAC.
    pub fn as_slice(&self) -> (r: &[u8])
        ensures
            r@ == self@,
            r@.len() == MAC_SIZE,
    {
        proof {
            use_type_invariant(self);
        }
        self.bytes.as_slice()
    }

    /// Whether two MACs hold the same bytes; every byte is compared whatever
    /// the earlier ones held.
    pub fn matches(&self, other: &Mac) -> (r: bool)
        ensures
            r == (self@ == other@),
    {
        proof {
            use_type_invariant(self);
            use_type_invariant(other);
        }
        let mut diff: bool = false;
        let mut i: usize = 0;
        while i < MAC_SIZE
            invariant
                i <= MAC_SIZE,
                self@.len() == MAC_SIZE,
                other@.len() == MAC_SIZE,
                diff == exists|j: int| 0 <= j < i && self@[j] != other@[j],
            decreases MAC_SIZE - i,
        {
            if self.bytes[i] != other.bytes[i] {
                diff = true;
            }
            i += 1;
        }
        if !diff {
            assert(self@ =~= other@);
        }
        !diff
    }
}

} // verus!
