use crate::error::ClientError;
use vstd::prelude::*;

verus! {

/// Identifies an object stored in the device.
pub type ObjectId = u16;

/// Length of every object label, zero-padded.
pub const LABEL_SIZE: usize = 40;

/// The domains an object belongs to, one bit each.
#[derive(Clone, Copy, Debug, PartialEq, Eq, Structural)]
pub struct Domain(pub u16);

/// The operations an object may be used for, one bit each.
#[derive(Clone, Copy, Debug, PartialEq, Eq, Structural)]
pub struct Capability(pub u64);

/// A label for an object: always `LABEL_SIZE` bytes.
#[derive(Debug)]
pub struct ObjectLabel {
    bytes: Vec<u8>,
}

impl View for ObjectLabel {
    type V = Seq<u8>;

    closed spec fn view(&self) -> Seq<u8> {
        self.bytes@
    }
}

/// `b` followed by zeros up to `LABEL_SIZE` bytes.
pub open spec fn padded_label(b: Seq<u8>) -> Seq<u8> {
    b + Seq::new((LABEL_SIZE - b.len()) as nat, |i: int| 0u8)
}

impl ObjectLabel {
    #[verifier::type_invariant]
    spec fn inv(&self) -> bool {
        self.bytes@.len() == LABEL_SIZE
    }

    /// A label of the given bytes, zero-padded; more than `LABEL_SIZE` bytes
    /// is a protocol error.
    pub fn from_bytes(b: &[u8]) -> (r: Result<ObjectLabel, ClientError>)
        ensures
            b@.len() <= LABEL_SIZE <==> r is Ok,
            b@.len() > LABEL_SIZE ==> r == Err::<ObjectLabel, ClientError>(ClientError::ProtocolError),
            r matches Ok(l) ==> l@ == padded_label(b@),
    {
        if b.len() > LABEL_SIZE {
            return Err(ClientError::ProtocolError);
        }
        let mut bytes: Vec<u8> = Vec::with_capacity(LABEL_SIZE);
        let mut i: usize = 0;
        while i < LABEL_SIZE
            invariant
                i <= LABEL_SIZE,
                b@.len() <= LABEL_SIZE,
                bytes@ == padded_label(b@).subrange(0, i as int),
            decreases LABEL_SIZE - i,
        {
            if i < b.len() {
                bytes.push(b[i]);
            } else {
                bytes.push(0);
            }
            i += 1;
            assert(bytes@ =~= padded_label(b@).subrange(0, i as int));
        }
        assert(bytes@ =~= padded_label(b@));
        Ok(ObjectLabel { bytes })
    }

    /// The label's bytes.
    pub fn as_slice(&self) -> (r: &[u8])
        ensures
            r@ == self@,
            r@.len() == LABEL_SIZE,
    {
        proof {
            use_type_invariant(self);
        }
        self.bytes.as_slice()
    }
}

/// Algorithms of HMAC keys.
#[derive(Clone, Copy, Debug, PartialEq, Eq, Structural)]
pub enum HmacAlg {
    Sha1,
    Sha256,
    Sha384,
    Sha512,
}

/// The wire byte of an HMAC algorithm.
pub open spec fn hmac_alg_byte(a: HmacAlg) -> u8 {
    match a {
        HmacAlg::Sha1 => 0x13,
        HmacAlg::Sha256 => 0x14,
        HmacAlg::Sha384 => 0x15,
        HmacAlg::Sha512 => 0x16,
    }
}

/// The longest key an HMAC algorithm takes: its hash's block size.
pub open spec fn hmac_max_key_len(a: HmacAlg) -> usize {
    match a {
        HmacAlg::Sha1 | HmacAlg::Sha256 => 64,
        HmacAlg::Sha384 | HmacAlg::Sha512 => 128,
    }
}

impl HmacAlg {
    /// The byte this algorithm is sent as.
    pub fn to_u8(self) -> (r: u8)
        ensures
            r == hmac_alg_byte(self),
    {
        match self {
            HmacAlg::Sha1 => 0x13,
            HmacAlg::Sha256 => 0x14,
            HmacAlg::Sha384 => 0x15,
            HmacAlg::Sha512 => 0x16,
        }
    }

    /// The longest key this algorithm takes.
    pub fn max_key_len(self) -> (r: usize)
        ensures
            r == hmac_max_key_len(self),
    {
        match self {
            HmacAlg::Sha1 | HmacAlg::Sha256 => 64,
            HmacAlg::Sha384 | HmacAlg::Sha512 => 128,
        }
    }
}

/// Algorithms of asymmetric keys.
#[derive(Clone, Copy, Debug, PartialEq, Eq, Structural)]
pub enum AsymmetricAlg {
    Rsa2048,
    Rsa3072,
    Rsa4096,
    EcP256,
    EcP384,
    EcP521,
    EcK256,
    EcBp256,
    EcBp384,
    EcBp512,
    Ed25519,
}

/// The wire byte of an asymmetric algorithm.
pub open spec fn asymmetric_alg_byte(a: AsymmetricAlg) -> u8 {
    match a {
        AsymmetricAlg::Rsa2048 => 9,
        AsymmetricAlg::Rsa3072 => 10,
        AsymmetricAlg::Rsa4096 => 11,
        AsymmetricAlg::EcP256 => 12,
        AsymmetricAlg::EcP384 => 13,
        AsymmetricAlg::EcP521 => 14,
        AsymmetricAlg::EcK256 => 15,
        AsymmetricAlg::EcBp256 => 16,
        AsymmetricAlg::EcBp384 => 17,
        AsymmetricAlg::EcBp512 => 18,
        AsymmetricAlg::Ed25519 => 46,
    }
}

impl AsymmetricAlg {
    /// The byte this algorithm is sent as.
    pub fn to_u8(self) -> (r: u8)
        ensures
            r == asymmetric_alg_byte(self),
    {
        match self {
            AsymmetricAlg::Rsa2048 => 9,
            AsymmetricAlg::Rsa3072 => 10,
            AsymmetricAlg::Rsa4096 => 11,
            AsymmetricAlg::EcP256 => 12,
            AsymmetricAlg::EcP384 => 13,
            AsymmetricAlg::EcP521 => 14,
            AsymmetricAlg::EcK256 => 15,
            AsymmetricAlg::EcBp256 => 16,
            AsymmetricAlg::EcBp384 => 17,
            AsymmetricAlg::EcBp512 => 18,
            AsymmetricAlg::Ed25519 => 46,
        }
    }
}

} // verus!
