use byteorder::{BigEndian, ByteOrder, WriteBytesExt};
use vstd::prelude::*;

verus! {

/// The value of two bytes read most significant first.
pub open spec fn be_u16(hi: u8, lo: u8) -> nat {
    hi as nat * 256 + lo as nat
}

/// Relies on byteorder's `BigEndian::read_u16`: the first two bytes of `b`,
/// most significant first. It panics on fewer than two bytes.
#[verifier::external_body]
pub(crate) fn read_be_u16(b: &[u8]) -> (r: u16)
    requires
        b@.len() >= 2,
    ensures
        r as nat == be_u16(b@[0], b@[1]),
{
    BigEndian::read_u16(b)
}

/// Relies on byteorder's `WriteBytesExt::write_u16::<BigEndian>` on a `Vec`:
/// appends `n`, most significant byte first. Writing to a `Vec` never fails.
#[verifier::external_body]
pub(crate) fn push_be_u16(out: &mut Vec<u8>, n: u16)
    ensures
        final(out)@ == old(out)@ + seq![(n / 256) as u8, (n % 256) as u8],
{
    out.write_u16::<BigEndian>(n).unwrap();
}


/// The eight bytes of `n`, most significant first.
pub open spec fn be_u64_bytes(n: u64) -> Seq<u8> {
    Seq::new(8, |i: int| ((n as nat / pow256((7 - i) as nat)) % 256) as u8)
}

/// 256 to the power `k`.
pub open spec fn pow256(k: nat) -> nat
    decreases k,
{
    if k == 0 {
        1
    } else {
        256 * pow256((k - 1) as nat)
    }
}

/// Relies on byteorder's `WriteBytesExt::write_u64::<BigEndian>` on a `Vec`:
/// appends `n`, most significant byte first. Writing to a `Vec` never fails.
#[verifier::external_body]
pub(crate) fn push_be_u64(out: &mut Vec<u8>, n: u64)
    ensures
        final(out)@ == old(out)@ + be_u64_bytes(n),
{
    out.write_u64::<BigEndian>(n).unwrap();
}

} // verus!
