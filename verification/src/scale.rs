use vstd::prelude::*;
use vstd::string::StringSliceAdditionalSpecFns;

use crate::encode::le_bytes;
use parity_scale_codec::Encode;

verus! {

/// The number of significant bytes of a value: the shortest
/// little-endian representation without trailing zero bytes (one byte
/// for zero).
pub open spec fn byte_len(x: nat) -> nat
    decreases x,
{
    if x < 256 {
        1
    } else {
        1 + byte_len(x / 256)
    }
}

/// The SCALE compact encoding of an unsigned value: one byte `x * 4`
/// below 2^6; two little-endian bytes of `x * 4 + 1` below 2^14; four
/// little-endian bytes of `x * 4 + 2` below 2^30; otherwise a mode byte
/// `3 + (n - 4) * 4` followed by the value's `n` significant
/// little-endian bytes.
pub open spec fn scale_compact(x: u128) -> Seq<u8> {
    if x < 64 {
        seq![(x * 4) as u8]
    } else if x < 16384 {
        le_bytes(x as nat * 4 + 1, 2)
    } else if x < 1073741824 {
        le_bytes(x as nat * 4 + 2, 4)
    } else {
        seq![(3 + (byte_len(x as nat) - 4) * 4) as u8] + le_bytes(x as nat, byte_len(x as nat))
    }
}

/// Relies on parity-scale-codec's `Encode` for `Compact<u128>`: the
/// four-mode compact integer encoding that `scale_compact` states.
#[verifier::external_body]
pub(crate) fn compact_encode_u128(x: u128) -> (r: Vec<u8>)
    ensures
        r@ == scale_compact(x),
{
    parity_scale_codec::Compact::from(x).encode()
}

/// Relies on parity-scale-codec's `Encode` for `str`: the compact-encoded
/// byte count followed by the UTF-8 bytes; byte counts above `u32::MAX`
/// are excluded because the crate refuses to encode them.
#[verifier::external_body]
pub(crate) fn scale_encode_str(s: &str) -> (r: Vec<u8>)
    requires
        s.spec_bytes().len() <= u32::MAX,
    ensures
        r@ == scale_compact(s.spec_bytes().len() as u128) + s.spec_bytes(),
{
    s.encode()
}

} // verus!
