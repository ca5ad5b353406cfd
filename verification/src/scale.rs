//! The byte layout in which values travel between contracts and the host:
//! lengths in the compact form, bytes after their length, fixed-size values
//! as they are.

use vstd::prelude::*;
use vstd::string::StringSliceAdditionalSpecFns;

verus! {

/// The compact form of a length below 2^32.
///
/// The two lowest bits of the first byte tell the width: one byte for
/// lengths below 2^6, two below 2^14, four below 2^30, each holding the
/// length shifted left by two, least significant byte first; larger lengths
/// take the byte 3 followed by the four bytes of the length.
pub open spec fn compact_u32(n: nat) -> Seq<u8> {
    if n < 0x40 {
        seq![(n * 4) as u8]
    } else if n < 0x4000 {
        seq![((n * 4 + 1) % 256) as u8, ((n * 4 + 1) / 256) as u8]
    } else if n < 0x4000_0000 {
        seq![
            ((n * 4 + 2) % 256) as u8,
            ((n * 4 + 2) / 0x100 % 256) as u8,
            ((n * 4 + 2) / 0x1_0000 % 256) as u8,
            ((n * 4 + 2) / 0x100_0000) as u8,
        ]
    } else {
        seq![
            3u8,
            (n % 256) as u8,
            (n / 0x100 % 256) as u8,
            (n / 0x1_0000 % 256) as u8,
            (n / 0x100_0000 % 256) as u8,
        ]
    }
}

/// The layout of a byte string: its compact length, then the bytes.
pub open spec fn scale_bytes(bytes: Seq<u8>) -> Seq<u8> {
    compact_u32(bytes.len()) + bytes
}

/// The layout of an unsigned 64-bit number: eight bytes, least significant
/// first.
pub open spec fn scale_u64(n: u64) -> Seq<u8> {
    seq![
        (n % 256) as u8,
        (n / 0x100 % 256) as u8,
        (n / 0x1_0000 % 256) as u8,
        (n / 0x100_0000 % 256) as u8,
        (n / 0x1_0000_0000 % 256) as u8,
        (n / 0x100_0000_0000 % 256) as u8,
        (n / 0x1_0000_0000_0000 % 256) as u8,
        (n / 0x100_0000_0000_0000 % 256) as u8,
    ]
}

/// Calls `parity_scale_codec::Encode::encode` on a string slice. Trusted:
/// the result is the compact length of the text's UTF-8 bytes followed by
/// those bytes. Longer texts are left out: the encoder panics on them.
#[verifier::external_body]
pub(crate) fn encode_str(text: &str) -> (r: Vec<u8>)
    requires
        text.spec_bytes().len() <= u32::MAX,
    ensures
        r@ == scale_bytes(text.spec_bytes()),
{
    parity_scale_codec::Encode::encode(text)
}

/// Appends `src` to `dst`.
pub(crate) fn append_bytes(dst: &mut Vec<u8>, src: &[u8])
    ensures
        final(dst)@ == old(dst)@ + src@,
{
    let mut i: usize = 0;
    while i < src.len()
        invariant
            i <= src@.len(),
            dst@ == old(dst)@ + src@.take(i as int),
        decreases src@.len() - i,
    {
        dst.push(src[i]);
        assert(src@.take(i + 1) =~= src@.take(i as int).push(src@[i as int]));
        assert(dst@ =~= old(dst)@ + src@.take(i + 1));
        i += 1;
    }
    assert(src@.take(i as int) =~= src@);
}

} // verus!
