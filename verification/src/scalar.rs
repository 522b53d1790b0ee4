//! Scalars of the secp256k1 group as fixed-width big-endian byte strings.

use vstd::prelude::*;

verus! {

/// The number that `bytes` spell, most significant byte first.
pub open spec fn be_value(bytes: Seq<u8>) -> nat
    decreases bytes.len(),
{
    if bytes.len() == 0 {
        0
    } else {
        256 * be_value(bytes.drop_last()) + bytes.last() as nat
    }
}

/// The order of the secp256k1 group, as 32 big-endian bytes.
pub open spec fn group_order_bytes() -> Seq<u8> {
    seq![
        0xffu8, 0xff, 0xff, 0xff, 0xff, 0xff, 0xff, 0xff,
        0xff, 0xff, 0xff, 0xff, 0xff, 0xff, 0xff, 0xfe,
        0xba, 0xae, 0xdc, 0xe6, 0xaf, 0x48, 0xa0, 0x3b,
        0xbf, 0xd2, 0x5e, 0x8c, 0xd0, 0x36, 0x41, 0x41,
    ]
}

/// The order of the secp256k1 group.
pub open spec fn group_order() -> nat {
    be_value(group_order_bytes())
}

/// A secret scalar: 32 bytes that spell a number from 1 to the group order
/// less one.
pub open spec fn is_secret_scalar(bytes: Seq<u8>) -> bool {
    &&& bytes.len() == 32
    &&& 0 < be_value(bytes) < group_order()
}

/// A signature in compact form: 64 bytes, two 32-byte numbers `r` and `s`,
/// each below the group order.
pub open spec fn is_compact_signature(bytes: Seq<u8>) -> bool {
    &&& bytes.len() == 64
    &&& be_value(bytes.subrange(0, 32)) < group_order()
    &&& be_value(bytes.subrange(32, 64)) < group_order()
}

/// Whether `r` or `s` of a compact signature is zero.
pub open spec fn has_zero_component(bytes: Seq<u8>) -> bool {
    be_value(bytes.subrange(0, 32)) == 0 || be_value(bytes.subrange(32, 64)) == 0
}

} // verus!
