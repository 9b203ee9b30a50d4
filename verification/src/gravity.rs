//! The `contentsGravity` value that keeps stale frames from being stretched.

use vstd::prelude::*;

verus! {

/// The UTF-8 bytes of `kCAGravityTopLeft`, the name `topLeft`.
pub open spec fn top_left_gravity_name() -> Seq<u8> {
    seq![0x74u8, 0x6fu8, 0x70u8, 0x4cu8, 0x65u8, 0x66u8, 0x74u8]
}

/// The `contentsGravity` value that pins the previous drawable's contents to
/// the layer's top-left corner instead of scaling them to the new bounds, so
/// that during a live resize the area not yet redrawn is clipped, not
/// stretched.
///
/// It comes as a C string: the name's bytes and one terminating NUL, with no
/// NUL before it, ready for `+[NSString stringWithUTF8String:]`.
pub fn top_left_gravity() -> (c_string: Vec<u8>)
    ensures
        c_string@ == top_left_gravity_name().push(0u8),
        forall|i: int| 0 <= i < c_string@.len() - 1 ==> c_string@[i] != 0u8,
        c_string@.last() == 0u8,
{
    let mut c_string: Vec<u8> = Vec::new();
    c_string.push(0x74u8);
    c_string.push(0x6fu8);
    c_string.push(0x70u8);
    c_string.push(0x4cu8);
    c_string.push(0x65u8);
    c_string.push(0x66u8);
    c_string.push(0x74u8);
    c_string.push(0u8);
    assert(c_string@ =~= top_left_gravity_name().push(0u8));
    c_string
}

} // verus!
