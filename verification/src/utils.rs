//! Small payload helpers shared by the request builders.

use vstd::prelude::*;

verus! {

/// Join two four-byte halves into one eight-byte payload, first half
/// first.
pub fn combine_data(data1: [u8; 4], data2: [u8; 4]) -> (r: [u8; 8])
    ensures
        r@ == data1@ + data2@,
{
    let r: [u8; 8] = [
        data1[0],
        data1[1],
        data1[2],
        data1[3],
        data2[0],
        data2[1],
        data2[2],
        data2[3],
    ];
    proof {
        assert(r@ =~= data1@ + data2@);
    }
    r
}

} // verus!
