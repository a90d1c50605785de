//! The fixed-size payload that every send carries.

use vstd::prelude::*;

verus! {

/// The byte at position `i` of any payload: the last decimal digit of `i`.
pub open spec fn payload_byte(i: int) -> u8 {
    (i % 10) as u8
}

/// The payload of length `size`: the digits `0..=9` repeated and cut to length.
pub open spec fn payload_seq(size: nat) -> Seq<u8> {
    Seq::new(size, |i: int| payload_byte(i))
}

/// Builds the payload of exactly `size` bytes, byte `i` being `i % 10`.
pub fn make_payload(size: usize) -> (data: Vec<u8>)
    ensures
        data@ == payload_seq(size as nat),
        data@.len() == size,
        forall|i: int| 0 <= i < size ==> #[trigger] data@[i] == i % 10,
{
    let mut data: Vec<u8> = Vec::new();
    let mut i: usize = 0;
    while i < size
        invariant
            i <= size,
            data@ == payload_seq(i as nat),
        decreases size - i,
    {
        data.push((i % 10) as u8);
        i += 1;
        assert(data@ =~= payload_seq(i as nat));
    }
    data
}

} // verus!
