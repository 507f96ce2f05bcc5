//! Small helpers on byte strings.

use vstd::prelude::*;

verus! {

/// Appends `piece` to `buffer`.
pub fn append_bytes(buffer: &mut Vec<u8>, piece: &[u8])
    ensures
        final(buffer)@ == old(buffer)@ + piece@,
{
    let ghost before = buffer@;
    let mut i: usize = 0;
    while i < piece.len()
        invariant
            i <= piece@.len(),
            buffer@ == before + piece@.subrange(0, i as int),
        decreases piece@.len() - i,
    {
        buffer.push(piece[i]);
        i += 1;
        assert(piece@.subrange(0, i as int) == piece@.subrange(0, i - 1).push(piece@[i - 1]));
    }
    assert(piece@.subrange(0, i as int) == piece@);
}

/// An owned copy of a byte string.
pub fn copy_bytes(bytes: &[u8]) -> (copy: Vec<u8>)
    ensures
        copy@ == bytes@,
{
    let mut copy: Vec<u8> = Vec::new();
    append_bytes(&mut copy, bytes);
    copy
}

/// Whether two byte strings are the same.
pub fn bytes_equal(left: &[u8], right: &[u8]) -> (answer: bool)
    ensures
        answer == (left@ == right@),
{
    if left.len() != right.len() {
        return false;
    }
    let mut i: usize = 0;
    while i < left.len()
        invariant
            i <= left@.len(),
            left@.len() == right@.len(),
            forall|k: int| 0 <= k < i ==> left@[k] == right@[k],
        decreases left@.len() - i,
    {
        if left[i] != right[i] {
            return false;
        }
        i += 1;
    }
    assert(left@ =~= right@);
    true
}

/// The bytes in the opposite order.
pub fn reversed(bytes: &Vec<u8>) -> (turned: Vec<u8>)
    ensures
        turned@ == bytes@.reverse(),
{
    let mut turned: Vec<u8> = Vec::new();
    let mut left: usize = bytes.len();
    while left > 0
        invariant
            left <= bytes@.len(),
            turned@.len() == bytes@.len() - left,
            forall|k: int| 0 <= k < turned@.len() ==> turned@[k] == bytes@[bytes@.len() - 1 - k],
        decreases left,
    {
        left -= 1;
        turned.push(bytes[left]);
    }
    assert(turned@ =~= bytes@.reverse());
    turned
}

} // verus!
