//! Laws of the operations themselves.
use crate::hw::{append, bit, modified, Op};
use vstd::prelude::*;

verus! {

/// A bit is set after a read-modify-write if it was to be set, or if it was set before and
/// not to be cleared.
pub proof fn bits_are_cleared_and_set(read: u32, clear: u32, set: u32, r: u32, i: u32)
    requires
        call_ensures(modified, (read, clear, set), r),
        i < 32,
    ensures
        bit(set, i) ==> bit(r, i),
        !bit(set, i) && bit(clear, i) ==> !bit(r, i),
        !bit(set, i) && !bit(clear, i) ==> bit(r, i) == bit(read, i),
{
}

/// Appended operations come behind the ones that are there.
pub proof fn operations_are_appended(ops: &mut Vec<Op>, more: Vec<Op>, i: int)
    requires
        call_ensures(append, (ops, more), ()),
    ensures
        final(ops)@.len() == old(ops)@.len() + more@.len(),
        0 <= i < old(ops)@.len() ==> final(ops)@[i] == old(ops)@[i],
        0 <= i < more@.len() ==> final(ops)@[old(ops)@.len() + i] == more@[i],
{
}

} // verus!
