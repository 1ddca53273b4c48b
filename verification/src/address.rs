//! Plain account addresses and membership tests on address lists.

use vstd::prelude::*;

verus! {

/// A 256-bit account address, held as two 128-bit halves so that equality is
/// plain structural equality on integers.
#[derive(Clone, Copy, PartialEq, Eq, Structural, Debug)]
pub struct Address {
    pub hi: u128,
    pub lo: u128,
}

impl Address {
    /// Builds the address whose high and low halves are `hi` and `lo`.
    pub fn new(hi: u128, lo: u128) -> (r: Address)
        ensures
            r == (Address { hi, lo }),
    {
        Address { hi, lo }
    }
}

/// True iff `list` holds `addr`.
pub fn list_contains(list: &Vec<Address>, addr: Address) -> (r: bool)
    ensures
        r == list@.contains(addr),
{
    let mut i: usize = 0;
    while i < list.len()
        invariant
            i <= list@.len(),
            forall|j: int| 0 <= j < i ==> list@[j] != addr,
        decreases list@.len() - i,
    {
        if list[i] == addr {
            assert(list@.contains(addr)) by {
                assert(list@[i as int] == addr);
            }
            return true;
        }
        i += 1;
    }
    false
}

} // verus!
