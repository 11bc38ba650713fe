use crate::state::stuff::Stuff;
use vstd::prelude::*;

verus! {

/// Creates the record for trying things out: its number is 7.
pub fn init(x: i64) -> (stuff: Stuff)
    ensures
        stuff == (Stuff { number: 7, x }),
{
    Stuff { number: 7, x }
}

} // verus!
