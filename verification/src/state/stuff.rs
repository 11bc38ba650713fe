use vstd::prelude::*;

verus! {

/// A record for trying things out.
#[derive(Clone, Copy, Debug, PartialEq, Eq)]
pub struct Stuff {
    pub number: u8,
    pub x: i64,
}

} // verus!
