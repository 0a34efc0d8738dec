use vstd::prelude::*;

use super::Region;

verus! {

/// The region that holds a staged firmware image for the updater.
pub fn update() -> (r: Region)
    ensures
        r.start == 0x500000,
        r.len == 0x300000,
{
    Region::new(0x500000, 0x300000)
}

} // verus!
