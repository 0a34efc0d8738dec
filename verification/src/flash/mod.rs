use vstd::prelude::*;

pub mod region;

verus! {

/// Size in bytes of one erasable sector of the external SPI flash.
pub const SECTOR_SIZE: u32 = 0x1000;

/// A contiguous span of the external flash, by start address and length.
#[derive(Debug, Clone, Copy, PartialEq, Eq, Structural)]
pub struct Region {
    pub start: u32,
    pub len: u32,
}

impl Region {
    /// The region of `len` bytes that begins at `start`.
    pub fn new(start: u32, len: u32) -> (r: Self)
        ensures
            r.start == start,
            r.len == len,
    {
        Self { start, len }
    }

    /// The first address past the region.
    pub fn end(&self) -> (e: u32)
        requires
            self.start + self.len <= u32::MAX,
        ensures
            e == self.start + self.len,
    {
        self.start + self.len
    }
}

} // verus!
