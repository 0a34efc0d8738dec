use vstd::prelude::*;

use super::{bit_field, Packet};

verus! {

/// PGN 128267, Water Depth.
#[derive(Debug, Clone, Copy, PartialEq, Eq, Structural)]
pub struct WaterDepth {
    pub sid: u8,
    pub depth: u32,
    pub offset: i16,
    pub range: u8,
}

/// The data word of a Water Depth packet: the sequence id in byte 0, the depth
/// in bytes 1 to 4, the offset as a two's-complement 16-bit value in bytes 5
/// and 6, and the range in byte 7.
pub open spec fn water_depth_word(sid: u8, depth: u32, offset: i16, range: u8) -> u64 {
    (sid as u64) | ((depth as u64) << 8u64) | (((offset as u16) as u64) << 40u64) | ((
    range as u64) << 56u64)
}

impl WaterDepth {
    pub const PGN: u32 = 0x1F50B;

    /// The Water Depth packet that the data word `data` carries.
    pub open spec fn from_word(data: u64) -> WaterDepth {
        WaterDepth {
            sid: bit_field(data, 0, 8) as u8,
            depth: bit_field(data, 8, 32) as u32,
            offset: bit_field(data, 40, 16) as i16,
            range: bit_field(data, 56, 8) as u8,
        }
    }

    /// The data word that carries this packet.
    pub open spec fn to_word(self) -> u64 {
        water_depth_word(self.sid, self.depth, self.offset, self.range)
    }

    /// Reads the packet from the data word of a frame.
    pub fn deserialize(data: u64) -> (w: Self)
        ensures
            w == WaterDepth::from_word(data),
    {
        let sid = (data & 0xFF) as u8;
        let depth = (data >> 8 & 0xFFFF_FFFF) as u32;
        let offset = (data >> 40 & 0xFFFF) as i16;
        let range = (data >> 56 & 0xFF) as u8;
        assert(sid == bit_field(data, 0, 8) as u8 && depth == bit_field(data, 8, 32) as u32
            && offset == bit_field(data, 40, 16) as i16 && range == bit_field(data, 56, 8) as u8)
            by (bit_vector)
            requires
                sid == (data & 0xFF) as u8,
                depth == (data >> 8u64 & 0xFFFF_FFFF) as u32,
                offset == (data >> 40u64 & 0xFFFF) as i16,
                range == (data >> 56u64 & 0xFF) as u8,
        ;
        Self { sid, depth, offset, range }
    }

    /// Writes the packet as the data word of a frame.
    pub fn serialize(&self) -> (data: u64)
        ensures
            data == self.to_word(),
    {
        (self.sid as u64) | (self.depth as u64) << 8 | ((self.offset as u16) as u64) << 40
            | (self.range as u64) << 56
    }
}

impl Packet for WaterDepth {
    const PGN: u32 = WaterDepth::PGN;

    open spec fn decoded(data: u64) -> Self {
        WaterDepth::from_word(data)
    }

    open spec fn encoded(&self) -> u64 {
        self.to_word()
    }

    open spec fn fits(&self) -> bool {
        true
    }

    fn deserialize(data: u64) -> (w: Self) {
        WaterDepth::deserialize(data)
    }

    fn serialize(&self) -> (data: u64) {
        WaterDepth::serialize(self)
    }

    proof fn lemma_round_trip(p: Self) {
        lemma_water_depth_round_trip(p);
    }
}

/// Every Water Depth packet survives serializing and deserializing.
pub proof fn lemma_water_depth_round_trip(w: WaterDepth)
    ensures
        WaterDepth::from_word(w.to_word()) == w,
{
    let sid = w.sid;
    let depth = w.depth;
    let offset = w.offset;
    let range = w.range;
    let data = water_depth_word(sid, depth, offset, range);
    assert(bit_field(data, 0, 8) as u8 == sid && bit_field(data, 8, 32) as u32 == depth
        && bit_field(data, 40, 16) as i16 == offset && bit_field(data, 56, 8) as u8 == range)
        by (bit_vector)
        requires
            data == water_depth_word(sid, depth, offset, range),
    ;
}

/// Every data word survives deserializing and serializing.
pub proof fn lemma_water_depth_word_round_trip(data: u64)
    ensures
        WaterDepth::from_word(data).to_word() == data,
{
    assert(water_depth_word(
        bit_field(data, 0, 8) as u8,
        bit_field(data, 8, 32) as u32,
        bit_field(data, 40, 16) as i16,
        bit_field(data, 56, 8) as u8,
    ) == data) by (bit_vector);
}

/// Where each field of a Water Depth packet lands in the data word: sequence
/// id in byte 0, depth in bytes 1 to 4, the offset's 16-bit two's complement
/// in bytes 5 and 6, range in byte 7; and where a decoded packet's fields come
/// from.
pub proof fn lemma_water_depth_layout(w: WaterDepth, data: u64)
    ensures
        w.to_word() & 0xFF == w.sid as u64,
        (w.to_word() >> 8u64) & 0xFFFF_FFFF == w.depth as u64,
        (w.to_word() >> 40u64) & 0xFFFF == (w.offset as u16) as u64,
        w.to_word() >> 56u64 == w.range as u64,
        WaterDepth::from_word(data).sid as u64 == data & 0xFF,
        WaterDepth::from_word(data).depth as u64 == (data >> 8u64) & 0xFFFF_FFFF,
        (WaterDepth::from_word(data).offset as u16) as u64 == (data >> 40u64) & 0xFFFF,
        WaterDepth::from_word(data).range as u64 == data >> 56u64,
{
    let sid = w.sid;
    let depth = w.depth;
    let offset = w.offset;
    let range = w.range;
    let x = water_depth_word(sid, depth, offset, range);
    assert(x & 0xFF == sid as u64 && (x >> 8u64) & 0xFFFF_FFFF == depth as u64 && (x >> 40u64)
        & 0xFFFF == (offset as u16) as u64 && x >> 56u64 == range as u64) by (bit_vector)
        requires
            x == water_depth_word(sid, depth, offset, range),
    ;
    let d = WaterDepth::from_word(data);
    let (dsid, ddepth, doffset, drange) = (d.sid, d.depth, d.offset, d.range);
    assert(dsid as u64 == data & 0xFF && ddepth as u64 == (data >> 8u64) & 0xFFFF_FFFF && (
    doffset as u16) as u64 == (data >> 40u64) & 0xFFFF && drange as u64 == data >> 56u64)
        by (bit_vector)
        requires
            dsid == bit_field(data, 0, 8) as u8,
            ddepth == bit_field(data, 8, 32) as u32,
            doffset == bit_field(data, 40, 16) as i16,
            drange == bit_field(data, 56, 8) as u8,
    ;
}

} // verus!
