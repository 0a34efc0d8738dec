use vstd::prelude::*;

verus! {

// The 29-bit extended CAN identifier of an NMEA 2000 frame is laid out as
//   bits 26..29  priority
//   bit  25      reserved (extended data page)
//   bit  24      data page
//   bits 16..24  PDU format
//   bits  8..16  PDU specific (destination address, or group extension)
//   bits  0..8   source address

/// Priority field of an identifier.
pub open spec fn id_priority(id: u32) -> u32 {
    (id >> 26u32) & 0x7
}

/// Data page bit of an identifier.
pub open spec fn id_data_page(id: u32) -> u32 {
    (id >> 24u32) & 0x1
}

/// PDU format byte of an identifier.
pub open spec fn id_pdu_format(id: u32) -> u32 {
    (id >> 16u32) & 0xFF
}

/// PDU specific byte of an identifier.
pub open spec fn id_pdu_specific(id: u32) -> u32 {
    (id >> 8u32) & 0xFF
}

/// Source address of an identifier.
pub open spec fn id_source(id: u32) -> u32 {
    id & 0xFF
}

/// PDU formats below 0xF0 are addressed (PDU1): their PDU specific byte is a
/// destination address and is not part of the PGN.
pub open spec fn is_addressed(pdu_format: int) -> bool {
    pdu_format < 0xF0
}

/// PDU format byte of a parameter group number.
pub open spec fn pgn_pdu_format(pgn: u32) -> u32 {
    (pgn >> 8u32) & 0xFF
}

/// The parameter group number that an identifier carries.
pub open spec fn id_pgn(id: u32) -> int {
    id_data_page(id) * 0x10000 + id_pdu_format(id) * 0x100 + if is_addressed(
        id_pdu_format(id) as int,
    ) {
        0
    } else {
        id_pdu_specific(id) as int
    }
}

/// A PGN that an identifier can carry: it fits the data page, PDU format and
/// PDU specific fields, and an addressed PGN has a zero low byte.
pub open spec fn is_canonical_pgn(pgn: u32) -> bool {
    &&& pgn < 0x20000
    &&& is_addressed(pgn_pdu_format(pgn) as int) ==> pgn & 0xFF == 0
}

/// An identifier that `Header::serialize` can produce: 29 bits, the reserved
/// bit clear, and an addressed frame sent to the global address 0xFF.
pub open spec fn is_canonical_id(id: u32) -> bool {
    &&& id < 0x2000_0000
    &&& (id >> 25u32) & 1 == 0
    &&& is_addressed(id_pdu_format(id) as int) ==> id_pdu_specific(id) == 0xFF
}

/// The identifier for a frame of `pgn` with `priority` from `source`. Only the
/// low three bits of the priority are sent; an addressed PGN goes to the global
/// address 0xFF.
pub open spec fn encode_id(priority: u8, source: u8, pgn: u32) -> u32 {
    let data_page = (pgn >> 16u32) & 1;
    let pdu_format = pgn_pdu_format(pgn);
    let pdu_specific = if is_addressed(pdu_format as int) {
        0xFF
    } else {
        pgn & 0xFF
    };
    ((priority as int % 8) * 0x400_0000 + data_page * 0x100_0000 + pdu_format * 0x1_0000
        + pdu_specific * 0x100 + source as int) as u32
}

/// The header of an NMEA 2000 frame, as carried by its extended CAN identifier.
#[derive(Debug, Clone, Copy, PartialEq, Eq, Structural)]
pub struct Header {
    pub priority: u8,
    pub source: u8,
    pub pgn: u32,
}

impl Header {
    /// The header that identifier `id` carries.
    pub open spec fn from_id(id: u32) -> Header {
        Header {
            priority: id_priority(id) as u8,
            source: id_source(id) as u8,
            pgn: id_pgn(id) as u32,
        }
    }

    /// The identifier that carries this header.
    pub open spec fn to_id(self) -> u32 {
        encode_id(self.priority, self.source, self.pgn)
    }

    /// A header for `pgn` sent with `priority` from address `source`.
    pub fn new(pgn: u32, priority: u8, source: u8) -> (h: Self)
        ensures
            h.pgn == pgn,
            h.priority == priority,
            h.source == source,
    {
        Self { priority, source, pgn }
    }

    /// The header that the extended identifier `id` carries.
    pub fn deserialize(id: u32) -> (h: Self)
        ensures
            h == Header::from_id(id),
    {
        let priority = ((id >> 26) & 0x7) as u8;
        let source = (id & 0xFF) as u8;
        let data_page = (id >> 24) & 1;
        let pdu_format = ((id >> 16) & 0xFF) as u8;
        let pdu_specific = ((id >> 8) & 0xFF) as u8;
        let pgn = if pdu_format < 0xF0 {
            (data_page << 16) | ((pdu_format as u32) << 8)
        } else {
            (data_page << 16) | ((pdu_format as u32) << 8) | (pdu_specific as u32)
        };
        assert(pgn as int == id_pgn(id)) by (bit_vector)
            requires
                data_page == (id >> 24u32) & 1,
                pdu_format == ((id >> 16u32) & 0xFF) as u8,
                pdu_specific == ((id >> 8u32) & 0xFF) as u8,
                pdu_format < 0xF0 ==> pgn == (data_page << 16u32) | ((pdu_format as u32) << 8u32),
                pdu_format >= 0xF0 ==> pgn == (data_page << 16u32) | ((pdu_format as u32) << 8u32)
                    | (pdu_specific as u32),
        ;
        Self { priority, source, pgn }
    }

    /// The extended identifier that carries this header.
    pub fn serialize(&self) -> (id: u32)
        ensures
            id == self.to_id(),
    {
        let pgn = self.pgn;
        let priority = self.priority;
        let source = self.source;
        let data_page = (pgn >> 16) & 1;
        let pdu_format = (pgn >> 8) & 0xFF;
        let pdu_specific = if pdu_format < 0xF0 {
            0xFF
        } else {
            pgn & 0xFF
        };
        let id = ((priority as u32 & 0x7) << 26) | (data_page << 24) | (pdu_format << 16) | (
        pdu_specific << 8) | (source as u32 & 0xFF);
        assert(id == encode_id(priority, source, pgn)) by (bit_vector)
            requires
                data_page == (pgn >> 16u32) & 1,
                pdu_format == (pgn >> 8u32) & 0xFF,
                pdu_format < 0xF0 ==> pdu_specific == 0xFF,
                pdu_format >= 0xF0 ==> pdu_specific == pgn & 0xFF,
                id == ((priority as u32 & 0x7) << 26u32) | (data_page << 24u32) | (pdu_format
                    << 16u32) | (pdu_specific << 8u32) | (source as u32 & 0xFF),
        ;
        id
    }
}

/// Every decoded header has a priority that fits in three bits and a PGN that an
/// identifier can carry.
pub proof fn lemma_decoded_header_is_canonical(id: u32)
    ensures
        Header::from_id(id).priority < 8,
        is_canonical_pgn(Header::from_id(id).pgn),
{
    assert(id_priority(id) < 8) by (bit_vector);
    assert(is_canonical_pgn(id_pgn(id) as u32)) by (bit_vector);
}

/// Serializing a header and deserializing the identifier gives the header back,
/// for a priority below 8 and a canonical PGN.
pub proof fn lemma_header_round_trip(h: Header)
    requires
        h.priority < 8,
        is_canonical_pgn(h.pgn),
    ensures
        Header::from_id(h.to_id()) == h,
{
    let priority = h.priority;
    let source = h.source;
    let pgn = h.pgn;
    let id = encode_id(priority, source, pgn);
    assert(id_priority(id) == priority as u32) by (bit_vector)
        requires
            priority < 8,
            id == encode_id(priority, source, pgn),
    ;
    assert(id_source(id) == source as u32) by (bit_vector)
        requires
            id == encode_id(priority, source, pgn),
    ;
    assert(id_pgn(id) as u32 == pgn) by (bit_vector)
        requires
            is_canonical_pgn(pgn),
            id == encode_id(priority, source, pgn),
    ;
}

/// Every serialized header is a canonical identifier: it fits the 29 bits of
/// an extended CAN identifier.
pub proof fn lemma_serialized_id_is_canonical(h: Header)
    ensures
        is_canonical_id(h.to_id()),
{
    let priority = h.priority;
    let source = h.source;
    let pgn = h.pgn;
    assert(is_canonical_id(encode_id(priority, source, pgn))) by (bit_vector);
}

/// Deserializing a canonical identifier and serializing the header gives the
/// identifier back.
pub proof fn lemma_id_round_trip(id: u32)
    requires
        is_canonical_id(id),
    ensures
        Header::from_id(id).to_id() == id,
{
    assert(encode_id(id_priority(id) as u8, id_source(id) as u8, id_pgn(id) as u32) == id)
        by (bit_vector)
        requires
            is_canonical_id(id),
    ;
}

/// Where a header lands in its identifier: the low three priority bits in bits
/// 26 to 28, bit 25 clear, the data page bit 16 of the PGN in bit 24, the PDU
/// format (PGN bits 8 to 15) in bits 16 to 23, then the global address 0xFF for
/// an addressed PGN or the PGN's low byte otherwise, and the source in the low
/// byte; and where a decoded header comes from.
pub proof fn lemma_header_layout(h: Header, id: u32)
    ensures
        h.to_id() >> 29u32 == 0,
        (h.to_id() >> 26u32) & 0x7 == (h.priority as u32) & 0x7,
        (h.to_id() >> 25u32) & 0x1 == 0,
        (h.to_id() >> 24u32) & 0x1 == (h.pgn >> 16u32) & 0x1,
        (h.to_id() >> 16u32) & 0xFF == (h.pgn >> 8u32) & 0xFF,
        (h.to_id() >> 8u32) & 0xFF == if (h.pgn >> 8u32) & 0xFF < 0xF0 {
            0xFF
        } else {
            h.pgn & 0xFF
        },
        h.to_id() & 0xFF == h.source as u32,
        Header::from_id(id).priority as u32 == (id >> 26u32) & 0x7,
        Header::from_id(id).source as u32 == id & 0xFF,
        Header::from_id(id).pgn == if (id >> 16u32) & 0xFF < 0xF0 {
            ((id >> 24u32) & 0x1) << 16u32 | ((id >> 16u32) & 0xFF) << 8u32
        } else {
            ((id >> 24u32) & 0x1) << 16u32 | ((id >> 16u32) & 0xFF) << 8u32 | (id >> 8u32) & 0xFF
        },
{
    let (priority, source, pgn) = (h.priority, h.source, h.pgn);
    let x = encode_id(priority, source, pgn);
    assert(x >> 29u32 == 0 && (x >> 26u32) & 0x7 == (priority as u32) & 0x7 && (x >> 25u32) & 0x1
        == 0 && (x >> 24u32) & 0x1 == (pgn >> 16u32) & 0x1 && (x >> 16u32) & 0xFF == (pgn >> 8u32)
        & 0xFF && (x >> 8u32) & 0xFF == (if (pgn >> 8u32) & 0xFF < 0xF0 {
        0xFF
    } else {
        pgn & 0xFF
    }) && x & 0xFF == source as u32) by (bit_vector)
        requires
            x == encode_id(priority, source, pgn),
    ;
    let d = Header::from_id(id);
    let (dp, ds, dg) = (d.priority, d.source, d.pgn);
    assert(dp as u32 == (id >> 26u32) & 0x7 && ds as u32 == id & 0xFF && dg == (if (id >> 16u32)
        & 0xFF < 0xF0 {
        ((id >> 24u32) & 0x1) << 16u32 | ((id >> 16u32) & 0xFF) << 8u32
    } else {
        ((id >> 24u32) & 0x1) << 16u32 | ((id >> 16u32) & 0xFF) << 8u32 | (id >> 8u32) & 0xFF
    })) by (bit_vector)
        requires
            dp == id_priority(id) as u8,
            ds == id_source(id) as u8,
            dg == id_pgn(id) as u32,
    ;
}

} // verus!
