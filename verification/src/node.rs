use vstd::prelude::*;

use crate::header::{encode_id, is_canonical_id, Header};
use crate::packets::handshake::AddressClaim;

verus! {

/// Source address that this node uses on the bus.
pub const OWN_ADDRESS: u8 = 11;

/// Priority of the frames that this node sends.
pub const OWN_PRIORITY: u8 = 6;

/// The NAME that this node claims its address with.
pub open spec fn own_claim() -> AddressClaim {
    AddressClaim {
        unique_number: 1824691,
        manufacturer_code: 2000,
        device_instance_lower: 0,
        device_instance_upper: 0,
        device_function: 150,
        device_class: 80,
        system_instance: 0,
        arbitrary_address_capable: false,
    }
}

/// The header of the frames with which this node claims its address.
pub open spec fn own_claim_header() -> Header {
    Header { priority: OWN_PRIORITY, source: OWN_ADDRESS, pgn: AddressClaim::PGN }
}

/// The NAME that this node claims its address with.
pub fn own_address_claim() -> (a: AddressClaim)
    ensures
        a == own_claim(),
{
    AddressClaim {
        unique_number: 1824691,
        manufacturer_code: 2000,
        device_instance_lower: 0,
        device_instance_upper: 0,
        device_function: 150,
        device_class: 80,
        system_instance: 0,
        arbitrary_address_capable: false,
    }
}

/// The frame, as extended identifier and data word, with which this node
/// answers a received frame with header `header`: an address claim from
/// another node is answered with this node's own claim, anything else with
/// nothing.
pub fn reply_to(header: &Header) -> (reply: Option<(u32, u64)>)
    ensures
        reply == if header.pgn == AddressClaim::PGN {
            Some((own_claim_header().to_id(), own_claim().to_word()))
        } else {
            None
        },
{
    if header.pgn == AddressClaim::PGN {
        let id = Header::new(AddressClaim::PGN, OWN_PRIORITY, OWN_ADDRESS).serialize();
        let data = own_address_claim().serialize();
        Some((id, data))
    } else {
        None
    }
}

/// The reply to an address claim is a valid extended identifier, and it
/// decodes to this node's claim header and NAME.
pub proof fn lemma_claim_reply_decodes()
    ensures
        is_canonical_id(own_claim_header().to_id()),
        Header::from_id(own_claim_header().to_id()) == own_claim_header(),
        AddressClaim::from_word(own_claim().to_word()) == own_claim(),
{
    assert(is_canonical_id(encode_id(6, 11, 0xEE00))) by (bit_vector);
    assert(crate::header::is_canonical_pgn(0xEE00)) by (bit_vector);
    crate::header::lemma_header_round_trip(own_claim_header());
    crate::packets::handshake::lemma_address_claim_round_trip(own_claim());
}

/// This node answers an address claim as source 11 with priority 6, in the
/// identifier 0x18EEFF0B, claiming the NAME 0x00A0_9600_FA1B_D7B3: unique
/// number 1824691, manufacturer 2000, function 150, class 80, instances 0,
/// not arbitrary-address capable.
pub proof fn lemma_claim_reply_values()
    ensures
        own_claim_header().to_id() == 0x18EE_FF0B,
        own_claim().to_word() == 0x00A0_9600_FA1B_D7B3,
{
    assert(encode_id(6, 11, 0xEE00) == 0x18EE_FF0B) by (bit_vector);
    assert(crate::packets::handshake::address_claim_word(1824691, 2000, 0, 0, 150, 80, 0, false)
        == 0x00A0_9600_FA1B_D7B3) by (bit_vector);
}

} // verus!
