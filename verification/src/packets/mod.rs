use vstd::prelude::*;

use environment::WaterDepth;
use handshake::{AddressClaim, IsoRequest};
use proprietary::{SimnetAp2, SimnetApStatus};

pub mod environment;
pub mod handshake;
pub mod proprietary;

verus! {

/// The `width` bits of `word` that start at bit `lo`, for `0 < width <= 64`.
pub open spec fn bit_field(word: u64, lo: u64, width: u64) -> u64 {
    (word >> lo) & (u64::MAX >> ((64 - width) as u64))
}

/// A single-frame NMEA 2000 packet whose eight data bytes are read as one
/// little-endian word.
pub trait Packet: Sized {
    /// The parameter group number that identifies this packet.
    const PGN: u32;

    /// The packet that the data word `data` carries.
    spec fn decoded(data: u64) -> Self;

    /// The data word that carries this packet.
    spec fn encoded(&self) -> u64;

    /// Every field fits its slot in the data word.
    spec fn fits(&self) -> bool;

    /// Reads the packet from the data word of a frame.
    fn deserialize(data: u64) -> (p: Self)
        ensures
            p == Self::decoded(data),
    ;

    /// Writes the packet as the data word of a frame.
    fn serialize(&self) -> (data: u64)
        ensures
            data == self.encoded(),
    ;

    /// A packet whose fields fit their slots survives serializing and
    /// deserializing.
    proof fn lemma_round_trip(p: Self)
        requires
            p.fits(),
        ensures
            Self::decoded(p.encoded()) == p,
    ;
}

/// A single-frame packet of one of the known PGNs.
#[derive(Debug, Clone, Copy, PartialEq, Eq, Structural)]
pub enum AnyPacket {
    WaterDepth(WaterDepth),
    AddressClaim(AddressClaim),
    IsoRequest(IsoRequest),
    SimnetAp2(SimnetAp2),
    SimnetApStatus(SimnetApStatus),
}

/// The packet that a frame of `pgn` with data word `data` carries, if `pgn` is
/// one of the single-frame PGNs this library knows.
pub open spec fn decoded_packet(pgn: u32, data: u64) -> Option<AnyPacket> {
    if pgn == WaterDepth::PGN {
        Some(AnyPacket::WaterDepth(WaterDepth::from_word(data)))
    } else if pgn == AddressClaim::PGN {
        Some(AnyPacket::AddressClaim(AddressClaim::from_word(data)))
    } else if pgn == IsoRequest::PGN {
        Some(AnyPacket::IsoRequest(IsoRequest::from_word(data)))
    } else if pgn == SimnetAp2::PGN {
        Some(AnyPacket::SimnetAp2(SimnetAp2::from_word(data)))
    } else if pgn == SimnetApStatus::PGN {
        Some(AnyPacket::SimnetApStatus(SimnetApStatus::from_word(data)))
    } else {
        None
    }
}

/// Decodes the data word of a frame of `pgn`.
pub fn decode(pgn: u32, data: u64) -> (p: Option<AnyPacket>)
    ensures
        p == decoded_packet(pgn, data),
{
    if pgn == WaterDepth::PGN {
        Some(AnyPacket::WaterDepth(WaterDepth::deserialize(data)))
    } else if pgn == AddressClaim::PGN {
        Some(AnyPacket::AddressClaim(AddressClaim::deserialize(data)))
    } else if pgn == IsoRequest::PGN {
        Some(AnyPacket::IsoRequest(IsoRequest::deserialize(data)))
    } else if pgn == SimnetAp2::PGN {
        Some(AnyPacket::SimnetAp2(SimnetAp2::deserialize(data)))
    } else if pgn == SimnetApStatus::PGN {
        Some(AnyPacket::SimnetApStatus(SimnetApStatus::deserialize(data)))
    } else {
        None
    }
}

/// `decode` hands the whole data word to the decoder of the packet that the PGN
/// names: 128267 Water Depth, 60928 Address Claim, 59904 ISO Request, 65340
/// SimnetAp2 and 65305 Simnet device status; any other PGN decodes to nothing.
pub proof fn lemma_decode_dispatch(pgn: u32, data: u64)
    ensures
        decoded_packet(128267, data) == Some(AnyPacket::WaterDepth(WaterDepth::from_word(data))),
        decoded_packet(60928, data) == Some(
            AnyPacket::AddressClaim(AddressClaim::from_word(data)),
        ),
        decoded_packet(59904, data) == Some(AnyPacket::IsoRequest(IsoRequest::from_word(data))),
        decoded_packet(65340, data) == Some(AnyPacket::SimnetAp2(SimnetAp2::from_word(data))),
        decoded_packet(65305, data) == Some(
            AnyPacket::SimnetApStatus(SimnetApStatus::from_word(data)),
        ),
        pgn != 128267 && pgn != 60928 && pgn != 59904 && pgn != 65340 && pgn != 65305
            ==> decoded_packet(pgn, data) is None,
{
}

} // verus!
