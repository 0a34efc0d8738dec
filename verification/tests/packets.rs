use nmea2000::packets::environment::WaterDepth;
use nmea2000::packets::handshake::{AddressClaim, IsoRequest};
use nmea2000::packets::proprietary::{SimnetAp, SimnetAp2, SimnetApStatus};
use nmea2000::packets::{decode, AnyPacket, Packet};

#[test]
fn water_depth_fields() {
    let w = WaterDepth::deserialize(0x0500_1000_0012_3412);
    assert_eq!(w.sid, 0x12);
    assert_eq!(w.depth, 0x1234);
    assert_eq!(w.offset, 0x10);
    assert_eq!(w.range, 5);
    assert_eq!(w.serialize(), 0x0500_1000_0012_3412);
}

#[test]
fn water_depth_negative_offset_keeps_range() {
    let w = WaterDepth { sid: 0x12, depth: 0x1234, offset: -2, range: 5 };
    assert_eq!(w.serialize(), 0x05FF_FE00_0012_3412);
    assert_eq!(WaterDepth::deserialize(w.serialize()), w);
    let w = WaterDepth { sid: 0, depth: 0, offset: -1, range: 0 };
    assert_eq!(w.serialize(), 0x00FF_FF00_0000_0000);
    assert_eq!(WaterDepth::deserialize(w.serialize()), w);
}

#[test]
fn water_depth_extreme_offsets_round_trip() {
    for offset in [i16::MIN, -300, 0, 300, i16::MAX] {
        let w = WaterDepth { sid: 1, depth: u32::MAX, offset, range: 0xA5 };
        assert_eq!(WaterDepth::deserialize(w.serialize()), w);
    }
}

fn own_claim() -> AddressClaim {
    AddressClaim {
        unique_number: 1824691,
        manufacturer_code: 2000,
        device_instance_lower: 0,
        device_instance_upper: 0,
        device_function: 150,
        device_class: 80,
        system_instance: 0,
        arbitrary_address_capable: false,
    }
}

#[test]
fn address_claim_serialize() {
    assert_eq!(own_claim().serialize(), 0x00A0_9600_FA1B_D7B3);
}

#[test]
fn address_claim_round_trip() {
    assert_eq!(AddressClaim::deserialize(0x00A0_9600_FA1B_D7B3), own_claim());
}

#[test]
fn address_claim_flag_and_instances() {
    let a = AddressClaim {
        unique_number: 0x1F_FFFF,
        manufacturer_code: 0x7FF,
        device_instance_lower: 7,
        device_instance_upper: 0x1F,
        device_function: 0xFF,
        device_class: 0x7F,
        system_instance: 0xF,
        arbitrary_address_capable: true,
    };
    let data = a.serialize();
    assert_eq!(data, 0x8FFE_FFFF_FFFF_FFFF);
    assert_eq!(data >> 63, 1);
    assert_eq!(AddressClaim::deserialize(data), a);
}

#[test]
fn address_claim_ignores_reserved_bit_and_industry_group() {
    let a = AddressClaim::deserialize(0x7001_0000_0000_0000);
    assert_eq!(a, AddressClaim::deserialize(0));
    assert!(!a.arbitrary_address_capable);
}

#[test]
fn address_claim_flag_is_bit_63() {
    let a = AddressClaim::deserialize(0x8000_0000_0000_0000);
    assert!(a.arbitrary_address_capable);
    assert_eq!(a.unique_number, 0);
    assert_eq!(a.system_instance, 0);
    let capable = AddressClaim { arbitrary_address_capable: true, ..own_claim() };
    assert_eq!(capable.serialize(), 0x80A0_9600_FA1B_D7B3);
}

#[test]
fn address_claim_wide_field_spills() {
    let a = AddressClaim { unique_number: 0x20_0000, ..own_claim() };
    let back = AddressClaim::deserialize(a.serialize());
    assert_eq!(back.unique_number, 0);
    assert_eq!(back.manufacturer_code, 2001);
}

#[test]
fn iso_request_masks_to_24_bits() {
    assert_eq!(IsoRequest::deserialize(0xAB01_F801).pgn, 0x01_F801);
    assert_eq!(IsoRequest { pgn: 0x1F801 }.serialize(), 0x1F801);
    assert_eq!(IsoRequest { pgn: 0xFF00_0000 }.serialize(), 0xFF00_0000);
}

#[test]
fn simnet_ap_serialize() {
    let p = SimnetAp { address: 6, proprietary: 255, command: 10, event: 6 };
    assert_eq!(
        p.serialize(),
        [0x41, 0x87, 6, 0xFF, 255, 10, 6, 0xFF, 0xFF, 0xFF, 0xFF, 0xFF]
    );
}

#[test]
fn simnet_ap_round_trip() {
    let p = SimnetAp { address: 1, proprietary: 2, command: 3, event: 4 };
    let bytes = p.serialize();
    assert_eq!(SimnetAp::deserialize(&bytes), p);
    assert_eq!(SimnetAp::deserialize(&bytes[..7]), p);
}

#[test]
fn simnet_ap2_serialize() {
    let p = SimnetAp2 { a: 0x00, b: 0x00, c: 0xFE, d: 0xF8, e: 0x00 };
    assert_eq!(p.serialize(), 0x8000_F8FE_0000_9F41);
    assert_eq!(SimnetAp2::deserialize(0x8000_F8FE_0000_9F41), p);
}

#[test]
fn simnet_ap2_carries_manufacturer_and_industry() {
    let data = SimnetAp2 { a: 1, b: 2, c: 3, d: 4, e: 5 }.serialize();
    assert_eq!(data & 0x7FF, 1857);
    assert_eq!((data >> 13) & 0x7, 4);
}

#[test]
fn simnet_ap_status_round_trip() {
    let p = SimnetApStatus { model: 0x11, report: 0x22, status: 0x33 };
    assert_eq!(p.serialize(), 0x33_2211_9F41);
    assert_eq!(SimnetApStatus::deserialize(p.serialize()), p);
    assert_eq!(SimnetApStatus::deserialize(0xFFFF_FF33_2211_0000), p);
}

#[test]
fn packet_trait_matches_inherent_codecs() {
    assert_eq!(<WaterDepth as Packet>::PGN, 128267);
    assert_eq!(<AddressClaim as Packet>::PGN, 60928);
    assert_eq!(<IsoRequest as Packet>::PGN, 59904);
    assert_eq!(<SimnetAp2 as Packet>::PGN, 65340);
    assert_eq!(<SimnetApStatus as Packet>::PGN, 65305);
    assert_eq!(SimnetAp::PGN, 0x1FF22);
    let data = 0x0500_1000_0012_3412;
    assert_eq!(<WaterDepth as Packet>::deserialize(data), WaterDepth::deserialize(data));
    let r = IsoRequest { pgn: 0xEE00 };
    assert_eq!(<IsoRequest as Packet>::serialize(&r), 0xEE00);
}

#[test]
fn simnet_ap_try_deserialize() {
    let p = SimnetAp { address: 6, proprietary: 255, command: 10, event: 6 };
    let bytes = p.serialize();
    assert!(SimnetAp::accepts_payload(&bytes));
    assert_eq!(SimnetAp::try_deserialize(&bytes), Some(p));
    assert_eq!(SimnetAp::try_deserialize(&bytes[..6]), None);
    let mut other_maker = bytes;
    other_maker[0] = 0x42;
    assert_eq!(SimnetAp::try_deserialize(&other_maker), None);
    let mut other_industry = bytes;
    other_industry[1] = 0x67;
    assert_eq!(SimnetAp::try_deserialize(&other_industry), None);
    let mut reserved_bits = bytes;
    reserved_bits[1] = 0x9F;
    assert_eq!(SimnetAp::try_deserialize(&reserved_bits), Some(p));
}

#[test]
fn decode_by_pgn() {
    assert_eq!(
        decode(60928, 0x00A0_9600_FA1B_D7B3),
        Some(AnyPacket::AddressClaim(own_claim()))
    );
    assert_eq!(
        decode(65340, 0x8000_F8FE_0000_9F41),
        Some(AnyPacket::SimnetAp2(SimnetAp2 { a: 0, b: 0, c: 0xFE, d: 0xF8, e: 0 }))
    );
    assert_eq!(decode(59904, 0xEE00), Some(AnyPacket::IsoRequest(IsoRequest { pgn: 0xEE00 })));
    assert_eq!(
        decode(128267, 0x0500_1000_0012_3412),
        Some(AnyPacket::WaterDepth(WaterDepth { sid: 0x12, depth: 0x1234, offset: 0x10, range: 5 }))
    );
    assert_eq!(
        decode(65305, 0x33_2211_9F41),
        Some(AnyPacket::SimnetApStatus(SimnetApStatus { model: 0x11, report: 0x22, status: 0x33 }))
    );
    assert_eq!(decode(0x1FF22, 0), None);
    assert_eq!(decode(129025, 0), None);
}
