use nmea2000::ble::{Characteristic, CharacteristicHandles, POSITION, SERVICE, SPEED};
use nmea2000::flash::{region, Region, SECTOR_SIZE};
use nmea2000::header::Header;
use nmea2000::indicator::IndicatorEvent;
use nmea2000::node::{own_address_claim, reply_to};
use nmea2000::packets::handshake::AddressClaim;

#[test]
fn region_end() {
    let r = Region::new(0x500000, 0x300000);
    assert_eq!(r.start, 0x500000);
    assert_eq!(r.len, 0x300000);
    assert_eq!(r.end(), 0x800000);
    assert_eq!(Region::new(0xFFFF_FFF0, 0xF).end(), 0xFFFF_FFFF);
}

#[test]
fn update_region() {
    assert_eq!(region::update(), Region::new(0x500000, 0x300000));
    assert_eq!(region::update().len % SECTOR_SIZE, 0);
}

#[test]
fn uuids() {
    assert_eq!(POSITION, 0x300b2aec_a094_43fb_98ff_04917cf7a2fb);
    assert_eq!(SPEED, 0xd948b9e5_6626_4d41_8967_c4dca26db1fd);
    assert_eq!(SERVICE, 0x76e20500_da73_4971_bb03_6105e39db3d6);
}

#[test]
fn characteristic_lookup() {
    let mut handles = CharacteristicHandles::default();
    assert_eq!(handles.characteristic(0), Some(Characteristic::Position));
    handles.init(POSITION, 42);
    handles.init(SPEED, 44);
    assert_eq!(handles.characteristic(42), Some(Characteristic::Position));
    assert_eq!(handles.characteristic(44), Some(Characteristic::Speed));
    assert_eq!(handles.characteristic(43), None);
    assert_eq!(handles.characteristic(0), None);
}

#[test]
fn characteristic_shared_handle_prefers_position() {
    let mut handles = CharacteristicHandles::default();
    handles.init(SPEED, 0);
    assert_eq!(handles.characteristic(0), Some(Characteristic::Position));
}

#[test]
fn indicator_event() {
    assert_eq!(IndicatorEvent::CanOnline, IndicatorEvent::CanOnline);
}

#[test]
fn address_claim_is_answered() {
    let claim = Header::deserialize(0x18EE_FF22);
    let (id, data) = reply_to(&claim).unwrap();
    assert_eq!(id, 0x18EE_FF0B);
    assert_eq!(data, 0x00A0_9600_FA1B_D7B3);
    assert_eq!(data, own_address_claim().serialize());
    assert_eq!(Header::deserialize(id), Header::new(AddressClaim::PGN, 6, 11));
    assert_eq!(AddressClaim::deserialize(data), own_address_claim());
}

#[test]
fn other_packets_are_not_answered() {
    assert_eq!(reply_to(&Header::deserialize(0x09F8_0123)), None);
    assert_eq!(reply_to(&Header::new(0xEA00, 6, 1)), None);
}

use nmea2000::ble::{on_gap_event, CharacteristicDecl, GapEvent, GattServer, ServerAction, ServerEvent, APP_ID};
use nmea2000::boat::Boat;
use nmea2000::text::{push_decimal, push_digits};

#[test]
fn decimal_text() {
    let mut out = Vec::new();
    push_decimal(&mut out, -2147483648);
    assert_eq!(out, b"-2147483648".to_vec());
    let mut out = b"x=".to_vec();
    push_decimal(&mut out, 0);
    assert_eq!(out, b"x=0".to_vec());
    let mut out = Vec::new();
    push_digits(&mut out, 4294967295);
    assert_eq!(out, b"4294967295".to_vec());
    for n in [-1000, -7, 1, 9, 10, 99, 100, 123456, 2147483647] {
        let mut out = Vec::new();
        push_decimal(&mut out, n);
        assert_eq!(out, format!("{}", n).into_bytes());
    }
}

#[test]
fn boat_values() {
    let boat = Boat { latitude: 52_123_456, longitude: -4_654_321, speed_over_ground: 512 };
    assert_eq!(boat.characteristic_value(Characteristic::Position), b"-4654321, 52123456".to_vec());
    assert_eq!(boat.characteristic_value(Characteristic::Speed), b"512".to_vec());
    let boat = Boat::default();
    assert_eq!(boat.characteristic_value(Characteristic::Position), b"0, 0".to_vec());
}

#[test]
fn gatt_server_registration() {
    let boat = Boat::default();
    let mut server = GattServer::new();
    assert_eq!(
        server.on_event(ServerEvent::ServiceRegistered { app_id: APP_ID }, &boat),
        ServerAction::CreateService { service: SERVICE, instance: 0, primary: true, num_handles: 10 }
    );
    assert_eq!(
        server.on_event(ServerEvent::ServiceRegistered { app_id: 3 }, &boat),
        ServerAction::Idle
    );
    assert_eq!(
        server.on_event(ServerEvent::ServiceCreated { service_handle: 40 }, &boat),
        ServerAction::StartService {
            service_handle: 40,
            characteristics: vec![declared(POSITION), declared(SPEED)],
        }
    );
}

#[test]
fn gatt_server_answers_reads() {
    let boat = Boat { latitude: 5, longitude: -6, speed_over_ground: 7 };
    let mut server = GattServer::new();
    let added = ServerEvent::CharacteristicAdded { attr_handle: 42, char_uuid: POSITION };
    assert_eq!(server.on_event(added, &boat), ServerAction::Idle);
    server.on_event(ServerEvent::CharacteristicAdded { attr_handle: 44, char_uuid: SPEED }, &boat);
    server.on_event(ServerEvent::PeerConnected { conn_id: 1 }, &boat);
    assert_eq!(
        server.on_event(ServerEvent::Read { conn_id: 1, trans_id: 9, handle: 42 }, &boat),
        ServerAction::Respond { conn_id: 1, trans_id: 9, handle: 42, value: b"-6, 5".to_vec() }
    );
    assert_eq!(
        server.on_event(ServerEvent::Read { conn_id: 1, trans_id: 10, handle: 44 }, &boat),
        ServerAction::Respond { conn_id: 1, trans_id: 10, handle: 44, value: b"7".to_vec() }
    );
    assert_eq!(
        server.on_event(ServerEvent::Read { conn_id: 1, trans_id: 11, handle: 45 }, &boat),
        ServerAction::Idle
    );
    assert_eq!(server.on_event(ServerEvent::PeerDisconnected { conn_id: 1 }, &boat), ServerAction::Idle);
    assert_eq!(server.on_event(ServerEvent::Other, &boat), ServerAction::Idle);
}

fn declared(uuid: u128) -> CharacteristicDecl {
    CharacteristicDecl {
        uuid,
        read_permission: true,
        read_property: true,
        notify_property: true,
        max_len: 20,
        answered_by_app: true,
    }
}

#[test]
fn advertising_starts_once_configured() {
    assert!(on_gap_event(GapEvent::AdvertisingConfigured));
    assert!(!on_gap_event(GapEvent::Other));
}

#[test]
fn boat_updates() {
    let mut boat = Boat { latitude: 1, longitude: 2, speed_over_ground: 3 };
    boat.position_update(-10, 20);
    assert_eq!((boat.latitude, boat.longitude, boat.speed_over_ground), (-10, 20, 3));
    boat.speed_update(77);
    assert_eq!((boat.latitude, boat.longitude, boat.speed_over_ground), (-10, 20, 77));
    assert_eq!(boat.characteristic_value(Characteristic::Speed), b"77".to_vec());
}
