use vstd::prelude::*;

use super::{bit_field, Packet};

verus! {

/// Manufacturer code of Simrad/Navico, which Simnet packets carry.
pub const SIMNET_MANUFACTURER: u16 = 1857;

/// Industry code of the marine industry.
pub const MARINE_INDUSTRY: u8 = 4;

/// The manufacturer code in the first two bytes of a proprietary payload: the
/// first byte and the low three bits of the second.
pub open spec fn payload_manufacturer(bytes: Seq<u8>) -> int {
    bytes[0] + (bytes[1] as int % 8) * 0x100
}

/// The industry code in the top three bits of the second payload byte.
pub open spec fn payload_industry(bytes: Seq<u8>) -> int {
    bytes[1] as int / 0x20
}

/// The manufacturer code in the low eleven bits of a proprietary data word.
pub open spec fn word_manufacturer(data: u64) -> u64 {
    bit_field(data, 0, 11)
}

/// The industry code in bits 13 to 15 of a proprietary data word.
pub open spec fn word_industry(data: u64) -> u64 {
    bit_field(data, 13, 3)
}

/// The first two bytes of every Simnet data word: the manufacturer code, both
/// reserved bits set, and the industry code.
pub open spec fn simnet_header_word() -> u64 {
    (SIMNET_MANUFACTURER as u64) | (0b11u64 << 11u64) | ((MARINE_INDUSTRY as u64) << 13u64)
}

/// Simnet autopilot command, a twelve-byte proprietary payload.
#[derive(Debug, Clone, Copy, PartialEq, Eq, Structural)]
pub struct SimnetAp {
    pub address: u8,
    pub proprietary: u8,
    pub command: u8,
    pub event: u8,
}

impl SimnetAp {
    pub const PGN: u32 = 0x1FF22;

    /// The command that `bytes` carries.
    pub open spec fn from_bytes(bytes: Seq<u8>) -> SimnetAp {
        SimnetAp { address: bytes[2], proprietary: bytes[4], command: bytes[5], event: bytes[6] }
    }

    /// Whether `bytes` is long enough and starts with Simnet's manufacturer and
    /// industry codes.
    pub open spec fn accepts(bytes: Seq<u8>) -> bool {
        &&& bytes.len() >= 7
        &&& payload_manufacturer(bytes) == SIMNET_MANUFACTURER
        &&& payload_industry(bytes) == MARINE_INDUSTRY
    }

    /// The payload that carries this command: the manufacturer and industry
    /// codes, the address, 0xFF, the three command bytes, and 0xFF padding.
    pub open spec fn to_bytes(self) -> Seq<u8> {
        seq![
            0x41u8,
            0x87u8,
            self.address,
            0xFF,
            self.proprietary,
            self.command,
            self.event,
            0xFF,
            0xFF,
            0xFF,
            0xFF,
            0xFF,
        ]
    }

    /// Reads the command from a payload that carries Simnet's codes.
    pub fn deserialize(data: &[u8]) -> (p: Self)
        requires
            SimnetAp::accepts(data@),
        ensures
            p == SimnetAp::from_bytes(data@),
    {
        Self { address: data[2], proprietary: data[4], command: data[5], event: data[6] }
    }

    /// Whether `data` is long enough and carries Simnet's manufacturer and
    /// industry codes, as `deserialize` requires.
    pub fn accepts_payload(data: &[u8]) -> (b: bool)
        ensures
            b == SimnetAp::accepts(data@),
    {
        if data.len() < 7 {
            return false;
        }
        let (first, second) = (data[0], data[1]);
        let manufacturer = (first as u16) | (((second & 0x7) as u16) << 8);
        let industry = (second >> 5) & 0x7;
        assert(manufacturer as int == first + (second as int % 8) * 0x100 && industry as int
            == second as int / 0x20) by (bit_vector)
            requires
                manufacturer == (first as u16) | (((second & 0x7) as u16) << 8u16),
                industry == (second >> 5u8) & 0x7,
        ;
        manufacturer == SIMNET_MANUFACTURER && industry == MARINE_INDUSTRY
    }

    /// The command that `data` carries, or `None` where `deserialize` would
    /// refuse it.
    pub fn try_deserialize(data: &[u8]) -> (p: Option<Self>)
        ensures
            p == if SimnetAp::accepts(data@) {
                Some(SimnetAp::from_bytes(data@))
            } else {
                None
            },
    {
        if SimnetAp::accepts_payload(data) {
            Some(SimnetAp::deserialize(data))
        } else {
            None
        }
    }

    /// Writes the command as a twelve-byte payload.
    pub fn serialize(&self) -> (out: [u8; 12])
        ensures
            out@ == self.to_bytes(),
    {
        let manufacturer_low = (SIMNET_MANUFACTURER & 0xFF) as u8;
        let manufacturer_high = (SIMNET_MANUFACTURER >> 8) as u8;
        let out = [
            manufacturer_low,
            manufacturer_high | MARINE_INDUSTRY << 5,
            self.address,
            0xFF,
            self.proprietary,
            self.command,
            self.event,
            0xFF,
            0xFF,
            0xFF,
            0xFF,
            0xFF,
        ];
        assert(manufacturer_low == 0x41 && (manufacturer_high | MARINE_INDUSTRY << 5) == 0x87)
            by (bit_vector)
            requires
                manufacturer_low == (1857u16 & 0xFF) as u8,
                manufacturer_high == (1857u16 >> 8u16) as u8,
                MARINE_INDUSTRY == 4,
        ;
        assert(out@ =~= self.to_bytes());
        out
    }
}

/// Simnet autopilot packet of unknown purpose, PGN 65340.
#[derive(Debug, Clone, Copy, PartialEq, Eq, Structural)]
pub struct SimnetAp2 {
    pub a: u8,
    pub b: u8,
    pub c: u8,
    pub d: u8,
    pub e: u8,
}

/// The data word of a SimnetAp2 packet: the Simnet header, the five bytes, and
/// 0x80 in the top byte.
pub open spec fn simnet_ap2_word(a: u8, b: u8, c: u8, d: u8, e: u8) -> u64 {
    simnet_header_word() | ((a as u64) << 16u64) | ((b as u64) << 24u64) | ((c as u64) << 32u64)
        | ((d as u64) << 40u64) | ((e as u64) << 48u64) | (0x80u64 << 56u64)
}

impl SimnetAp2 {
    pub const PGN: u32 = 0xFF3C;

    /// The packet that the data word `data` carries.
    pub open spec fn from_word(data: u64) -> SimnetAp2 {
        SimnetAp2 {
            a: bit_field(data, 16, 8) as u8,
            b: bit_field(data, 24, 8) as u8,
            c: bit_field(data, 32, 8) as u8,
            d: bit_field(data, 40, 8) as u8,
            e: bit_field(data, 48, 8) as u8,
        }
    }

    /// The data word that carries this packet.
    pub open spec fn to_word(self) -> u64 {
        simnet_ap2_word(self.a, self.b, self.c, self.d, self.e)
    }

    /// Reads the packet from the data word of a frame.
    pub fn deserialize(data: u64) -> (p: Self)
        ensures
            p == SimnetAp2::from_word(data),
    {
        let a = (data >> 16 & 0xFF) as u8;
        let b = (data >> 24 & 0xFF) as u8;
        let c = (data >> 32 & 0xFF) as u8;
        let d = (data >> 40 & 0xFF) as u8;
        let e = (data >> 48 & 0xFF) as u8;
        assert(a == bit_field(data, 16, 8) as u8 && b == bit_field(data, 24, 8) as u8 && c
            == bit_field(data, 32, 8) as u8 && d == bit_field(data, 40, 8) as u8 && e == bit_field(
            data,
            48,
            8,
        ) as u8) by (bit_vector)
            requires
                a == (data >> 16u64 & 0xFF) as u8,
                b == (data >> 24u64 & 0xFF) as u8,
                c == (data >> 32u64 & 0xFF) as u8,
                d == (data >> 40u64 & 0xFF) as u8,
                e == (data >> 48u64 & 0xFF) as u8,
        ;
        Self { a, b, c, d, e }
    }

    /// Writes the packet as the data word of a frame.
    pub fn serialize(&self) -> (data: u64)
        ensures
            data == self.to_word(),
    {
        let header = SIMNET_MANUFACTURER as u64 | 0b11 << 11 | (MARINE_INDUSTRY as u64) << 13;
        header | (self.a as u64) << 16 | (self.b as u64) << 24 | (self.c as u64) << 32
            | (self.d as u64) << 40 | (self.e as u64) << 48 | 0x80 << 56
    }
}

impl Packet for SimnetAp2 {
    const PGN: u32 = SimnetAp2::PGN;

    open spec fn decoded(data: u64) -> Self {
        SimnetAp2::from_word(data)
    }

    open spec fn encoded(&self) -> u64 {
        self.to_word()
    }

    open spec fn fits(&self) -> bool {
        true
    }

    fn deserialize(data: u64) -> (p: Self) {
        SimnetAp2::deserialize(data)
    }

    fn serialize(&self) -> (data: u64) {
        SimnetAp2::serialize(self)
    }

    proof fn lemma_round_trip(p: Self) {
        lemma_simnet_ap2_round_trip(p);
    }
}

/// Simnet device status, PGN 65305.
#[derive(Debug, Clone, Copy, PartialEq, Eq, Structural)]
pub struct SimnetApStatus {
    pub model: u8,
    pub report: u8,
    pub status: u8,
}

/// The data word of a device status packet: the Simnet header and the three
/// status bytes.
pub open spec fn simnet_ap_status_word(model: u8, report: u8, status: u8) -> u64 {
    simnet_header_word() | ((model as u64) << 16u64) | ((report as u64) << 24u64) | ((
    status as u64) << 32u64)
}

impl SimnetApStatus {
    pub const PGN: u32 = 0xFF19;

    /// The packet that the data word `data` carries.
    pub open spec fn from_word(data: u64) -> SimnetApStatus {
        SimnetApStatus {
            model: bit_field(data, 16, 8) as u8,
            report: bit_field(data, 24, 8) as u8,
            status: bit_field(data, 32, 8) as u8,
        }
    }

    /// The data word that carries this packet.
    pub open spec fn to_word(self) -> u64 {
        simnet_ap_status_word(self.model, self.report, self.status)
    }

    /// Reads the packet from the data word of a frame.
    pub fn deserialize(data: u64) -> (p: Self)
        ensures
            p == SimnetApStatus::from_word(data),
    {
        let model = (data >> 16 & 0xFF) as u8;
        let report = (data >> 24 & 0xFF) as u8;
        let status = (data >> 32 & 0xFF) as u8;
        assert(model == bit_field(data, 16, 8) as u8 && report == bit_field(data, 24, 8) as u8
            && status == bit_field(data, 32, 8) as u8) by (bit_vector)
            requires
                model == (data >> 16u64 & 0xFF) as u8,
                report == (data >> 24u64 & 0xFF) as u8,
                status == (data >> 32u64 & 0xFF) as u8,
        ;
        Self { model, report, status }
    }

    /// Writes the packet as the data word of a frame.
    pub fn serialize(&self) -> (data: u64)
        ensures
            data == self.to_word(),
    {
        let header = SIMNET_MANUFACTURER as u64 | 0b11 << 11 | (MARINE_INDUSTRY as u64) << 13;
        header | (self.model as u64) << 16 | (self.report as u64) << 24 | (self.status as u64)
            << 32
    }
}

impl Packet for SimnetApStatus {
    const PGN: u32 = SimnetApStatus::PGN;

    open spec fn decoded(data: u64) -> Self {
        SimnetApStatus::from_word(data)
    }

    open spec fn encoded(&self) -> u64 {
        self.to_word()
    }

    open spec fn fits(&self) -> bool {
        true
    }

    fn deserialize(data: u64) -> (p: Self) {
        SimnetApStatus::deserialize(data)
    }

    fn serialize(&self) -> (data: u64) {
        SimnetApStatus::serialize(self)
    }

    proof fn lemma_round_trip(p: Self) {
        lemma_simnet_ap_status_round_trip(p);
    }
}

/// A serialized autopilot command carries Simnet's manufacturer and industry
/// codes, so deserializing accepts it, and it gives the command back.
pub proof fn lemma_simnet_ap_round_trip(p: SimnetAp)
    ensures
        SimnetAp::accepts(p.to_bytes()),
        SimnetAp::from_bytes(p.to_bytes()) == p,
{
}

/// A twelve-byte payload with the constant bytes that serializing writes
/// survives deserializing and serializing.
pub proof fn lemma_simnet_ap_bytes_round_trip(bytes: Seq<u8>)
    requires
        bytes.len() == 12,
        bytes[0] == 0x41,
        bytes[1] == 0x87,
        bytes[3] == 0xFF,
        forall|i: int| 7 <= i < 12 ==> bytes[i] == 0xFF,
    ensures
        SimnetAp::from_bytes(bytes).to_bytes() == bytes,
{
    assert(SimnetAp::from_bytes(bytes).to_bytes() =~= bytes);
}

/// A SimnetAp2 packet survives serializing and deserializing, and its data
/// word carries Simnet's manufacturer and industry codes.
pub proof fn lemma_simnet_ap2_round_trip(p: SimnetAp2)
    ensures
        SimnetAp2::from_word(p.to_word()) == p,
        word_manufacturer(p.to_word()) == SIMNET_MANUFACTURER,
        word_industry(p.to_word()) == MARINE_INDUSTRY,
{
    let (a, b, c, d, e) = (p.a, p.b, p.c, p.d, p.e);
    let data = simnet_ap2_word(a, b, c, d, e);
    assert(bit_field(data, 16, 8) as u8 == a && bit_field(data, 24, 8) as u8 == b && bit_field(
        data,
        32,
        8,
    ) as u8 == c && bit_field(data, 40, 8) as u8 == d && bit_field(data, 48, 8) as u8 == e
        && word_manufacturer(data) == 1857 && word_industry(data) == 4) by (bit_vector)
        requires
            data == simnet_ap2_word(a, b, c, d, e),
    ;
}

/// A data word with the Simnet header in its low two bytes and 0x80 in its top
/// byte survives deserializing and serializing.
pub proof fn lemma_simnet_ap2_word_round_trip(data: u64)
    requires
        data & 0xFFFF == simnet_header_word(),
        data >> 56u64 == 0x80,
    ensures
        SimnetAp2::from_word(data).to_word() == data,
{
    assert(simnet_ap2_word(
        bit_field(data, 16, 8) as u8,
        bit_field(data, 24, 8) as u8,
        bit_field(data, 32, 8) as u8,
        bit_field(data, 40, 8) as u8,
        bit_field(data, 48, 8) as u8,
    ) == data) by (bit_vector)
        requires
            data & 0xFFFF == simnet_header_word(),
            data >> 56u64 == 0x80,
    ;
}

/// A device status packet survives serializing and deserializing, and its data
/// word carries Simnet's manufacturer and industry codes.
pub proof fn lemma_simnet_ap_status_round_trip(p: SimnetApStatus)
    ensures
        SimnetApStatus::from_word(p.to_word()) == p,
        word_manufacturer(p.to_word()) == SIMNET_MANUFACTURER,
        word_industry(p.to_word()) == MARINE_INDUSTRY,
{
    let (model, report, status) = (p.model, p.report, p.status);
    let data = simnet_ap_status_word(model, report, status);
    assert(bit_field(data, 16, 8) as u8 == model && bit_field(data, 24, 8) as u8 == report
        && bit_field(data, 32, 8) as u8 == status && word_manufacturer(data) == 1857
        && word_industry(data) == 4) by (bit_vector)
        requires
            data == simnet_ap_status_word(model, report, status),
    ;
}

/// A data word with the Simnet header in its low two bytes and nothing above
/// bit 39 survives deserializing and serializing.
pub proof fn lemma_simnet_ap_status_word_round_trip(data: u64)
    requires
        data & 0xFFFF == simnet_header_word(),
        data >> 40u64 == 0,
    ensures
        SimnetApStatus::from_word(data).to_word() == data,
{
    assert(simnet_ap_status_word(
        bit_field(data, 16, 8) as u8,
        bit_field(data, 24, 8) as u8,
        bit_field(data, 32, 8) as u8,
    ) == data) by (bit_vector)
        requires
            data & 0xFFFF == simnet_header_word(),
            data >> 40u64 == 0,
    ;
}

/// The byte layout of an autopilot command payload: the manufacturer code 1857
/// (0x741) in byte 0 and the low three bits of byte 1, the industry code 4 in
/// the top three bits of byte 1, the address in byte 2, 0xFF in byte 3, the
/// proprietary, command and event bytes in bytes 4, 5 and 6, and 0xFF padding
/// to twelve bytes; and which bytes a decoded command comes from.
pub proof fn lemma_simnet_ap_layout(p: SimnetAp, bytes: Seq<u8>)
    ensures
        p.to_bytes().len() == 12,
        p.to_bytes()[0] == 0x41,
        p.to_bytes()[1] == 0x87,
        payload_manufacturer(p.to_bytes()) == 1857,
        payload_industry(p.to_bytes()) == 4,
        p.to_bytes()[2] == p.address,
        p.to_bytes()[3] == 0xFF,
        p.to_bytes()[4] == p.proprietary,
        p.to_bytes()[5] == p.command,
        p.to_bytes()[6] == p.event,
        forall|i: int| 7 <= i < 12 ==> p.to_bytes()[i] == 0xFF,
        SimnetAp::from_bytes(bytes).address == bytes[2],
        SimnetAp::from_bytes(bytes).proprietary == bytes[4],
        SimnetAp::from_bytes(bytes).command == bytes[5],
        SimnetAp::from_bytes(bytes).event == bytes[6],
{
}

/// Where each byte of a SimnetAp2 packet lands in the data word: the Simnet
/// header 0x9F41 in bytes 0 and 1, a to e in bytes 2 to 6, 0x80 in byte 7; and
/// where a decoded packet's bytes come from.
pub proof fn lemma_simnet_ap2_layout(p: SimnetAp2, data: u64)
    ensures
        p.to_word() & 0xFFFF == 0x9F41,
        (p.to_word() >> 16u64) & 0xFF == p.a as u64,
        (p.to_word() >> 24u64) & 0xFF == p.b as u64,
        (p.to_word() >> 32u64) & 0xFF == p.c as u64,
        (p.to_word() >> 40u64) & 0xFF == p.d as u64,
        (p.to_word() >> 48u64) & 0xFF == p.e as u64,
        p.to_word() >> 56u64 == 0x80,
        SimnetAp2::from_word(data).a as u64 == (data >> 16u64) & 0xFF,
        SimnetAp2::from_word(data).b as u64 == (data >> 24u64) & 0xFF,
        SimnetAp2::from_word(data).c as u64 == (data >> 32u64) & 0xFF,
        SimnetAp2::from_word(data).d as u64 == (data >> 40u64) & 0xFF,
        SimnetAp2::from_word(data).e as u64 == (data >> 48u64) & 0xFF,
{
    let (a, b, c, d, e) = (p.a, p.b, p.c, p.d, p.e);
    let w = simnet_ap2_word(a, b, c, d, e);
    assert(w & 0xFFFF == 0x9F41 && (w >> 16u64) & 0xFF == a as u64 && (w >> 24u64) & 0xFF
        == b as u64 && (w >> 32u64) & 0xFF == c as u64 && (w >> 40u64) & 0xFF == d as u64 && (w
        >> 48u64) & 0xFF == e as u64 && w >> 56u64 == 0x80) by (bit_vector)
        requires
            w == simnet_ap2_word(a, b, c, d, e),
    ;
    let q = SimnetAp2::from_word(data);
    let (qa, qb, qc, qd, qe) = (q.a, q.b, q.c, q.d, q.e);
    assert(qa as u64 == (data >> 16u64) & 0xFF && qb as u64 == (data >> 24u64) & 0xFF && qc as u64
        == (data >> 32u64) & 0xFF && qd as u64 == (data >> 40u64) & 0xFF && qe as u64 == (data
        >> 48u64) & 0xFF) by (bit_vector)
        requires
            qa == bit_field(data, 16, 8) as u8,
            qb == bit_field(data, 24, 8) as u8,
            qc == bit_field(data, 32, 8) as u8,
            qd == bit_field(data, 40, 8) as u8,
            qe == bit_field(data, 48, 8) as u8,
    ;
}

/// Where each byte of a device status packet lands in the data word: the
/// Simnet header 0x9F41 in bytes 0 and 1, model, report and status in bytes 2
/// to 4, and nothing above; and where a decoded packet's bytes come from.
pub proof fn lemma_simnet_ap_status_layout(p: SimnetApStatus, data: u64)
    ensures
        p.to_word() & 0xFFFF == 0x9F41,
        (p.to_word() >> 16u64) & 0xFF == p.model as u64,
        (p.to_word() >> 24u64) & 0xFF == p.report as u64,
        (p.to_word() >> 32u64) & 0xFF == p.status as u64,
        p.to_word() >> 40u64 == 0,
        SimnetApStatus::from_word(data).model as u64 == (data >> 16u64) & 0xFF,
        SimnetApStatus::from_word(data).report as u64 == (data >> 24u64) & 0xFF,
        SimnetApStatus::from_word(data).status as u64 == (data >> 32u64) & 0xFF,
{
    let (m, r, st) = (p.model, p.report, p.status);
    let w = simnet_ap_status_word(m, r, st);
    assert(w & 0xFFFF == 0x9F41 && (w >> 16u64) & 0xFF == m as u64 && (w >> 24u64) & 0xFF
        == r as u64 && (w >> 32u64) & 0xFF == st as u64 && w >> 40u64 == 0) by (bit_vector)
        requires
            w == simnet_ap_status_word(m, r, st),
    ;
    let q = SimnetApStatus::from_word(data);
    let (qm, qr, qs) = (q.model, q.report, q.status);
    assert(qm as u64 == (data >> 16u64) & 0xFF && qr as u64 == (data >> 24u64) & 0xFF && qs as u64
        == (data >> 32u64) & 0xFF) by (bit_vector)
        requires
            qm == bit_field(data, 16, 8) as u8,
            qr == bit_field(data, 24, 8) as u8,
            qs == bit_field(data, 32, 8) as u8,
    ;
}

/// A payload is accepted exactly when it has at least seven bytes, byte 0 is
/// 0x41, the low three bits of byte 1 are 0b111 (together 1857), and the top
/// three bits of byte 1 are 0b100 (industry 4); bits 3 and 4 of byte 1 may be
/// anything.
pub proof fn lemma_simnet_ap_accepts(bytes: Seq<u8>)
    ensures
        SimnetAp::accepts(bytes) == (bytes.len() >= 7 && bytes[0] == 0x41 && bytes[1] % 8 == 7
            && bytes[1] / 32 == 4),
{
}

} // verus!
