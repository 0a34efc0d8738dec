use vstd::prelude::*;

use super::{bit_field, Packet};

verus! {

/// PGN 60928, ISO Address Claim.
#[derive(Debug, Clone, Copy, PartialEq, Eq, Structural)]
pub struct AddressClaim {
    pub unique_number: u32,
    pub manufacturer_code: u16,
    pub device_instance_lower: u8,
    pub device_instance_upper: u8,
    pub device_function: u8,
    pub device_class: u8,
    pub system_instance: u8,
    pub arbitrary_address_capable: bool,
}

/// The value of a one-bit flag.
pub open spec fn flag_bit(b: bool) -> u64 {
    if b {
        1
    } else {
        0
    }
}

/// The data word of an Address Claim packet, the 64-bit NAME: unique number in
/// bits 0 to 20, manufacturer code in 21 to 31, device instance in 32 to 39,
/// function in 40 to 47, bit 48 reserved, device class in 49 to 55, system
/// instance in 56 to 59, the industry group in 60 to 62 (left 0), and the
/// arbitrary-address-capable flag in bit 63. Each field is placed as it is, so
/// a field wider than its slot spills into the next one.
pub open spec fn address_claim_word(
    unique_number: u32,
    manufacturer_code: u16,
    device_instance_lower: u8,
    device_instance_upper: u8,
    device_function: u8,
    device_class: u8,
    system_instance: u8,
    arbitrary_address_capable: bool,
) -> u64 {
    (unique_number as u64) | ((manufacturer_code as u64) << 21u64) | ((device_instance_lower as u64)
        << 32u64) | ((device_instance_upper as u64) << 35u64) | ((device_function as u64) << 40u64)
        | ((device_class as u64) << 49u64) | ((system_instance as u64) << 56u64) | (flag_bit(
        arbitrary_address_capable,
    ) << 63u64)
}

impl AddressClaim {
    pub const PGN: u32 = 0xEE00;

    /// The Address Claim packet that the data word `data` carries.
    pub open spec fn from_word(data: u64) -> AddressClaim {
        AddressClaim {
            unique_number: bit_field(data, 0, 21) as u32,
            manufacturer_code: bit_field(data, 21, 11) as u16,
            device_instance_lower: bit_field(data, 32, 3) as u8,
            device_instance_upper: bit_field(data, 35, 5) as u8,
            device_function: bit_field(data, 40, 8) as u8,
            device_class: bit_field(data, 49, 7) as u8,
            system_instance: bit_field(data, 56, 4) as u8,
            arbitrary_address_capable: bit_field(data, 63, 1) != 0,
        }
    }

    /// The data word that carries this packet.
    pub open spec fn to_word(self) -> u64 {
        address_claim_word(
            self.unique_number,
            self.manufacturer_code,
            self.device_instance_lower,
            self.device_instance_upper,
            self.device_function,
            self.device_class,
            self.system_instance,
            self.arbitrary_address_capable,
        )
    }

    /// Every field fits the width of its slot in the data word.
    pub open spec fn fits(self) -> bool {
        &&& self.unique_number < 0x20_0000
        &&& self.manufacturer_code < 0x800
        &&& self.device_instance_lower < 0x8
        &&& self.device_instance_upper < 0x20
        &&& self.device_class < 0x80
        &&& self.system_instance < 0x10
    }

    /// Reads the packet from the data word of a frame.
    pub fn deserialize(data: u64) -> (a: Self)
        ensures
            a == AddressClaim::from_word(data),
    {
        let unique_number = (data & 0x1F_FFFF) as u32;
        let manufacturer_code = (data >> 21 & 0x7FF) as u16;
        let device_instance_lower = (data >> 32 & 0x7) as u8;
        let device_instance_upper = (data >> 35 & 0x1F) as u8;
        let device_function = (data >> 40 & 0xFF) as u8;
        let device_class = (data >> 49 & 0x7F) as u8;
        let system_instance = (data >> 56 & 0xF) as u8;
        let arbitrary_address_capable = (data >> 63 & 0x1) != 0;
        assert(unique_number == bit_field(data, 0, 21) as u32 && manufacturer_code == bit_field(
            data,
            21,
            11,
        ) as u16 && device_instance_lower == bit_field(data, 32, 3) as u8 && device_instance_upper
            == bit_field(data, 35, 5) as u8 && device_function == bit_field(data, 40, 8) as u8
            && device_class == bit_field(data, 49, 7) as u8 && system_instance == bit_field(
            data,
            56,
            4,
        ) as u8 && arbitrary_address_capable == (bit_field(data, 63, 1) != 0)) by (bit_vector)
            requires
                unique_number == (data & 0x1F_FFFF) as u32,
                manufacturer_code == (data >> 21u64 & 0x7FF) as u16,
                device_instance_lower == (data >> 32u64 & 0x7) as u8,
                device_instance_upper == (data >> 35u64 & 0x1F) as u8,
                device_function == (data >> 40u64 & 0xFF) as u8,
                device_class == (data >> 49u64 & 0x7F) as u8,
                system_instance == (data >> 56u64 & 0xF) as u8,
                arbitrary_address_capable == ((data >> 63u64 & 0x1) != 0),
        ;
        Self {
            unique_number,
            manufacturer_code,
            device_instance_lower,
            device_instance_upper,
            device_function,
            device_class,
            system_instance,
            arbitrary_address_capable,
        }
    }

    /// Writes the packet as the data word of a frame.
    pub fn serialize(&self) -> (data: u64)
        ensures
            data == self.to_word(),
    {
        let capable: u64 = if self.arbitrary_address_capable {
            1
        } else {
            0
        };
        (self.unique_number as u64) | (self.manufacturer_code as u64) << 21
            | (self.device_instance_lower as u64) << 32 | (self.device_instance_upper as u64) << 35
            | (self.device_function as u64) << 40 | (self.device_class as u64) << 49
            | (self.system_instance as u64) << 56 | capable << 63
    }
}

impl Packet for AddressClaim {
    const PGN: u32 = AddressClaim::PGN;

    open spec fn decoded(data: u64) -> Self {
        AddressClaim::from_word(data)
    }

    open spec fn encoded(&self) -> u64 {
        self.to_word()
    }

    open spec fn fits(&self) -> bool {
        AddressClaim::fits(*self)
    }

    fn deserialize(data: u64) -> (a: Self) {
        AddressClaim::deserialize(data)
    }

    fn serialize(&self) -> (data: u64) {
        AddressClaim::serialize(self)
    }

    proof fn lemma_round_trip(p: Self) {
        lemma_address_claim_round_trip(p);
    }
}

/// PGN 59904, ISO Request: asks the receivers to send the named PGN.
#[derive(Debug, Clone, Copy, PartialEq, Eq, Structural)]
pub struct IsoRequest {
    pub pgn: u32,
}

impl IsoRequest {
    pub const PGN: u32 = 0xEA00;

    /// The ISO Request that the data word `data` carries.
    pub open spec fn from_word(data: u64) -> IsoRequest {
        IsoRequest { pgn: bit_field(data, 0, 24) as u32 }
    }

    /// The data word that carries this packet.
    pub open spec fn to_word(self) -> u64 {
        self.pgn as u64
    }

    /// Reads the packet from the data word of a frame.
    pub fn deserialize(data: u64) -> (r: Self)
        ensures
            r == IsoRequest::from_word(data),
    {
        let pgn = (data & 0xFF_FFFF) as u32;
        assert(pgn == bit_field(data, 0, 24) as u32) by (bit_vector)
            requires
                pgn == (data & 0xFF_FFFF) as u32,
        ;
        Self { pgn }
    }

    /// Writes the packet as the data word of a frame.
    pub fn serialize(&self) -> (data: u64)
        ensures
            data == self.to_word(),
    {
        self.pgn as u64
    }
}

impl Packet for IsoRequest {
    const PGN: u32 = IsoRequest::PGN;

    open spec fn decoded(data: u64) -> Self {
        IsoRequest::from_word(data)
    }

    open spec fn encoded(&self) -> u64 {
        self.to_word()
    }

    open spec fn fits(&self) -> bool {
        self.pgn < 0x100_0000
    }

    fn deserialize(data: u64) -> (r: Self) {
        IsoRequest::deserialize(data)
    }

    fn serialize(&self) -> (data: u64) {
        IsoRequest::serialize(self)
    }

    proof fn lemma_round_trip(p: Self) {
        lemma_iso_request_round_trip(p);
    }
}

/// An Address Claim packet whose fields fit their slots survives serializing
/// and deserializing.
pub proof fn lemma_address_claim_round_trip(a: AddressClaim)
    requires
        a.fits(),
    ensures
        AddressClaim::from_word(a.to_word()) == a,
{
    let un = a.unique_number;
    let mc = a.manufacturer_code;
    let dil = a.device_instance_lower;
    let diu = a.device_instance_upper;
    let df = a.device_function;
    let dc = a.device_class;
    let si = a.system_instance;
    let aac = a.arbitrary_address_capable;
    let data = address_claim_word(un, mc, dil, diu, df, dc, si, aac);
    assert(bit_field(data, 0, 21) as u32 == un && bit_field(data, 21, 11) as u16 == mc
        && bit_field(data, 32, 3) as u8 == dil && bit_field(data, 35, 5) as u8 == diu && bit_field(
        data,
        40,
        8,
    ) as u8 == df && bit_field(data, 49, 7) as u8 == dc && bit_field(data, 56, 4) as u8 == si
        && (bit_field(data, 63, 1) != 0) == aac) by (bit_vector)
        requires
            un < 0x20_0000,
            mc < 0x800,
            dil < 0x8,
            diu < 0x20,
            dc < 0x80,
            si < 0x10,
            data == address_claim_word(un, mc, dil, diu, df, dc, si, aac),
    ;
}

/// A data word survives deserializing and serializing when the bits that no
/// field covers (the reserved bit 48 and the industry group in bits 60 to 62)
/// are clear.
pub proof fn lemma_address_claim_word_round_trip(data: u64)
    requires
        (data >> 48u64) & 1 == 0,
        (data >> 60u64) & 0x7 == 0,
    ensures
        AddressClaim::from_word(data).to_word() == data,
{
    assert(address_claim_word(
        bit_field(data, 0, 21) as u32,
        bit_field(data, 21, 11) as u16,
        bit_field(data, 32, 3) as u8,
        bit_field(data, 35, 5) as u8,
        bit_field(data, 40, 8) as u8,
        bit_field(data, 49, 7) as u8,
        bit_field(data, 56, 4) as u8,
        bit_field(data, 63, 1) != 0,
    ) == data) by (bit_vector)
        requires
            (data >> 48u64) & 1 == 0,
            (data >> 60u64) & 0x7 == 0,
    ;
}

/// An ISO Request for a PGN that fits in 24 bits survives serializing and
/// deserializing.
pub proof fn lemma_iso_request_round_trip(r: IsoRequest)
    requires
        r.pgn < 0x100_0000,
    ensures
        IsoRequest::from_word(r.to_word()) == r,
{
    let pgn = r.pgn;
    assert(bit_field(pgn as u64, 0, 24) as u32 == pgn) by (bit_vector)
        requires
            pgn < 0x100_0000,
    ;
}

/// A data word below 2^24 survives deserializing and serializing.
pub proof fn lemma_iso_request_word_round_trip(data: u64)
    requires
        data < 0x100_0000,
    ensures
        IsoRequest::from_word(data).to_word() == data,
{
    assert((bit_field(data, 0, 24) as u32) as u64 == data) by (bit_vector)
        requires
            data < 0x100_0000,
    ;
}

/// Where each field of an Address Claim lands in the NAME: unique number in
/// bits 0 to 20, manufacturer code in 21 to 31, lower device instance in 32 to
/// 34, upper device instance in 35 to 39, function in 40 to 47, reserved bit
/// 48 clear, device class in 49 to 55, system instance in 56 to 59, industry
/// group bits 60 to 62 clear, and the arbitrary-address-capable flag in bit 63.
pub proof fn lemma_address_claim_layout(a: AddressClaim)
    requires
        a.fits(),
    ensures
        a.to_word() & 0x1F_FFFF == a.unique_number as u64,
        (a.to_word() >> 21u64) & 0x7FF == a.manufacturer_code as u64,
        (a.to_word() >> 32u64) & 0x7 == a.device_instance_lower as u64,
        (a.to_word() >> 35u64) & 0x1F == a.device_instance_upper as u64,
        (a.to_word() >> 40u64) & 0xFF == a.device_function as u64,
        (a.to_word() >> 48u64) & 0x1 == 0,
        (a.to_word() >> 49u64) & 0x7F == a.device_class as u64,
        (a.to_word() >> 56u64) & 0xF == a.system_instance as u64,
        (a.to_word() >> 60u64) & 0x7 == 0,
        (a.to_word() >> 63u64 == 1) == a.arbitrary_address_capable,
{
    let un = a.unique_number;
    let mc = a.manufacturer_code;
    let dil = a.device_instance_lower;
    let diu = a.device_instance_upper;
    let df = a.device_function;
    let dc = a.device_class;
    let si = a.system_instance;
    let aac = a.arbitrary_address_capable;
    let w = address_claim_word(un, mc, dil, diu, df, dc, si, aac);
    assert(w & 0x1F_FFFF == un as u64 && (w >> 21u64) & 0x7FF == mc as u64 && (w >> 32u64) & 0x7
        == dil as u64 && (w >> 35u64) & 0x1F == diu as u64 && (w >> 40u64) & 0xFF == df as u64
        && (w >> 48u64) & 0x1 == 0 && (w >> 49u64) & 0x7F == dc as u64 && (w >> 56u64) & 0xF
        == si as u64 && (w >> 60u64) & 0x7 == 0 && (w >> 63u64 == 1) == aac) by (bit_vector)
        requires
            un < 0x20_0000,
            mc < 0x800,
            dil < 0x8,
            diu < 0x20,
            dc < 0x80,
            si < 0x10,
            w == address_claim_word(un, mc, dil, diu, df, dc, si, aac),
    ;
}

/// Where each field of a decoded Address Claim comes from in the NAME.
pub proof fn lemma_address_claim_fields(data: u64)
    ensures
        AddressClaim::from_word(data).unique_number as u64 == data & 0x1F_FFFF,
        AddressClaim::from_word(data).manufacturer_code as u64 == (data >> 21u64) & 0x7FF,
        AddressClaim::from_word(data).device_instance_lower as u64 == (data >> 32u64) & 0x7,
        AddressClaim::from_word(data).device_instance_upper as u64 == (data >> 35u64) & 0x1F,
        AddressClaim::from_word(data).device_function as u64 == (data >> 40u64) & 0xFF,
        AddressClaim::from_word(data).device_class as u64 == (data >> 49u64) & 0x7F,
        AddressClaim::from_word(data).system_instance as u64 == (data >> 56u64) & 0xF,
        AddressClaim::from_word(data).arbitrary_address_capable == (data >> 63u64 == 1),
{
    let a = AddressClaim::from_word(data);
    let un = a.unique_number;
    let mc = a.manufacturer_code;
    let dil = a.device_instance_lower;
    let diu = a.device_instance_upper;
    let df = a.device_function;
    let dc = a.device_class;
    let si = a.system_instance;
    let aac = a.arbitrary_address_capable;
    assert(un as u64 == data & 0x1F_FFFF && mc as u64 == (data >> 21u64) & 0x7FF && dil as u64
        == (data >> 32u64) & 0x7 && diu as u64 == (data >> 35u64) & 0x1F && df as u64 == (data
        >> 40u64) & 0xFF && dc as u64 == (data >> 49u64) & 0x7F && si as u64 == (data >> 56u64)
        & 0xF && aac == (data >> 63u64 == 1)) by (bit_vector)
        requires
            un == bit_field(data, 0, 21) as u32,
            mc == bit_field(data, 21, 11) as u16,
            dil == bit_field(data, 32, 3) as u8,
            diu == bit_field(data, 35, 5) as u8,
            df == bit_field(data, 40, 8) as u8,
            dc == bit_field(data, 49, 7) as u8,
            si == bit_field(data, 56, 4) as u8,
            aac == (bit_field(data, 63, 1) != 0),
    ;
}

/// An ISO Request carries the requested PGN as its data word, and reading a
/// word gives its low 24 bits, data page included.
pub proof fn lemma_iso_request_layout(r: IsoRequest, data: u64)
    ensures
        r.to_word() == r.pgn as u64,
        IsoRequest::from_word(data).pgn as u64 == data & 0xFF_FFFF,
{
    let pgn = IsoRequest::from_word(data).pgn;
    assert(pgn as u64 == data & 0xFF_FFFF) by (bit_vector)
        requires
            pgn == bit_field(data, 0, 24) as u32,
    ;
}

} // verus!
