use vstd::prelude::*;

use crate::ble::Characteristic;
use crate::text::{
    decimal, is_number_text, lemma_decimal_reads_back, push_decimal, push_digits, text_value,
};

verus! {

/// What the firmware knows of the boat.
pub struct Boat {
    pub latitude: i32,
    pub longitude: i32,
    pub speed_over_ground: u16,
}

impl Default for Boat {
    fn default() -> (b: Self)
        ensures
            b.latitude == 0,
            b.longitude == 0,
            b.speed_over_ground == 0,
    {
        Boat { latitude: 0, longitude: 0, speed_over_ground: 0 }
    }
}

impl Boat {
    /// The value that a read of characteristic `c` returns: the position as
    /// "longitude, latitude", or the speed over ground, in decimal text.
    pub open spec fn value_of(self, c: Characteristic) -> Seq<u8> {
        match c {
            Characteristic::Position => decimal(self.longitude as int) + seq![0x2Cu8, 0x20u8]
                + decimal(self.latitude as int),
            Characteristic::Speed => decimal(self.speed_over_ground as int),
        }
    }

    /// Records a position fix.
    pub fn position_update(&mut self, lat: i32, lon: i32)
        ensures
            final(self).latitude == lat,
            final(self).longitude == lon,
            final(self).speed_over_ground == old(self).speed_over_ground,
    {
        self.latitude = lat;
        self.longitude = lon;
    }

    /// Records a speed over ground.
    pub fn speed_update(&mut self, speed: u16)
        ensures
            final(self).speed_over_ground == speed,
            final(self).latitude == old(self).latitude,
            final(self).longitude == old(self).longitude,
    {
        self.speed_over_ground = speed;
    }

    /// The value that a read of characteristic `c` returns.
    pub fn characteristic_value(&self, c: Characteristic) -> (v: Vec<u8>)
        ensures
            v@ == self.value_of(c),
    {
        let mut out: Vec<u8> = Vec::new();
        match c {
            Characteristic::Position => {
                push_decimal(&mut out, self.longitude);
                out.push(0x2C);
                out.push(0x20);
                push_decimal(&mut out, self.latitude);
                assert(out@ =~= self.value_of(c));
            },
            Characteristic::Speed => {
                push_digits(&mut out, self.speed_over_ground as u32);
                assert(out@ =~= self.value_of(c));
            },
        }
        out
    }
}

/// A read of the position characteristic gives the longitude's signed decimal
/// text, then ", ", then the latitude's signed decimal text; each part reads
/// back as the coordinate, and neither holds a comma, so the text splits at
/// its only ", ".
pub proof fn lemma_position_text(boat: Boat)
    ensures
        ({
            let t = boat.value_of(Characteristic::Position);
            let k = decimal(boat.longitude as int).len() as int;
            &&& 0 < k && k + 2 < t.len()
            &&& is_number_text(t.subrange(0, k))
            &&& text_value(t.subrange(0, k)) == boat.longitude
            &&& t[k] == 0x2C && t[k + 1] == 0x20
            &&& is_number_text(t.subrange(k + 2, t.len() as int))
            &&& text_value(t.subrange(k + 2, t.len() as int)) == boat.latitude
        }),
{
    let lon = decimal(boat.longitude as int);
    let lat = decimal(boat.latitude as int);
    lemma_decimal_reads_back(boat.longitude as int);
    lemma_decimal_reads_back(boat.latitude as int);
    let t = boat.value_of(Characteristic::Position);
    let k = lon.len() as int;
    assert(t.subrange(0, k) =~= lon);
    assert(t.subrange(k + 2, t.len() as int) =~= lat);
}

/// A read of the speed characteristic gives the speed over ground's decimal
/// text, with no sign.
pub proof fn lemma_speed_text(boat: Boat)
    ensures
        is_number_text(boat.value_of(Characteristic::Speed)),
        boat.value_of(Characteristic::Speed)[0] != 0x2D,
        text_value(boat.value_of(Characteristic::Speed)) == boat.speed_over_ground,
{
    lemma_decimal_reads_back(boat.speed_over_ground as int);
}

} // verus!
