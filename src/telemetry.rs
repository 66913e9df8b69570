//! Sensor telemetry in the Cayenne Low Power Payload (LPP) format.
//!
//! A payload is a run of records: channel byte, type byte and a value whose
//! width the type fixes. Multi-byte values are big-endian.

use std::collections::HashMap;
use vstd::prelude::*;

use crate::scaled::Scaled;
use crate::wire::{copy_bytes, be_i16, be_i24, be_u16, be_u32, read_i16_be, read_i24_be, read_u16_be, read_u32_be};

verus! {

/// A decoded sensor value. Fractional quantities keep their wire integer
/// and divisor.
#[derive(Debug, Clone, PartialEq)]
pub enum TelemetryValue {
    /// Digital input.
    DigitalInput(u8),
    /// Digital output.
    DigitalOutput(u8),
    /// Analog input, in hundredths.
    AnalogInput(Scaled),
    /// Analog output, in hundredths.
    AnalogOutput(Scaled),
    /// Illuminance in lux.
    Illuminance(u16),
    /// Presence.
    Presence(u8),
    /// Temperature in degrees Celsius, in tenths.
    Temperature(Scaled),
    /// Relative humidity in percent, in halves.
    Humidity(Scaled),
    /// Acceleration in g per axis, in thousandths.
    Accelerometer { x: Scaled, y: Scaled, z: Scaled },
    /// Barometric pressure in hPa, in tenths.
    Barometer(Scaled),
    /// Rotation in degrees per second per axis, in hundredths.
    Gyrometer { x: Scaled, y: Scaled, z: Scaled },
    /// Position: degrees in ten-thousandths, altitude in metres in hundredths.
    Gps { latitude: Scaled, longitude: Scaled, altitude: Scaled },
    /// Colour.
    Color { r: u8, g: u8, b: u8 },
    /// Voltage in volts, in hundredths.
    Voltage(Scaled),
    /// Current in amperes, in thousandths.
    Current(Scaled),
    /// Frequency in Hz.
    Frequency(u32),
    /// Percentage.
    Percentage(u8),
    /// Altitude in metres, in hundredths.
    Altitude(Scaled),
    /// Power in watts.
    Power(u16),
    /// Distance in millimetres.
    Distance(u32),
    /// Energy in watt-hours.
    Energy(u32),
    /// Direction in degrees.
    Direction(u16),
    /// Unix time.
    UnixTime(u32),
    /// The remaining bytes of a record of unknown type.
    Generic(Vec<u8>),
}

/// One telemetry record.
#[derive(Debug, Clone)]
pub struct TelemetryReading {
    /// Channel number.
    pub channel: u8,
    /// LPP type code.
    pub lpp_type: u8,
    /// Decoded value.
    pub value: TelemetryValue,
}

/// Telemetry records in the order they were sent.
#[derive(Debug, Clone, Default)]
pub struct Telemetry {
    /// The records.
    pub readings: Vec<TelemetryReading>,
}

/// The value width of each known type code.
pub open spec fn fixed_width(ty: u8) -> Option<nat> {
    if ty == 0 || ty == 1 || ty == 102 || ty == 104 || ty == 120 {
        Some(1)
    } else if ty == 2 || ty == 3 || ty == 101 || ty == 103 || ty == 115 || ty == 116 || ty == 117
        || ty == 121 || ty == 128 || ty == 132 {
        Some(2)
    } else if ty == 135 {
        Some(3)
    } else if ty == 118 || ty == 130 || ty == 131 || ty == 133 {
        Some(4)
    } else if ty == 113 || ty == 134 {
        Some(6)
    } else if ty == 136 {
        Some(9)
    } else {
        None
    }
}

/// The width of a record's value when `avail` bytes follow its header:
/// the type's own width if that many are there, everything that is left
/// for an unknown type, and `None` when the record is cut short.
pub open spec fn record_width(ty: u8, avail: nat) -> Option<nat> {
    match fixed_width(ty) {
        Some(w) => if w <= avail {
            Some(w)
        } else {
            None
        },
        None => if avail > 0 {
            Some(avail)
        } else {
            None
        },
    }
}

/// Start and value width of each record decoded from offset `pos` on; the
/// scan stops at the first record that does not fit.
pub open spec fn lpp_spans(data: Seq<u8>, pos: nat) -> Seq<(nat, nat)>
    decreases data.len() - pos,
{
    if pos + 2 > data.len() {
        Seq::empty()
    } else {
        match record_width(data[pos + 1 as int], (data.len() - pos - 2) as nat) {
            None => Seq::empty(),
            Some(w) => seq![(pos, w)] + lpp_spans(data, pos + 2 + w),
        }
    }
}

/// The quantity `raw / scale`.
pub open spec fn sc(raw: int, scale: u32) -> Scaled {
    Scaled { raw: raw as i64, scale }
}

/// Whether `v` is the value of type `ty` held in bytes `b`.
pub open spec fn lpp_value(ty: u8, b: Seq<u8>, v: TelemetryValue) -> bool {
    if ty == 0 {
        v == TelemetryValue::DigitalInput(b[0])
    } else if ty == 1 {
        v == TelemetryValue::DigitalOutput(b[0])
    } else if ty == 2 {
        v == TelemetryValue::AnalogInput(sc(be_i16(b, 0) as int, 100))
    } else if ty == 3 {
        v == TelemetryValue::AnalogOutput(sc(be_i16(b, 0) as int, 100))
    } else if ty == 101 {
        v == TelemetryValue::Illuminance(be_u16(b, 0))
    } else if ty == 102 {
        v == TelemetryValue::Presence(b[0])
    } else if ty == 103 {
        v == TelemetryValue::Temperature(sc(be_i16(b, 0) as int, 10))
    } else if ty == 104 {
        v == TelemetryValue::Humidity(sc(b[0] as int, 2))
    } else if ty == 113 {
        v == TelemetryValue::Accelerometer {
            x: sc(be_i16(b, 0) as int, 1000),
            y: sc(be_i16(b, 2) as int, 1000),
            z: sc(be_i16(b, 4) as int, 1000),
        }
    } else if ty == 115 {
        v == TelemetryValue::Barometer(sc(be_u16(b, 0) as int, 10))
    } else if ty == 134 {
        v == TelemetryValue::Gyrometer {
            x: sc(be_i16(b, 0) as int, 100),
            y: sc(be_i16(b, 2) as int, 100),
            z: sc(be_i16(b, 4) as int, 100),
        }
    } else if ty == 135 {
        v == TelemetryValue::Color { r: b[0], g: b[1], b: b[2] }
    } else if ty == 136 {
        v == TelemetryValue::Gps {
            latitude: sc(be_i24(b, 0) as int, 10000),
            longitude: sc(be_i24(b, 3) as int, 10000),
            altitude: sc(be_i24(b, 6) as int, 100),
        }
    } else if ty == 116 {
        v == TelemetryValue::Voltage(sc(be_u16(b, 0) as int, 100))
    } else if ty == 117 {
        v == TelemetryValue::Current(sc(be_u16(b, 0) as int, 1000))
    } else if ty == 118 {
        v == TelemetryValue::Frequency(be_u32(b, 0))
    } else if ty == 120 {
        v == TelemetryValue::Percentage(b[0])
    } else if ty == 121 {
        v == TelemetryValue::Altitude(sc(be_i16(b, 0) as int, 100))
    } else if ty == 128 {
        v == TelemetryValue::Power(be_u16(b, 0))
    } else if ty == 130 {
        v == TelemetryValue::Distance(be_u32(b, 0))
    } else if ty == 131 {
        v == TelemetryValue::Energy(be_u32(b, 0))
    } else if ty == 132 {
        v == TelemetryValue::Direction(be_u16(b, 0))
    } else if ty == 133 {
        v == TelemetryValue::UnixTime(be_u32(b, 0))
    } else {
        v matches TelemetryValue::Generic(g) && g@ == b
    }
}

/// Whether `r` is the record that `span` marks in `data`.
pub open spec fn lpp_reading(data: Seq<u8>, span: (nat, nat), r: TelemetryReading) -> bool {
    let (start, w) = span;
    &&& r.channel == data[start as int]
    &&& r.lpp_type == data[start + 1 as int]
    &&& lpp_value(r.lpp_type, data.subrange(start + 2 as int, start + 2 + w as int), r.value)
}

/// Whether `readings` are exactly the records of `data`, in order.
pub open spec fn lpp_decoded(data: Seq<u8>, readings: Seq<TelemetryReading>) -> bool {
    let spans = lpp_spans(data, 0);
    &&& readings.len() == spans.len()
    &&& forall|i: int| 0 <= i < spans.len() ==> lpp_reading(data, spans[i], #[trigger] readings[i])
}

proof fn lemma_value_at(data: Seq<u8>, start: int, w: nat, k: int)
    requires
        0 <= start,
        start + w <= data.len(),
        0 <= k < w,
    ensures
        data.subrange(start, start + w)[k] == data[start + k],
{
}

/// Decodes the value of a record of type `ty` whose value starts at `pos`.
fn decode_value(data: &[u8], pos: usize, ty: u8) -> (r: Option<(TelemetryValue, usize)>)
    requires
        pos <= data@.len(),
    ensures
        match record_width(ty, (data@.len() - pos) as nat) {
            None => r is None,
            Some(w) => r matches Some((v, n)) && n == w && lpp_value(
                ty,
                data@.subrange(pos as int, pos + w),
                v,
            ),
        },
{
    let avail = data.len() - pos;
    let b = &data[pos..data.len()];
    assert(b@ == data@.subrange(pos as int, data@.len() as int));
    if ty == 0 || ty == 1 || ty == 102 || ty == 104 || ty == 120 {
        if avail < 1 {
            return None;
        }
        let x = b[0];
        let v = if ty == 0 {
            TelemetryValue::DigitalInput(x)
        } else if ty == 1 {
            TelemetryValue::DigitalOutput(x)
        } else if ty == 102 {
            TelemetryValue::Presence(x)
        } else if ty == 104 {
            TelemetryValue::Humidity(Scaled { raw: x as i64, scale: 2 })
        } else {
            TelemetryValue::Percentage(x)
        };
        assert(data@.subrange(pos as int, pos + 1)[0] == b@[0]);
        Some((v, 1))
    } else if ty == 2 || ty == 3 || ty == 101 || ty == 103 || ty == 115 || ty == 116 || ty == 117
        || ty == 121 || ty == 128 || ty == 132 {
        if avail < 2 {
            return None;
        }
        let s = read_i16_be(b, 0) as i64;
        let u = read_u16_be(b, 0);
        let v = if ty == 2 {
            TelemetryValue::AnalogInput(Scaled { raw: s, scale: 100 })
        } else if ty == 3 {
            TelemetryValue::AnalogOutput(Scaled { raw: s, scale: 100 })
        } else if ty == 101 {
            TelemetryValue::Illuminance(u)
        } else if ty == 103 {
            TelemetryValue::Temperature(Scaled { raw: s, scale: 10 })
        } else if ty == 115 {
            TelemetryValue::Barometer(Scaled { raw: u as i64, scale: 10 })
        } else if ty == 116 {
            TelemetryValue::Voltage(Scaled { raw: u as i64, scale: 100 })
        } else if ty == 117 {
            TelemetryValue::Current(Scaled { raw: u as i64, scale: 1000 })
        } else if ty == 121 {
            TelemetryValue::Altitude(Scaled { raw: s, scale: 100 })
        } else if ty == 128 {
            TelemetryValue::Power(u)
        } else {
            TelemetryValue::Direction(u)
        };
        proof {
            let sub = data@.subrange(pos as int, pos + 2);
            assert(sub[0] == b@[0] && sub[1] == b@[1]);
        }
        Some((v, 2))
    } else if ty == 135 {
        if avail < 3 {
            return None;
        }
        proof {
            let sub = data@.subrange(pos as int, pos + 3);
            assert(sub[0] == b@[0] && sub[1] == b@[1] && sub[2] == b@[2]);
        }
        Some((TelemetryValue::Color { r: b[0], g: b[1], b: b[2] }, 3))
    } else if ty == 118 || ty == 130 || ty == 131 || ty == 133 {
        if avail < 4 {
            return None;
        }
        let u = read_u32_be(b, 0);
        let v = if ty == 118 {
            TelemetryValue::Frequency(u)
        } else if ty == 130 {
            TelemetryValue::Distance(u)
        } else if ty == 131 {
            TelemetryValue::Energy(u)
        } else {
            TelemetryValue::UnixTime(u)
        };
        proof {
            let sub = data@.subrange(pos as int, pos + 4);
            assert(sub[0] == b@[0] && sub[1] == b@[1] && sub[2] == b@[2] && sub[3] == b@[3]);
        }
        Some((v, 4))
    } else if ty == 113 || ty == 134 {
        if avail < 6 {
            return None;
        }
        let x = read_i16_be(b, 0) as i64;
        let y = read_i16_be(b, 2) as i64;
        let z = read_i16_be(b, 4) as i64;
        let v = if ty == 113 {
            TelemetryValue::Accelerometer {
                x: Scaled { raw: x, scale: 1000 },
                y: Scaled { raw: y, scale: 1000 },
                z: Scaled { raw: z, scale: 1000 },
            }
        } else {
            TelemetryValue::Gyrometer {
                x: Scaled { raw: x, scale: 100 },
                y: Scaled { raw: y, scale: 100 },
                z: Scaled { raw: z, scale: 100 },
            }
        };
        proof {
            let sub = data@.subrange(pos as int, pos + 6);
            assert forall|k: int| 0 <= k < 6 implies sub[k] == b@[k] by {}
        }
        Some((v, 6))
    } else if ty == 136 {
        if avail < 9 {
            return None;
        }
        let lat = read_i24_be(b, 0) as i64;
        let lon = read_i24_be(b, 3) as i64;
        let alt = read_i24_be(b, 6) as i64;
        proof {
            let sub = data@.subrange(pos as int, pos + 9);
            assert forall|k: int| 0 <= k < 9 implies sub[k] == b@[k] by {}
        }
        Some(
            (
                TelemetryValue::Gps {
                    latitude: Scaled { raw: lat, scale: 10000 },
                    longitude: Scaled { raw: lon, scale: 10000 },
                    altitude: Scaled { raw: alt, scale: 100 },
                },
                9,
            ),
        )
    } else {
        if avail == 0 {
            return None;
        }
        let g = copy_bytes(b);
        Some((TelemetryValue::Generic(g), avail))
    }
}

/// The first value that `pick` accepts among the readings, in order.
pub open spec fn first_picked<T>(
    rs: Seq<TelemetryReading>,
    pick: spec_fn(TelemetryValue) -> Option<T>,
) -> Option<T>
    decreases rs.len(),
{
    if rs.len() == 0 {
        None
    } else if pick(rs[0].value) is Some {
        pick(rs[0].value)
    } else {
        first_picked(rs.drop_first(), pick)
    }
}

proof fn lemma_first_picked<T>(
    rs: Seq<TelemetryReading>,
    pick: spec_fn(TelemetryValue) -> Option<T>,
    i: int,
)
    requires
        0 <= i <= rs.len(),
        forall|j: int| 0 <= j < i ==> pick(#[trigger] rs[j].value) is None,
    ensures
        i == rs.len() ==> first_picked(rs, pick) is None,
        i < rs.len() && pick(rs[i].value) is Some ==> first_picked(rs, pick) == pick(rs[i].value),
    decreases rs.len(),
{
    if rs.len() > 0 && i > 0 {
        assert forall|j: int| 0 <= j < i - 1 implies pick(
            #[trigger] rs.drop_first()[j].value,
        ) is None by {
            assert(rs.drop_first()[j] == rs[j + 1]);
        }
        lemma_first_picked(rs.drop_first(), pick, i - 1);
    }
}

/// A temperature value's quantity.
pub open spec fn temperature_of(v: TelemetryValue) -> Option<Scaled> {
    match v {
        TelemetryValue::Temperature(t) => Some(t),
        _ => None,
    }
}

/// A humidity value's quantity.
pub open spec fn humidity_of(v: TelemetryValue) -> Option<Scaled> {
    match v {
        TelemetryValue::Humidity(h) => Some(h),
        _ => None,
    }
}

/// A voltage value's quantity.
pub open spec fn voltage_of(v: TelemetryValue) -> Option<Scaled> {
    match v {
        TelemetryValue::Voltage(x) => Some(x),
        _ => None,
    }
}

/// A position value's latitude, longitude and altitude.
pub open spec fn gps_of(v: TelemetryValue) -> Option<(Scaled, Scaled, Scaled)> {
    match v {
        TelemetryValue::Gps { latitude, longitude, altitude } => Some(
            (latitude, longitude, altitude),
        ),
        _ => None,
    }
}

/// Positions, in order, of the first `n` readings that are on channel `c`.
pub open spec fn channel_indices(rs: Seq<TelemetryReading>, c: u8, n: int) -> Seq<usize>
    decreases n,
{
    if n <= 0 {
        Seq::empty()
    } else {
        channel_indices(rs, c, n - 1) + if rs[n - 1].channel == c {
            seq![(n - 1) as usize]
        } else {
            Seq::empty()
        }
    }
}

impl Telemetry {
    /// The positions of the readings of each channel, in order.
    pub fn by_channel(&self) -> (r: HashMap<u8, Vec<usize>>)
        ensures
            forall|c: u8|
                #![trigger r@.contains_key(c)]
                r@.contains_key(c) <==> channel_indices(
                    self.readings@,
                    c,
                    self.readings@.len() as int,
                ).len() > 0,
            forall|c: u8|
                #![trigger r@[c]]
                r@.contains_key(c) ==> r@[c]@ == channel_indices(
                    self.readings@,
                    c,
                    self.readings@.len() as int,
                ),
    {
        broadcast use vstd::std_specs::hash::group_hash_axioms;

        let mut m: HashMap<u8, Vec<usize>> = HashMap::new();
        let mut i: usize = 0;
        while i < self.readings.len()
            invariant
                i <= self.readings@.len(),
                forall|c: u8|
                    #![trigger m@.contains_key(c)]
                    m@.contains_key(c) <==> channel_indices(self.readings@, c, i as int).len() > 0,
                forall|c: u8|
                    #![trigger m@[c]]
                    m@.contains_key(c) ==> m@[c]@ == channel_indices(self.readings@, c, i as int),
            decreases self.readings@.len() - i,
        {
            let c = self.readings[i].channel;
            let mut v = match m.remove(&c) {
                Some(v) => v,
                None => Vec::new(),
            };
            v.push(i);
            m.insert(c, v);
            i = i + 1;
            assert forall|d: u8| #![trigger m@.contains_key(d)] m@.contains_key(d) <==> channel_indices(
                self.readings@,
                d,
                i as int,
            ).len() > 0 by {
                if d != c {
                    assert(channel_indices(self.readings@, d, i as int) =~= channel_indices(
                        self.readings@,
                        d,
                        i - 1,
                    ));
                }
            }
            assert forall|d: u8| #![trigger m@[d]] m@.contains_key(d) implies m@[d]@
                == channel_indices(self.readings@, d, i as int) by {
                if d != c {
                    assert(channel_indices(self.readings@, d, i as int) =~= channel_indices(
                        self.readings@,
                        d,
                        i - 1,
                    ));
                } else {
                    assert(channel_indices(self.readings@, d, i as int) =~= channel_indices(
                        self.readings@,
                        d,
                        i - 1,
                    ) + seq![(i - 1) as usize]);
                }
            }
        }
        m
    }

    /// The first temperature reading, in degrees Celsius.
    pub fn temperature(&self) -> (r: Option<Scaled>)
        ensures
            r == first_picked(self.readings@, |v: TelemetryValue| temperature_of(v)),
    {
        let mut i: usize = 0;
        while i < self.readings.len()
            invariant
                i <= self.readings@.len(),
                forall|j: int| 0 <= j < i ==> temperature_of(#[trigger] self.readings@[j].value) is None,
            decreases self.readings@.len() - i,
        {
            if let TelemetryValue::Temperature(t) = self.readings[i].value {
                proof {
                    lemma_first_picked(self.readings@, |v: TelemetryValue| temperature_of(v), i as int);
                }
                return Some(t);
            }
            i = i + 1;
        }
        proof {
            lemma_first_picked(self.readings@, |v: TelemetryValue| temperature_of(v), i as int);
        }
        None
    }

    /// The first humidity reading, in percent.
    pub fn humidity(&self) -> (r: Option<Scaled>)
        ensures
            r == first_picked(self.readings@, |v: TelemetryValue| humidity_of(v)),
    {
        let mut i: usize = 0;
        while i < self.readings.len()
            invariant
                i <= self.readings@.len(),
                forall|j: int| 0 <= j < i ==> humidity_of(#[trigger] self.readings@[j].value) is None,
            decreases self.readings@.len() - i,
        {
            if let TelemetryValue::Humidity(h) = self.readings[i].value {
                proof {
                    lemma_first_picked(self.readings@, |v: TelemetryValue| humidity_of(v), i as int);
                }
                return Some(h);
            }
            i = i + 1;
        }
        proof {
            lemma_first_picked(self.readings@, |v: TelemetryValue| humidity_of(v), i as int);
        }
        None
    }

    /// The first voltage reading, in volts.
    pub fn voltage(&self) -> (r: Option<Scaled>)
        ensures
            r == first_picked(self.readings@, |v: TelemetryValue| voltage_of(v)),
    {
        let mut i: usize = 0;
        while i < self.readings.len()
            invariant
                i <= self.readings@.len(),
                forall|j: int| 0 <= j < i ==> voltage_of(#[trigger] self.readings@[j].value) is None,
            decreases self.readings@.len() - i,
        {
            if let TelemetryValue::Voltage(x) = self.readings[i].value {
                proof {
                    lemma_first_picked(self.readings@, |v: TelemetryValue| voltage_of(v), i as int);
                }
                return Some(x);
            }
            i = i + 1;
        }
        proof {
            lemma_first_picked(self.readings@, |v: TelemetryValue| voltage_of(v), i as int);
        }
        None
    }

    /// The first position reading: latitude, longitude and altitude.
    pub fn gps(&self) -> (r: Option<(Scaled, Scaled, Scaled)>)
        ensures
            r == first_picked(self.readings@, |v: TelemetryValue| gps_of(v)),
    {
        let mut i: usize = 0;
        while i < self.readings.len()
            invariant
                i <= self.readings@.len(),
                forall|j: int| 0 <= j < i ==> gps_of(#[trigger] self.readings@[j].value) is None,
            decreases self.readings@.len() - i,
        {
            if let TelemetryValue::Gps { latitude, longitude, altitude } = self.readings[i].value {
                proof {
                    lemma_first_picked(self.readings@, |v: TelemetryValue| gps_of(v), i as int);
                }
                return Some((latitude, longitude, altitude));
            }
            i = i + 1;
        }
        proof {
            lemma_first_picked(self.readings@, |v: TelemetryValue| gps_of(v), i as int);
        }
        None
    }

    /// No records.
    pub fn new() -> (r: Self)
        ensures
            r.readings@.len() == 0,
    {
        Telemetry { readings: Vec::new() }
    }

    /// Decodes an LPP payload into its records, in order.
    ///
    /// A trailing record that does not fit is dropped. A record of unknown
    /// type takes every remaining byte and ends the scan.
    pub fn parse_lpp(data: &[u8]) -> (r: Self)
        ensures
            lpp_decoded(data@, r.readings@),
    {
        let mut readings: Vec<TelemetryReading> = Vec::new();
        let mut pos: usize = 0;
        let ghost mut done: Seq<(nat, nat)> = Seq::empty();
        while data.len() - pos >= 2
            invariant_except_break
                lpp_spans(data@, 0) == done + lpp_spans(data@, pos as nat),
            invariant
                pos <= data@.len(),
                readings@.len() == done.len(),
                forall|i: int|
                    0 <= i < done.len() ==> lpp_reading(data@, done[i], #[trigger] readings@[i]),
            ensures
                lpp_spans(data@, 0) == done,
            decreases data@.len() - pos,
        {
            let channel = data[pos];
            let lpp_type = data[pos + 1];
            match decode_value(data, pos + 2, lpp_type) {
                None => {
                    proof {
                        assert(lpp_spans(data@, pos as nat) =~= Seq::<(nat, nat)>::empty());
                        assert(done + Seq::<(nat, nat)>::empty() =~= done);
                    }
                    break;
                },
                Some((value, n)) => {
                    let ghost span = (pos as nat, n as nat);
                    readings.push(TelemetryReading { channel, lpp_type, value });
                    proof {
                        let next = (pos + 2 + n) as nat;
                        assert(lpp_spans(data@, pos as nat) == seq![span] + lpp_spans(data@, next));
                        assert(done + seq![span] + lpp_spans(data@, next) =~= done + (seq![span]
                            + lpp_spans(data@, next)));
                        done = done + seq![span];
                        assert(lpp_reading(data@, span, readings@[readings@.len() - 1]));
                    }
                    pos = pos + 2 + n;
                },
            }
        }
        proof {
            if pos + 2 > data@.len() {
                assert(lpp_spans(data@, pos as nat) =~= Seq::<(nat, nat)>::empty());
                assert(done + Seq::<(nat, nat)>::empty() =~= done);
            }
        }
        Telemetry { readings }
    }
}

} // verus!
