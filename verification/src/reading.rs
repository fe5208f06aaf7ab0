//! The H5075 manufacturer-data payload and the readings it carries.

use vstd::prelude::*;

verus! {

/// Lowest plausible temperature, in tenths of a degree Celsius (-40.0 °C).
pub const MIN_TEMP_C_TENTHS: i32 = -400;

/// Highest plausible temperature, in tenths of a degree Celsius (100.0 °C).
pub const MAX_TEMP_C_TENTHS: i32 = 1000;

/// A single decoded reading from a Govee H5075 advertisement.
///
/// The sensor reports temperature and humidity with one decimal digit; both are
/// held here exactly, as integers counting tenths.
#[derive(Debug, Clone, Copy, PartialEq, Eq, Structural)]
pub struct Reading {
    /// Temperature in tenths of a degree Celsius (`238` is 23.8 °C).
    pub temp_c_tenths: i32,
    /// Relative humidity in tenths of a percent (`565` is 56.5 %).
    pub humidity_tenths: u16,
    /// Battery charge as a percentage.
    pub battery: u8,
    /// Whether the sensor flagged the reading as an error.
    pub error: bool,
}

/// The 24-bit word that payload bytes one through three hold, most significant first.
pub open spec fn packed_word(b1: u8, b2: u8, b3: u8) -> int {
    b1 * 0x1_0000 + b2 * 0x100 + b3
}

/// The top bit of the packed word marks a negative temperature.
pub open spec fn word_is_negative(word: int) -> bool {
    word >= 0x80_0000
}

/// The packed word without its sign bit: temperature in tenths times 1000, plus
/// humidity in tenths.
pub open spec fn word_magnitude(word: int) -> int {
    word % 0x80_0000
}

/// Temperature, in tenths of a degree Celsius, that a packed word encodes.
pub open spec fn word_temp_c_tenths(word: int) -> int {
    let tenths = word_magnitude(word) / 1000;
    if word_is_negative(word) {
        -tenths
    } else {
        tenths
    }
}

/// Relative humidity, in tenths of a percent, that a packed word encodes.
pub open spec fn word_humidity_tenths(word: int) -> int {
    word_magnitude(word) % 1000
}

/// What a payload decodes to: nothing unless it is exactly six bytes long; else
/// the reading packed into bytes one through four (bytes zero and five are framing).
pub open spec fn spec_decode(data: Seq<u8>) -> Option<Reading> {
    if data.len() != 6 {
        None
    } else {
        let word = packed_word(data[1], data[2], data[3]);
        Some(
            Reading {
                temp_c_tenths: word_temp_c_tenths(word) as i32,
                humidity_tenths: word_humidity_tenths(word) as u16,
                battery: (data[4] % 0x80) as u8,
                error: data[4] >= 0x80,
            },
        )
    }
}

/// A Fahrenheit temperature from a Celsius one, both in hundredths of a degree.
pub open spec fn celsius_to_fahrenheit_hundredths(c_hundredths: int) -> int {
    c_hundredths * 9 / 5 + 3200
}

impl Reading {
    /// The reading is plausible: the error flag is clear and the temperature lies
    /// in the sensor's operating range, -40.0 °C to 100.0 °C inclusive.
    pub open spec fn spec_is_valid(self) -> bool {
        &&& !self.error
        &&& MIN_TEMP_C_TENTHS <= self.temp_c_tenths <= MAX_TEMP_C_TENTHS
    }

    /// Returns the temperature converted to degrees Fahrenheit, in hundredths of a
    /// degree (`7034` is 70.34 °F). The conversion is exact.
    pub fn temp_f(&self) -> (f: i64)
        ensures
            f == celsius_to_fahrenheit_hundredths(self.temp_c_tenths * 10),
            f == 18 * self.temp_c_tenths + 3200,
    {
        let c = self.temp_c_tenths as i64;
        assert(c * 10 * 9 / 5 == 18 * c) by (nonlinear_arith);
        18 * c + 3200
    }

    /// Returns `true` if the temperature is within the sensor's plausible operating
    /// range and the error flag is not set.
    pub fn is_valid(&self) -> (b: bool)
        ensures
            b == self.spec_is_valid(),
        b == (!self.error && -400 <= self.temp_c_tenths && self.temp_c_tenths <= 1000),
    {
        !self.error && self.temp_c_tenths >= MIN_TEMP_C_TENTHS && self.temp_c_tenths
            <= MAX_TEMP_C_TENTHS
    }
}

/// Decodes the six-byte Govee H5075 manufacturer-data payload into a [`Reading`].
///
/// The first byte is a constant prefix. Bytes one through three pack the temperature
/// and humidity into a single integer, and byte four packs the battery percentage
/// alongside an error flag in its most significant bit. Returns `None` if the payload
/// is not exactly six bytes long.
pub fn decode_h5075(data: &[u8]) -> (res: Option<Reading>)
    ensures
        res == spec_decode(data@),
        res is Some <==> data@.len() == 6,
{
    if data.len() != 6 {
        return None;
    }
    let b1 = data[1];
    let b2 = data[2];
    let b3 = data[3];
    let b4 = data[4];

    let packed: u32 = ((b1 as u32) << 16) | ((b2 as u32) << 8) | (b3 as u32);
    assert(packed == (b1 as u32) * 0x1_0000u32 + (b2 as u32) * 0x100u32 + (b3 as u32)) by (bit_vector)
        requires
            packed == ((b1 as u32) << 16) | ((b2 as u32) << 8) | (b3 as u32),
    ;
    let is_negative = packed & 0x0080_0000 != 0;
    let value = packed & 0x007F_FFFF;
    assert(((packed & 0x0080_0000) != 0) == (packed >= 0x80_0000) && value == packed % 0x80_0000)
        by (bit_vector)
        requires
            packed < 0x100_0000,
            value == packed & 0x007F_FFFF,
    ;

    let tenths = (value / 1000) as i32;
    let temp_c_tenths = if is_negative {
        -tenths
    } else {
        tenths
    };
    let humidity_tenths = (value % 1000) as u16;
    let battery = b4 & 0x7F;
    let error = b4 & 0x80 != 0;
    assert(b4 & 0x7F == b4 % 0x80 && ((b4 & 0x80) != 0) == (b4 >= 0x80)) by (bit_vector);

    Some(Reading { temp_c_tenths, humidity_tenths, battery, error })
}

/// What becomes of an advertisement payload before its sensor is looked up.
#[derive(Debug, Clone, Copy, PartialEq, Eq, Structural)]
pub enum Admission {
    /// The payload is not a six-byte H5075 payload.
    Malformed,
    /// The payload decodes, but the reading is not valid and is not recorded.
    Rejected(Reading),
    /// The payload decodes to a valid reading, to be recorded.
    Admitted(Reading),
}

/// The admission of a payload: malformed unless it decodes; else admitted exactly
/// when the decoded reading is valid.
pub open spec fn spec_admit(data: Seq<u8>) -> Admission {
    match spec_decode(data) {
        None => Admission::Malformed,
        Some(r) => if r.spec_is_valid() {
            Admission::Admitted(r)
        } else {
            Admission::Rejected(r)
        },
    }
}

/// Decides whether an advertisement payload carries a reading to record: it must
/// decode, and the reading must be valid.
pub fn admit_payload(data: &[u8]) -> (a: Admission)
    ensures
        a == spec_admit(data@),
{
    match decode_h5075(data) {
        None => Admission::Malformed,
        Some(reading) => if reading.is_valid() {
            Admission::Admitted(reading)
        } else {
            Admission::Rejected(reading)
        },
    }
}

/// Every reading that a payload decodes to holds the values its bytes encode
/// without loss: a humidity below 100.0 %, a battery percentage below 128, a
/// temperature within ±838.8 °C, and the error flag of byte four's top bit.
pub proof fn lemma_decoded_reading_ranges(data: Seq<u8>)
    requires
        data.len() == 6,
    ensures
        ({
            let r = spec_decode(data).unwrap();
            let word = packed_word(data[1], data[2], data[3]);
            &&& r.temp_c_tenths == word_temp_c_tenths(word)
            &&& -8388 <= r.temp_c_tenths <= 8388
            &&& r.humidity_tenths == word_humidity_tenths(word)
            &&& r.humidity_tenths < 1000
            &&& r.battery < 0x80
            &&& r.error == (data[4] >= 0x80)
        }),
{
}

/// The first and last bytes of the payload are framing: two payloads that agree
/// on bytes one through four decode to the same reading.
pub proof fn lemma_decode_ignores_framing_bytes(a: Seq<u8>, b: Seq<u8>)
    requires
        a.len() == 6,
        b.len() == 6,
        forall|i: int| 1 <= i <= 4 ==> a[i] == b[i],
    ensures
        spec_decode(a) == spec_decode(b),
{
    assert(a[1] == b[1] && a[2] == b[2] && a[3] == b[3] && a[4] == b[4]);
}

/// The top bit of byte one is the temperature's sign: setting it negates the
/// temperature and leaves humidity, battery and error flag as they were.
pub proof fn lemma_sign_bit_negates_temperature(a: Seq<u8>, b: Seq<u8>)
    requires
        a.len() == 6,
        b.len() == 6,
        a[1] < 0x80,
        b[1] == a[1] + 0x80,
        a[2] == b[2],
        a[3] == b[3],
        a[4] == b[4],
    ensures
        spec_decode(b).unwrap().temp_c_tenths == -spec_decode(a).unwrap().temp_c_tenths,
        spec_decode(b).unwrap().humidity_tenths == spec_decode(a).unwrap().humidity_tenths,
        spec_decode(b).unwrap().battery == spec_decode(a).unwrap().battery,
        spec_decode(b).unwrap().error == spec_decode(a).unwrap().error,
{
    let wa = packed_word(a[1], a[2], a[3]);
    let wb = packed_word(b[1], b[2], b[3]);
    assert(wb == wa + 0x80_0000);
    assert(word_magnitude(wb) == word_magnitude(wa));
}

/// Decoding, field by field, from the payload's bytes: the low seven bits of byte
/// one and bytes two and three form an unsigned number whose thousands are the
/// temperature in tenths of a degree (negated when byte one's top bit is set) and
/// whose remainder is the humidity in tenths of a percent; byte four holds the
/// battery in its low seven bits and the error flag in its top bit.
pub proof fn lemma_decode_fields(data: Seq<u8>)
    requires
        data.len() == 6,
    ensures
        spec_decode(data) is Some,
        ({
            let r = spec_decode(data).unwrap();
            let unsigned = (data[1] % 128) * 65536 + data[2] * 256 + data[3];
            &&& r.humidity_tenths == unsigned % 1000
            &&& data[1] < 128 ==> r.temp_c_tenths == unsigned / 1000
            &&& data[1] >= 128 ==> r.temp_c_tenths == -(unsigned / 1000)
            &&& r.battery == data[4] % 128
            &&& r.error == (data[4] >= 128)
        }),
{
}

/// Encoding a temperature of `t` tenths and a humidity of `h` tenths as the word
/// `t * 1000 + h` (with the sign bit for a negative temperature) and decoding it
/// gives back `t` and `h`.
pub proof fn lemma_decode_round_trip(data: Seq<u8>, t: int, h: int, negative: bool)
    requires
        data.len() == 6,
        0 <= h < 1000,
        0 <= t,
        t * 1000 + h < 8388608,
        data[1] * 65536 + data[2] * 256 + data[3] == (if negative {
            8388608int
        } else {
            0int
        }) + t * 1000 + h,
    ensures
        spec_decode(data).unwrap().humidity_tenths == h,
        spec_decode(data).unwrap().temp_c_tenths == (if negative {
            -t
        } else {
            t
        }),
{
    lemma_decode_fields(data);
    let unsigned = (data[1] % 128) * 65536 + data[2] * 256 + data[3];
    assert(unsigned == t * 1000 + h);
    assert((t * 1000 + h) % 1000 == h && (t * 1000 + h) / 1000 == t) by (nonlinear_arith)
        requires
            0 <= h < 1000,
            0 <= t,
    ;
}

/// A reading is valid exactly when its error flag is clear and its temperature is
/// between -40.0 °C and 100.0 °C, both ends included.
pub proof fn lemma_validity_range(r: Reading)
    ensures
        r.spec_is_valid() == (!r.error && -400 <= r.temp_c_tenths && r.temp_c_tenths <= 1000),
{
}

/// A payload is admitted exactly when it is six bytes long, its error flag (the top
/// bit of byte four) is clear and its temperature lies in -40.0..=100.0 °C; a
/// six-byte payload that is not admitted is rejected, any other is malformed.
pub proof fn lemma_admission(data: Seq<u8>)
    ensures
        data.len() != 6 ==> spec_admit(data) == Admission::Malformed,
        data.len() == 6 ==> ({
            let r = spec_decode(data).unwrap();
            let ok = data[4] < 128 && -400 <= r.temp_c_tenths && r.temp_c_tenths <= 1000;
            &&& ok ==> spec_admit(data) == Admission::Admitted(r)
            &&& !ok ==> spec_admit(data) == Admission::Rejected(r)
        }),
{
}

/// The Fahrenheit conversion, in hundredths of a degree, of a temperature of `c`
/// tenths of a degree Celsius is `18 * c + 3200`: °F = °C × 9/5 + 32.
pub proof fn lemma_fahrenheit_formula(c: int)
    ensures
        celsius_to_fahrenheit_hundredths(c * 10) == 18 * c + 3200,
{
    assert(c * 10 * 9 / 5 == 18 * c) by (nonlinear_arith);
}

} // verus!
