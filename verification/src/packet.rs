//! Packet decoder: parses the controller's 60-byte BLE notification
//! payload into a structured reading.
//!
//! Wire format (all integers little-endian):
//! - bytes 0..4: unsigned 32-bit timestamp (device tick counter, wraps)
//! - bytes 4..6: signed 16-bit auxiliary temperature value
//! - bytes 6..8: reserved
//! - bytes 8..26: nine signed 16-bit values: accelerometer X/Y/Z,
//!   gyroscope X/Y/Z, magnetometer X/Y/Z
//! - bytes 26..54: reserved / additional samples (unused)
//! - bytes 54..58: touchpad X and Y (unsigned 16-bit, 0..=315)
//! - byte 58: button bitmask (trigger, touchpad, back, home, vol-up, vol-down)
//! - byte 59: touchpad-touched flag (nonzero means touching)
//!
//! Some firmware revisions emit the IMU block as three little-endian
//! 32-bit floats at overlapping offsets instead of scaled 16-bit
//! integers.  A reading whose raw accelerometer magnitudes reach 32000
//! is taken to be in that alternate encoding, and the float bit patterns
//! are converted directly to fixed point (saturating at
//! [`SENSOR_LIMIT`]).

use crate::fixed::{
    div_tz, lemma_div_tz_mono_abs, mul_div, spec_abs, SCALE, SENSOR_LIMIT,
};
use vstd::arithmetic::div_mod::lemma_basic_div;
use vstd::arithmetic::power2::{lemma2_to64, lemma2_to64_rest, lemma_pow2_strictly_increases, pow2};
use vstd::bits::lemma_u64_shl_is_mul;
use vstd::prelude::*;

verus! {

/// Fixed-point divisor for raw accelerometer units (about 1/4096 g each).
pub const ACCEL_DIVISOR: i64 = 4096;

/// Fixed-point divisor for raw gyroscope units (about 1/900 of the
/// scaled angular-rate unit each).
pub const GYRO_DIVISOR: i64 = 900;

/// Fixed-point divisor for raw magnetometer units.
pub const MAG_DIVISOR: i64 = 1000;

/// One decoded controller notification.
///
/// Sensor values are fixed point ([`SCALE`] micro-units per physical
/// unit) and bounded by [`SENSOR_LIMIT`]; the normalized touchpad
/// coordinates stay zero until a normalizer fills them in.
#[derive(Clone, Copy, Debug, PartialEq, Eq, Structural)]
pub struct ControllerReading {
    pub timestamp: u32,
    pub temperature: i32,
    pub accel_x: i64,
    pub accel_y: i64,
    pub accel_z: i64,
    pub gyro_x: i64,
    pub gyro_y: i64,
    pub gyro_z: i64,
    pub mag_x: i64,
    pub mag_y: i64,
    pub mag_z: i64,
    pub touchpad_x: u16,
    pub touchpad_y: u16,
    pub processed_touchpad_x: i64,
    pub processed_touchpad_y: i64,
    pub trigger_button: bool,
    pub touchpad_button: bool,
    pub back_button: bool,
    pub home_button: bool,
    pub volume_up_button: bool,
    pub volume_down_button: bool,
    pub touchpad_touched: bool,
}

impl ControllerReading {
    /// Every sensor field within [`SENSOR_LIMIT`] and the normalized
    /// coordinates within one unit.
    pub open spec fn wf(self) -> bool {
        &&& -SENSOR_LIMIT <= self.accel_x <= SENSOR_LIMIT
        &&& -SENSOR_LIMIT <= self.accel_y <= SENSOR_LIMIT
        &&& -SENSOR_LIMIT <= self.accel_z <= SENSOR_LIMIT
        &&& -SENSOR_LIMIT <= self.gyro_x <= SENSOR_LIMIT
        &&& -SENSOR_LIMIT <= self.gyro_y <= SENSOR_LIMIT
        &&& -SENSOR_LIMIT <= self.gyro_z <= SENSOR_LIMIT
        &&& -SENSOR_LIMIT <= self.mag_x <= SENSOR_LIMIT
        &&& -SENSOR_LIMIT <= self.mag_y <= SENSOR_LIMIT
        &&& -SENSOR_LIMIT <= self.mag_z <= SENSOR_LIMIT
        &&& -SCALE <= self.processed_touchpad_x <= SCALE
        &&& -SCALE <= self.processed_touchpad_y <= SCALE
    }

    /// A reading with every field zero / false.
    pub fn new() -> (r: ControllerReading)
        ensures
            r == ControllerReading::spec_zeroed(),
            r.wf(),
    {
        ControllerReading {
            timestamp: 0,
            temperature: 0,
            accel_x: 0,
            accel_y: 0,
            accel_z: 0,
            gyro_x: 0,
            gyro_y: 0,
            gyro_z: 0,
            mag_x: 0,
            mag_y: 0,
            mag_z: 0,
            touchpad_x: 0,
            touchpad_y: 0,
            processed_touchpad_x: 0,
            processed_touchpad_y: 0,
            trigger_button: false,
            touchpad_button: false,
            back_button: false,
            home_button: false,
            volume_up_button: false,
            volume_down_button: false,
            touchpad_touched: false,
        }
    }

    pub open spec fn spec_zeroed() -> ControllerReading {
        ControllerReading {
            timestamp: 0,
            temperature: 0,
            accel_x: 0,
            accel_y: 0,
            accel_z: 0,
            gyro_x: 0,
            gyro_y: 0,
            gyro_z: 0,
            mag_x: 0,
            mag_y: 0,
            mag_z: 0,
            touchpad_x: 0,
            touchpad_y: 0,
            processed_touchpad_x: 0,
            processed_touchpad_y: 0,
            trigger_button: false,
            touchpad_button: false,
            back_button: false,
            home_button: false,
            volume_up_button: false,
            volume_down_button: false,
            touchpad_touched: false,
        }
    }
}

/// Why a buffer was not decoded into a reading.
#[derive(Clone, Copy, Debug, PartialEq, Eq, Structural)]
pub enum DecodeError {
    /// A 2-byte command acknowledgment: protocol noise, not sensor data
    /// and not a fault.
    CommandAck,
    /// Any length other than 2 or 60 bytes: a malformed packet.
    InvalidLength,
}

/// Little-endian unsigned 16-bit value at offset `i`.
pub open spec fn spec_le_u16(b: Seq<u8>, i: int) -> int
    recommends
        0 <= i,
        i + 2 <= b.len(),
{
    b[i] as int + 256 * (b[i + 1] as int)
}

/// Little-endian signed 16-bit value at offset `i`.
pub open spec fn spec_le_i16(b: Seq<u8>, i: int) -> int
    recommends
        0 <= i,
        i + 2 <= b.len(),
{
    let v = spec_le_u16(b, i);
    if v < 32768 {
        v
    } else {
        v - 65536
    }
}

/// Little-endian unsigned 32-bit value at offset `i`.
pub open spec fn spec_le_u32(b: Seq<u8>, i: int) -> int
    recommends
        0 <= i,
        i + 4 <= b.len(),
{
    b[i] as int + 256 * (b[i + 1] as int) + 65536 * (b[i + 2] as int) + 16777216 * (b[i
        + 3] as int)
}

/// A raw 16-bit sensor value scaled into fixed point: `raw * SCALE / divisor`.
pub open spec fn spec_scaled(raw: int, divisor: int) -> int
    recommends
        divisor >= 1,
{
    div_tz(raw * SCALE, divisor)
}

/// Magnitude, in fixed point, of an IEEE 754 single-precision value with
/// the given biased exponent and fraction field, saturated at
/// [`SENSOR_LIMIT`].  Zeros and subnormals collapse to zero; infinities,
/// NaN payloads and magnitudes of `2^23` and above saturate.
pub open spec fn spec_float_mag(exp: int, frac: int) -> int
    recommends
        0 <= exp < 256,
        0 <= frac < 0x80_0000,
{
    if exp == 0 {
        0
    } else if exp >= 150 {
        SENSOR_LIMIT as int
    } else {
        let v = (0x80_0000 + frac) * SCALE / pow2((150 - exp) as nat) as int;
        if v > SENSOR_LIMIT {
            SENSOR_LIMIT as int
        } else {
            v
        }
    }
}

/// Fixed-point value of a 32-bit float bit pattern.
pub open spec fn spec_float_fp(bits: int) -> int
    recommends
        0 <= bits < 0x1_0000_0000,
{
    let sign = bits / 0x8000_0000;
    let exp = (bits / 0x80_0000) % 256;
    let frac = bits % 0x80_0000;
    if sign == 1 {
        -spec_float_mag(exp, frac)
    } else {
        spec_float_mag(exp, frac)
    }
}

/// The reading a well-formed 60-byte packet decodes to.
pub open spec fn spec_decode(b: Seq<u8>) -> ControllerReading
    recommends
        b.len() == 60,
{
    let scaled_imu = spec_abs(spec_le_i16(b, 8)) < 32000 && spec_abs(spec_le_i16(b, 10)) < 32000
        && spec_abs(spec_le_i16(b, 12)) < 32000;
    ControllerReading {
        timestamp: spec_le_u32(b, 0) as u32,
        temperature: spec_le_i16(b, 4) as i32,
        accel_x: if scaled_imu {
            spec_scaled(spec_le_i16(b, 8), ACCEL_DIVISOR as int) as i64
        } else {
            spec_float_fp(spec_le_u32(b, 4)) as i64
        },
        accel_y: if scaled_imu {
            spec_scaled(spec_le_i16(b, 10), ACCEL_DIVISOR as int) as i64
        } else {
            spec_float_fp(spec_le_u32(b, 8)) as i64
        },
        accel_z: if scaled_imu {
            spec_scaled(spec_le_i16(b, 12), ACCEL_DIVISOR as int) as i64
        } else {
            spec_float_fp(spec_le_u32(b, 12)) as i64
        },
        gyro_x: if scaled_imu {
            spec_scaled(spec_le_i16(b, 14), GYRO_DIVISOR as int) as i64
        } else {
            spec_float_fp(spec_le_u32(b, 16)) as i64
        },
        gyro_y: if scaled_imu {
            spec_scaled(spec_le_i16(b, 16), GYRO_DIVISOR as int) as i64
        } else {
            spec_float_fp(spec_le_u32(b, 20)) as i64
        },
        gyro_z: if scaled_imu {
            spec_scaled(spec_le_i16(b, 18), GYRO_DIVISOR as int) as i64
        } else {
            spec_float_fp(spec_le_u32(b, 24)) as i64
        },
        mag_x: spec_scaled(spec_le_i16(b, 20), MAG_DIVISOR as int) as i64,
        mag_y: spec_scaled(spec_le_i16(b, 22), MAG_DIVISOR as int) as i64,
        mag_z: spec_scaled(spec_le_i16(b, 24), MAG_DIVISOR as int) as i64,
        touchpad_x: spec_le_u16(b, 54) as u16,
        touchpad_y: spec_le_u16(b, 56) as u16,
        processed_touchpad_x: 0,
        processed_touchpad_y: 0,
        trigger_button: b[58] & 0x01 != 0,
        touchpad_button: b[58] & 0x02 != 0,
        back_button: b[58] & 0x04 != 0,
        home_button: b[58] & 0x08 != 0,
        volume_up_button: b[58] & 0x10 != 0,
        volume_down_button: b[58] & 0x20 != 0,
        touchpad_touched: b[59] != 0,
    }
}

/// Reads a little-endian unsigned 16-bit value.
fn read_u16(bytes: &[u8], i: usize) -> (r: u16)
    requires
        i + 2 <= bytes@.len(),
    ensures
        r == spec_le_u16(bytes@, i as int),
{
    bytes[i] as u16 + 256 * (bytes[i + 1] as u16)
}

/// Reads a little-endian signed 16-bit value, widened to `i32`.
fn read_i16(bytes: &[u8], i: usize) -> (r: i32)
    requires
        i + 2 <= bytes@.len(),
    ensures
        r == spec_le_i16(bytes@, i as int),
        -32768 <= r <= 32767,
{
    let v = read_u16(bytes, i) as i32;
    if v < 32768 {
        v
    } else {
        v - 65536
    }
}

/// Reads a little-endian unsigned 32-bit value.
fn read_u32(bytes: &[u8], i: usize) -> (r: u32)
    requires
        i + 4 <= bytes@.len(),
    ensures
        r == spec_le_u32(bytes@, i as int),
{
    bytes[i] as u32 + 256 * (bytes[i + 1] as u32) + 65536 * (bytes[i + 2] as u32) + 16777216 * (
    bytes[i + 3] as u32)
}

/// Scales a raw 16-bit sensor value into fixed point.
fn scale_raw(raw: i32, divisor: i64) -> (r: i64)
    requires
        -32768 <= raw <= 32767,
        1 <= divisor,
    ensures
        r == spec_scaled(raw as int, divisor as int),
        -((32768 * SCALE as int) / divisor as int) <= r <= (32768 * SCALE as int) / divisor as int,
{
    proof {
        lemma_div_tz_mono_abs(raw as int * SCALE as int, divisor as int, 32768 * SCALE as int);
    }
    mul_div(raw as i64, SCALE, divisor)
}

/// Converts a 32-bit float bit pattern to fixed point, saturating at
/// [`SENSOR_LIMIT`].
fn float_bits_to_fp(bits: u32) -> (r: i64)
    ensures
        r == spec_float_fp(bits as int),
        -SENSOR_LIMIT <= r <= SENSOR_LIMIT,
{
    let sign: u32 = bits / 0x8000_0000;
    let exp: u32 = (bits / 0x80_0000) % 256;
    let frac: u32 = bits % 0x80_0000;
    let mag: i64 = if exp == 0 {
        0
    } else if exp >= 150 {
        SENSOR_LIMIT
    } else {
        let s: u32 = 150 - exp;
        if s >= 44 {
            proof {
                lemma2_to64();
                lemma2_to64_rest();
                if s > 44 {
                    lemma_pow2_strictly_increases(44, s as nat);
                }
                lemma_basic_div((0x80_0000 + frac) * SCALE as int, pow2(s as nat) as int);
            }
            0
        } else {
            let pow: u64 = 1u64 << s;
            proof {
                lemma2_to64();
                lemma2_to64_rest();
                lemma_u64_shl_is_mul(1u64, s as u64);
            }
            let m: u64 = 0x80_0000 + frac as u64;
            let v: u64 = m * (SCALE as u64) / pow;
            if v > SENSOR_LIMIT as u64 {
                SENSOR_LIMIT
            } else {
                v as i64
            }
        }
    };
    if sign == 1 {
        -mag
    } else {
        mag
    }
}

/// Decodes one raw notification buffer.
///
/// A 60-byte buffer always decodes to a reading; a 2-byte buffer is a
/// command acknowledgment ([`DecodeError::CommandAck`], protocol noise to
/// drop silently); every other length is [`DecodeError::InvalidLength`].
pub fn parse_raw_bytes(bytes: &[u8]) -> (r: Result<ControllerReading, DecodeError>)
    ensures
        r is Ok <==> bytes@.len() == 60,
        bytes@.len() == 2 ==> r == Err::<ControllerReading, DecodeError>(DecodeError::CommandAck),
        bytes@.len() != 2 && bytes@.len() != 60 ==> r == Err::<ControllerReading, DecodeError>(
            DecodeError::InvalidLength,
        ),
        bytes@.len() == 60 ==> r == Ok::<ControllerReading, DecodeError>(spec_decode(bytes@)),
        r is Ok ==> r->Ok_0.wf(),
{
    if bytes.len() == 2 {
        return Err(DecodeError::CommandAck);
    }
    if bytes.len() != 60 {
        return Err(DecodeError::InvalidLength);
    }

    let raw_accel_x = read_i16(bytes, 8);
    let raw_accel_y = read_i16(bytes, 10);
    let raw_accel_z = read_i16(bytes, 12);
    let scaled_imu = -32000 < raw_accel_x && raw_accel_x < 32000 && -32000 < raw_accel_y
        && raw_accel_y < 32000 && -32000 < raw_accel_z && raw_accel_z < 32000;

    let (accel_x, accel_y, accel_z, gyro_x, gyro_y, gyro_z) = if scaled_imu {
        (
            scale_raw(raw_accel_x, ACCEL_DIVISOR),
            scale_raw(raw_accel_y, ACCEL_DIVISOR),
            scale_raw(raw_accel_z, ACCEL_DIVISOR),
            scale_raw(read_i16(bytes, 14), GYRO_DIVISOR),
            scale_raw(read_i16(bytes, 16), GYRO_DIVISOR),
            scale_raw(read_i16(bytes, 18), GYRO_DIVISOR),
        )
    } else {
        (
            float_bits_to_fp(read_u32(bytes, 4)),
            float_bits_to_fp(read_u32(bytes, 8)),
            float_bits_to_fp(read_u32(bytes, 12)),
            float_bits_to_fp(read_u32(bytes, 16)),
            float_bits_to_fp(read_u32(bytes, 20)),
            float_bits_to_fp(read_u32(bytes, 24)),
        )
    };

    let mag_x = scale_raw(read_i16(bytes, 20), MAG_DIVISOR);
    let mag_y = scale_raw(read_i16(bytes, 22), MAG_DIVISOR);
    let mag_z = scale_raw(read_i16(bytes, 24), MAG_DIVISOR);

    let button_byte = bytes[58];
    let reading = ControllerReading {
        timestamp: read_u32(bytes, 0),
        temperature: read_i16(bytes, 4),
        accel_x,
        accel_y,
        accel_z,
        gyro_x,
        gyro_y,
        gyro_z,
        mag_x,
        mag_y,
        mag_z,
        touchpad_x: read_u16(bytes, 54),
        touchpad_y: read_u16(bytes, 56),
        processed_touchpad_x: 0,
        processed_touchpad_y: 0,
        trigger_button: button_byte & 0x01 != 0,
        touchpad_button: button_byte & 0x02 != 0,
        back_button: button_byte & 0x04 != 0,
        home_button: button_byte & 0x08 != 0,
        volume_up_button: button_byte & 0x10 != 0,
        volume_down_button: button_byte & 0x20 != 0,
        touchpad_touched: bytes[59] != 0,
    };
    Ok(reading)
}

} // verus!
