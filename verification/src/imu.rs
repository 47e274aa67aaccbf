//! SPI frames of the MPU-6000 motion sensor.
//!
//! The first byte of a frame is the register address; its top bit is set
//! for a read and clear for a write. Sensor values are 16-bit big-endian
//! two's complement numbers.
use vstd::prelude::*;

verus! {

/// The accelerometer configuration register.
pub const ACCEL_CONFIG: u8 = 0x1C;
/// The gyroscope configuration register.
pub const GYRO_CONFIG: u8 = 0x1B;
/// The power management register.
pub const PWR_MGMT_1: u8 = 0x6B;
/// The first accelerometer output register (X, high byte).
pub const ACCEL_XOUT_H: u8 = 0x3B;
/// The first gyroscope output register (X, high byte).
pub const GYRO_XOUT_H: u8 = 0x43;
/// The identity register.
pub const WHO_AM_I: u8 = 0x75;

/// The address byte that reads register `reg`: its top bit set.
pub open spec fn spec_read_address(reg: u8) -> u8 {
    (reg % 128 + 128) as u8
}

/// The address byte that writes register `reg`: its top bit clear.
pub open spec fn spec_write_address(reg: u8) -> u8 {
    reg % 128
}

/// The value of a big-endian 16-bit two's complement number.
pub open spec fn spec_be_i16(hi: u8, lo: u8) -> int {
    if hi >= 128 {
        hi * 256 + lo - 65536
    } else {
        hi * 256 + lo
    }
}

/// The address byte that reads register `reg`.
pub fn read_address(reg: u8) -> (byte: u8)
    ensures
        byte == spec_read_address(reg),
{
    assert((1u8 << 7u8) | reg == reg % 128 + 128) by (bit_vector);
    (1u8 << 7u8) | reg
}

/// The address byte that writes register `reg`.
pub fn write_address(reg: u8) -> (byte: u8)
    ensures
        byte == spec_write_address(reg),
{
    assert(!(1u8 << 7u8) & reg == reg % 128) by (bit_vector);
    !(1u8 << 7u8) & reg
}

/// The 16-bit big-endian two's complement number with bytes `hi`, `lo`.
pub fn be_i16(hi: u8, lo: u8) -> (value: i16)
    ensures
        value == spec_be_i16(hi, lo),
{
    let unsigned: u16 = (hi as u16) * 256 + (lo as u16);
    if unsigned >= 32768 {
        (unsigned as i32 - 65536) as i16
    } else {
        unsigned as i16
    }
}

/// The frame that writes `value` into register `reg`.
pub fn write_frame(reg: u8, value: u8) -> (frame: [u8; 2])
    ensures
        frame@ == seq![spec_write_address(reg), value],
{
    [write_address(reg), value]
}

/// The frame that reads the three 16-bit values starting at register
/// `reg` (six data bytes after the address byte).
pub fn burst_read_request(reg: u8) -> (frame: [u8; 7])
    ensures
        frame@ == seq![spec_read_address(reg), 0u8, 0u8, 0u8, 0u8, 0u8, 0u8],
{
    [read_address(reg), 0, 0, 0, 0, 0, 0]
}

/// The X, Y and Z values of a burst-read reply: the byte clocked in with
/// the address byte is skipped.
pub fn burst_read_axes(reply: &[u8; 7]) -> (axes: (i16, i16, i16))
    ensures
        axes.0 == spec_be_i16(reply@[1], reply@[2]),
        axes.1 == spec_be_i16(reply@[3], reply@[4]),
        axes.2 == spec_be_i16(reply@[5], reply@[6]),
{
    (be_i16(reply[1], reply[2]), be_i16(reply[3], reply[4]), be_i16(reply[5], reply[6]))
}

/// The frame that reads one 16-bit value at register `reg`, with the
/// value clocked in after the address byte.
pub fn register_read_request(reg: u8) -> (frame: [u8; 3])
    ensures
        frame@ == seq![spec_read_address(reg), 0u8, 0u8],
{
    [read_address(reg), 0, 0]
}

/// The value in the reply to a `register_read_request` frame.
pub fn register_read_value(reply: &[u8; 3]) -> (value: i16)
    ensures
        value == spec_be_i16(reply@[1], reply@[2]),
{
    be_i16(reply[1], reply[2])
}

/// The two-byte frame that reads register `reg`.
pub fn short_read_request(reg: u8) -> (frame: [u8; 2])
    ensures
        frame@ == seq![spec_read_address(reg), 0u8],
{
    [read_address(reg), 0]
}

/// The 16-bit value taken from both bytes of the reply to a two-byte
/// read frame.
pub fn short_read_value(reply: &[u8; 2]) -> (value: i16)
    ensures
        value == spec_be_i16(reply@[0], reply@[1]),
{
    be_i16(reply[0], reply[1])
}

} // verus!
