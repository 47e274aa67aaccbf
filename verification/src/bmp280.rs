//! The BMP280 temperature sensor on I2C, and the EEPROM that keeps the
//! last temperature measured.
//!
//! The raw temperature is a 20-bit number spread over three registers;
//! the calibration words `dig_T1..dig_T3` are little-endian; the
//! compensated temperature is in hundredths of a degree Celsius. The
//! EEPROM is addressed with a big-endian 16-bit memory address and holds
//! the temperature as a big-endian 32-bit two's complement number.
use vstd::prelude::*;

verus! {

/// The I2C address of the BMP280.
pub const BMP280_ADDR: u8 = 0x76;
/// The I2C address of the EEPROM.
pub const EEPROM_ADDR: u8 = 0x50;
/// The measurement control register.
pub const REG_CTRL_MEAS: u8 = 0xF4;
/// The first (most significant) temperature register.
pub const REG_TEMP_MSB: u8 = 0xFA;
/// The first calibration register.
pub const REG_CALIBRATION_DATA: u8 = 0x88;
/// The EEPROM address of the logged temperature.
pub const LOG_ADDR: u16 = 0xACDC;

/// The temperature calibration words of a sensor.
#[derive(Clone, Copy, Debug, PartialEq, Eq, Structural)]
pub struct Calibration {
    pub dig_t1: u16,
    pub dig_t2: i16,
    pub dig_t3: i16,
}

/// The 20-bit raw temperature in the three temperature registers: the
/// most significant byte, the middle byte and the top nibble of the
/// least significant byte.
pub open spec fn spec_raw_temperature(msb: u8, lsb: u8, xlsb: u8) -> int {
    msb * 4096 + lsb * 16 + xlsb / 16
}

/// The raw temperature in the reply read from the temperature registers.
pub fn raw_temperature(buf: &[u8; 3]) -> (raw: u32)
    ensures
        raw == spec_raw_temperature(buf@[0], buf@[1], buf@[2]),
{
    let msb = buf[0] as u32;
    let lsb = buf[1] as u32;
    let xlsb = buf[2] as u32;
    assert(msb < 256 && lsb < 256 && xlsb < 256 ==> (msb << 12u32) | (lsb << 4u32) | (xlsb >> 4u32)
        == msb * 4096 + lsb * 16 + xlsb / 16) by (bit_vector);
    (msb << 12) | (lsb << 4) | (xlsb >> 4)
}

/// The value of a little-endian 16-bit two's complement number.
pub open spec fn spec_le_i16(lo: u8, hi: u8) -> int {
    if hi >= 128 {
        hi * 256 + lo - 65536
    } else {
        hi * 256 + lo
    }
}

/// The calibration words in the six calibration bytes.
pub fn calibration(data: &[u8; 6]) -> (cal: Calibration)
    ensures
        cal.dig_t1 == data@[1] * 256 + data@[0],
        cal.dig_t2 == spec_le_i16(data@[2], data@[3]),
        cal.dig_t3 == spec_le_i16(data@[4], data@[5]),
{
    Calibration {
        dig_t1: (data[1] as u16) * 256 + (data[0] as u16),
        dig_t2: le_i16(data[2], data[3]),
        dig_t3: le_i16(data[4], data[5]),
    }
}

fn le_i16(lo: u8, hi: u8) -> (value: i16)
    ensures
        value == spec_le_i16(lo, hi),
{
    let unsigned: u16 = (hi as u16) * 256 + (lo as u16);
    if unsigned >= 32768 {
        (unsigned as i32 - 65536) as i16
    } else {
        unsigned as i16
    }
}

pub open spec fn in_i32(x: int) -> bool {
    i32::MIN <= x <= i32::MAX
}

/// The product behind the first compensation term.
pub open spec fn spec_term1_product(raw: u32, cal: Calibration) -> int {
    (raw / 8 - 2 * cal.dig_t1) * cal.dig_t2
}

/// The square behind the second compensation term.
pub open spec fn spec_term2_square(raw: u32, cal: Calibration) -> int {
    (raw / 16 - cal.dig_t1) * (raw / 16 - cal.dig_t1)
}

/// The product behind the second compensation term.
pub open spec fn spec_term2_product(raw: u32, cal: Calibration) -> int {
    spec_term2_square(raw, cal) / 4096 * cal.dig_t3
}

/// The fine temperature: the sum of both compensation terms (the shifts
/// of the datasheet are floor divisions by powers of two).
pub open spec fn spec_t_fine(raw: u32, cal: Calibration) -> int {
    spec_term1_product(raw, cal) / 2048 + spec_term2_product(raw, cal) / 16384
}

/// The compensated temperature in hundredths of a degree Celsius.
pub open spec fn spec_compensated(raw: u32, cal: Calibration) -> int {
    (spec_t_fine(raw, cal) * 5 + 128) / 256
}

/// Whether every intermediate value of the 32-bit computation fits in
/// 32 bits.
pub open spec fn compensation_in_range(raw: u32, cal: Calibration) -> bool {
    &&& in_i32(spec_term1_product(raw, cal))
    &&& in_i32(spec_term2_square(raw, cal))
    &&& in_i32(spec_term2_product(raw, cal))
    &&& in_i32(spec_t_fine(raw, cal))
    &&& in_i32(spec_t_fine(raw, cal) * 5)
    &&& in_i32(spec_t_fine(raw, cal) * 5 + 128)
}

proof fn lemma_product_bounds(x: int, y: int, bx: int, by_: int)
    by (nonlinear_arith)
    requires
        -bx <= x <= bx,
        -by_ <= y <= by_,
    ensures
        -(bx * by_) <= x * y <= bx * by_,
{
}

/// Whether the 32-bit compensation of `raw` with `cal` stays in range.
pub fn compensation_fits(raw: u32, cal: Calibration) -> (fits: bool)
    ensures
        fits == compensation_in_range(raw, cal),
{
    let t1 = cal.dig_t1 as i64;
    let a = (raw / 8) as i64 - 2 * t1;
    proof { lemma_product_bounds(a as int, cal.dig_t2 as int, 536870911, 32768); }
    let p1 = a * (cal.dig_t2 as i64);
    let b = (raw / 16) as i64 - t1;
    proof { lemma_product_bounds(b as int, b as int, 268435455, 268435455); }
    let sq = b * b;
    assert(sq >= 0) by (nonlinear_arith)
        requires sq == b * b;
    let q = sq / 4096;
    assert(q <= 17592186044415);
    proof { lemma_product_bounds(q as int, cal.dig_t3 as int, 17592186044415, 32768); }
    let p2 = q * (cal.dig_t3 as i64);
    let t_fine = floor_div(p1, 2048) + floor_div(p2, 16384);
    let min = i32::MIN as i64;
    let max = i32::MAX as i64;
    min <= p1 && p1 <= max && sq <= max && min <= p2 && p2 <= max && min <= t_fine && t_fine
        <= max && min <= t_fine * 5 && t_fine * 5 <= max && t_fine * 5 + 128 <= max
}

fn floor_div(x: i64, d: i64) -> (q: i64)
    requires
        d > 0,
        -0x4000_0000_0000_0000 <= x <= 0x4000_0000_0000_0000,
    ensures
        q == x / d,
{
    if x >= 0 {
        x / d
    } else {
        let m = (-(x + 1)) / d;
        let q = -m - 1;
        assert(q == x / d) by (nonlinear_arith)
            requires d > 0, x < 0, m == (-(x + 1)) as int / (d as int), q == -m - 1;
        q
    }
}

/// The compensated temperature, in hundredths of a degree Celsius, of
/// the raw reading `raw` of a sensor calibrated with `cal`.
pub fn compensate_temperature(raw: u32, cal: Calibration) -> (temp: i32)
    requires
        compensation_in_range(raw, cal),
    ensures
        temp == spec_compensated(raw, cal),
{
    assert((raw >> 3u32) == raw / 8) by (bit_vector);
    assert((raw >> 4u32) == raw / 16) by (bit_vector);
    let t1 = cal.dig_t1 as i32;
    let difference1 = (raw >> 3) as i32 - t1 * 2;
    let product1 = difference1 * (cal.dig_t2 as i32);
    assert(product1 >= 0 ==> (product1 >> 11u32) == product1 / 2048) by (bit_vector);
    assert(product1 < 0 ==> (product1 >> 11u32) == -((-(product1 + 1)) / 2048) - 1) by (bit_vector);
    let var1 = product1 >> 11u32;
    assert(var1 == product1 as int / 2048);
    let difference2 = (raw >> 4) as i32 - t1;
    let square = difference2 * difference2;
    assert(square >= 0) by (nonlinear_arith)
        requires square == difference2 * difference2;
    assert((square >> 12u32) == square / 4096) by (bit_vector)
        requires square >= 0;
    let product2 = (square >> 12u32) * (cal.dig_t3 as i32);
    assert(product2 >= 0 ==> (product2 >> 14u32) == product2 / 16384) by (bit_vector);
    assert(product2 < 0 ==> (product2 >> 14u32) == -((-(product2 + 1)) / 16384) - 1) by (bit_vector);
    let var2 = product2 >> 14u32;
    assert(var2 == product2 as int / 16384);
    let t_fine = var1 + var2;
    let scaled = t_fine * 5 + 128;
    assert(scaled >= 0 ==> (scaled >> 8u32) == scaled / 256) by (bit_vector);
    assert(scaled < 0 ==> (scaled >> 8u32) == -((-(scaled + 1)) / 256) - 1) by (bit_vector);
    scaled >> 8u32
}

/// Integer division rounding towards zero, as Rust divides signed
/// integers.
pub open spec fn trunc_div(a: int, b: int) -> int {
    if a >= 0 { a / b } else { -((-a) / b) }
}

/// The whole degrees and the hundredths shown for a temperature in
/// hundredths of a degree: the quotient by 100 rounded towards zero, and
/// the magnitude's remainder.
pub fn temperature_parts(temp: i32) -> (parts: (i32, i32))
    requires
        temp != i32::MIN,
    ensures
        parts.0 == trunc_div(temp as int, 100),
        parts.1 == (if temp < 0 { -temp } else { temp as int }) % 100,
        parts.0 * 100 + (if temp < 0 { -parts.1 } else { parts.1 as int }) == temp,
{
    let magnitude = if temp < 0 { -temp } else { temp };
    (temp / 100, magnitude % 100)
}

/// The 32-bit two's complement encoding of `t`, as an unsigned number.
pub open spec fn spec_twos_complement(t: int) -> int {
    if t < 0 { t + 0x1_0000_0000 } else { t }
}

/// The big-endian bytes of a 32-bit two's complement number.
pub open spec fn spec_be_bytes_i32(t: i32) -> Seq<u8> {
    let u = spec_twos_complement(t as int);
    seq![
        (u / 0x100_0000) as u8,
        (u / 0x1_0000 % 256) as u8,
        (u / 256 % 256) as u8,
        (u % 256) as u8,
    ]
}

/// The big-endian bytes of a 16-bit number.
pub open spec fn spec_be_bytes_u16(a: u16) -> Seq<u8> {
    seq![(a / 256) as u8, (a % 256) as u8]
}

/// The value of four big-endian bytes read as a 32-bit two's complement
/// number.
pub open spec fn spec_be_i32(b: Seq<u8>) -> int {
    let v = b[0] * 0x100_0000 + b[1] * 0x1_0000 + b[2] * 256 + b[3];
    if v >= 0x8000_0000 { v - 0x1_0000_0000 } else { v }
}

/// The EEPROM frame that selects memory address `addr` for reading.
pub fn eeprom_address_bytes(addr: u16) -> (frame: [u8; 2])
    ensures
        frame@ == spec_be_bytes_u16(addr),
{
    [(addr / 256) as u8, (addr % 256) as u8]
}

/// The EEPROM frame that stores `temp` at memory address `addr`: the
/// address, then the temperature, both big-endian.
pub fn eeprom_log_frame(addr: u16, temp: i32) -> (frame: [u8; 6])
    ensures
        frame@ == spec_be_bytes_u16(addr) + spec_be_bytes_i32(temp),
{
    let u: u32 = if temp < 0 { (temp as i64 + 0x1_0000_0000) as u32 } else { temp as u32 };
    let frame = [
        (addr / 256) as u8,
        (addr % 256) as u8,
        (u / 0x100_0000) as u8,
        (u / 0x1_0000 % 256) as u8,
        (u / 256 % 256) as u8,
        (u % 256) as u8,
    ];
    assert(frame@ =~= spec_be_bytes_u16(addr) + spec_be_bytes_i32(temp));
    frame
}

/// The temperature stored in four bytes read back from the EEPROM.
pub fn stored_temperature(data: &[u8; 4]) -> (temp: i32)
    ensures
        temp == spec_be_i32(data@),
{
    let v: u32 = (data[0] as u32) * 0x100_0000 + (data[1] as u32) * 0x1_0000 + (data[2] as u32)
        * 256 + (data[3] as u32);
    if v >= 0x8000_0000 {
        ((v - 0x8000_0000) as i32) + i32::MIN
    } else {
        v as i32
    }
}

/// A temperature logged to the EEPROM reads back unchanged: the four
/// bytes after the address in a log frame decode to the logged value.
pub proof fn lemma_log_frame_round_trip(addr: u16, temp: i32)
    ensures
        spec_be_i32((spec_be_bytes_u16(addr) + spec_be_bytes_i32(temp)).subrange(2, 6))
            == temp,
{
    let u = spec_twos_complement(temp as int);
    let w = u as u32;
    assert(w == u);
    assert((w / 0x100_0000) * 0x100_0000 + (w / 0x1_0000 % 256) * 0x1_0000 + (w / 256 % 256) * 256
        + w % 256 == w) by (bit_vector);
    let s = (spec_be_bytes_u16(addr) + spec_be_bytes_i32(temp)).subrange(2, 6);
    assert(s =~= spec_be_bytes_i32(temp));
}

} // verus!
