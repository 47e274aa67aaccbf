use pico_labs::bmp280::{
    calibration, compensate_temperature, compensation_fits, eeprom_address_bytes,
    eeprom_log_frame, raw_temperature, stored_temperature, temperature_parts, Calibration,
};
use pico_labs::imu::{
    be_i16, burst_read_axes, burst_read_request, read_address, register_read_request,
    register_read_value, short_read_request, short_read_value, write_address, write_frame,
    ACCEL_XOUT_H, GYRO_CONFIG, WHO_AM_I,
};

#[test]
fn spi_address_bytes() {
    assert_eq!(read_address(0x3B), 0xBB);
    assert_eq!(read_address(WHO_AM_I), 0xF5);
    assert_eq!(read_address(0xBB), 0xBB);
    assert_eq!(write_address(0x1B), 0x1B);
    assert_eq!(write_address(0x9B), 0x1B);
    assert_eq!(write_frame(GYRO_CONFIG, 0x08), [0x1B, 0x08]);
}

#[test]
fn big_endian_values() {
    assert_eq!(be_i16(0x00, 0x01), 1);
    assert_eq!(be_i16(0x7F, 0xFF), 32767);
    assert_eq!(be_i16(0x80, 0x00), -32768);
    assert_eq!(be_i16(0xFF, 0xFF), -1);
    assert_eq!(be_i16(0x12, 0x34), i16::from_be_bytes([0x12, 0x34]));
}

#[test]
fn burst_read_frames() {
    assert_eq!(burst_read_request(ACCEL_XOUT_H), [0xBB, 0, 0, 0, 0, 0, 0]);
    let reply = [0xAA, 0x01, 0x00, 0xFF, 0xFE, 0x40, 0x00];
    assert_eq!(burst_read_axes(&reply), (256, -2, 16384));
}

#[test]
fn single_read_frames() {
    assert_eq!(register_read_request(0x43), [0xC3, 0, 0]);
    assert_eq!(register_read_value(&[0x00, 0xF0, 0x01]), -4095);
    assert_eq!(short_read_request(0x43), [0xC3, 0]);
    assert_eq!(short_read_value(&[0x01, 0x02]), 258);
}

#[test]
fn raw_temperature_from_registers() {
    assert_eq!(raw_temperature(&[0x7E, 0xED, 0x00]), 519888);
    assert_eq!(raw_temperature(&[0xFF, 0xFF, 0xFF]), 0xFFFFF);
    assert_eq!(raw_temperature(&[0x00, 0x00, 0x0F]), 0);
}

#[test]
fn calibration_words() {
    let data = [0x70, 0x6B, 0x43, 0x67, 0x18, 0xFC];
    assert_eq!(
        calibration(&data),
        Calibration { dig_t1: 27504, dig_t2: 26435, dig_t3: -1000 }
    );
}

#[test]
fn datasheet_compensation() {
    let cal = Calibration { dig_t1: 27504, dig_t2: 26435, dig_t3: -1000 };
    assert!(compensation_fits(519888, cal));
    assert_eq!(compensate_temperature(519888, cal), 2508);
    assert!(compensation_fits(0, cal));
    assert_eq!(compensate_temperature(0, cal), -14088);
}

#[test]
fn compensation_out_of_range_is_detected() {
    let cal = Calibration { dig_t1: 0, dig_t2: 32767, dig_t3: 32767 };
    assert!(!compensation_fits(0xFFFFF, cal));
}

#[test]
fn temperature_display_parts() {
    assert_eq!(temperature_parts(2508), (25, 8));
    assert_eq!(temperature_parts(-1234), (-12, 34));
    assert_eq!(temperature_parts(-5), (0, 5));
    assert_eq!(temperature_parts(0), (0, 0));
}

#[test]
fn eeprom_frames_round_trip() {
    assert_eq!(eeprom_address_bytes(0xACDC), [0xAC, 0xDC]);
    assert_eq!(eeprom_log_frame(0xACDC, 2508), [0xAC, 0xDC, 0x00, 0x00, 0x09, 0xCC]);
    assert_eq!(eeprom_log_frame(0x0001, -1), [0x00, 0x01, 0xFF, 0xFF, 0xFF, 0xFF]);
    for t in [0, 1, -1, 2508, -14088, i32::MAX, i32::MIN] {
        let frame = eeprom_log_frame(0xACDC, t);
        let data = [frame[2], frame[3], frame[4], frame[5]];
        assert_eq!(stored_temperature(&data), t);
        assert_eq!(data, t.to_be_bytes());
    }
    assert_eq!(stored_temperature(&[0x80, 0, 0, 0]), i32::MIN);
}
