//! Verified logic of a set of Raspberry Pi Pico 2 laboratory programs:
//! Morse code signalling, traffic-light controllers, PWM brightness and
//! servo control, MPU-6000 and BMP280 sensor frames, and the command
//! protocol of a small robot-control web front end.
//!
//! Every function here is a pure computation over plain values; the
//! hardware access (GPIO, PWM, SPI, I2C, timers, TCP) stays with the
//! caller, which performs the actions these functions decide on.
use vstd::prelude::*;

pub mod arith;
pub mod morse;
pub mod lamps;
pub mod traffic;
pub mod lights;
pub mod imu;
pub mod bmp280;
pub mod robot;

verus! {

/// The electrical level a pin is driven to. The LEDs of the boards are
/// wired active-low: a pin driven low lights its LED.
#[derive(Clone, Copy, Debug, PartialEq, Eq, Structural)]
pub enum Level {
    Low,
    High,
}

} // verus!
