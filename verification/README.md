# pico_labs

Verified decision logic of a set of Raspberry Pi Pico 2 (RP2350)
laboratory programs, written in Verus.

- `src/` is the library. Every function is a computation on plain
  values, proved against its contract:
  - `morse`: letter codes and the LED schedules that show a code or a
    message;
  - `lamps`: lamp writes and the lamp states they pass through;
  - `traffic`: traffic-light phases and the ordered lamp writes, waits
    and stored codes of each phase, the flashing yellow lamp, the fixed
    lamp sequences, the buzzer pattern and the servo position shared by
    phase;
  - `lights`: PWM brightness steps, brightness commands and the RGB
    colour cycle;
  - `imu`: SPI frames of the MPU-6000 and the values in its replies;
  - `bmp280`: BMP280 registers, calibration, temperature compensation
    and the EEPROM log frame;
  - `robot`: the command protocol of the robot-control web page;
  - `arith`: integer division.
- `tests/` runs the library on concrete values.
- `app/` holds the programs themselves: the firmware entry points and
  tasks (GPIO, PWM, ADC, SPI, I2C and timers through Embassy) and the
  robot-control web server (actix-web and tokio). They perform what the
  library decides. The firmware modules build only for the RP2350
  target.
