use pico_labs::lights::{
    apply_brightness_command, apply_intensity_command, color_button_press, potentiometer_compare,
    saturating_stepped_compare, signalled_compare, soft_pwm_times_us, step_down, step_up,
    stepped_compare, tenths_compare, Color, ColorChange, LedCommand, PwmSetting,
};

#[test]
fn stepped_compare_values() {
    assert_eq!(stepped_compare(37000, 0), 37000);
    assert_eq!(stepped_compare(37000, 1), 33300);
    assert_eq!(stepped_compare(37000, 9), 3700);
}

#[test]
fn steps_wrap_and_undo() {
    assert_eq!(step_up(0), 1);
    assert_eq!(step_up(9), 0);
    assert_eq!(step_down(0), 9);
    assert_eq!(step_down(5), 4);
    for b in 0..10 {
        assert_eq!(step_down(step_up(b)), b);
        assert_eq!(step_up(step_down(b)), b);
    }
}

#[test]
fn potentiometer_compare_values() {
    assert_eq!(potentiometer_compare(0, 37000), 37000);
    assert_eq!(potentiometer_compare(1, 37000), 36991);
    assert_eq!(potentiometer_compare(4095, 16), 0);
}

#[test]
fn saturating_compare_values() {
    assert_eq!(saturating_stepped_compare(37000, 0), 37000);
    assert_eq!(saturating_stepped_compare(37000, 5), 18500);
    assert_eq!(saturating_stepped_compare(37000, 10), 0);
    assert_eq!(saturating_stepped_compare(37000, 11), 0);
    // The product saturates at u32::MAX, whose tenth truncates to 16 bits.
    assert_eq!(saturating_stepped_compare(65535, u32::MAX), 65535 - ((u32::MAX / 10) as u16));
}

#[test]
fn signalled_compare_values() {
    assert_eq!(signalled_compare(37000, 0), 37000);
    assert_eq!(signalled_compare(37000, 9), 0);
    assert_eq!(signalled_compare(37000, 3), 37000 - 12333);
    assert_eq!(signalled_compare(100, 18), 0);
}

#[test]
fn brightness_commands_stay_in_range() {
    assert_eq!(apply_brightness_command(5, LedCommand::Increase), 6);
    assert_eq!(apply_brightness_command(10, LedCommand::Increase), 10);
    assert_eq!(apply_brightness_command(0, LedCommand::Decrease), 0);
    assert_eq!(apply_brightness_command(5, LedCommand::Decrease), 4);
    for b in 0..10u8 {
        let up = apply_brightness_command(b, LedCommand::Increase);
        assert_eq!(apply_brightness_command(up, LedCommand::Decrease), b);
    }
}

#[test]
fn tenths_compare_values() {
    assert_eq!(tenths_compare(37000, 5), 18500);
    assert_eq!(tenths_compare(37000, 10), 37000);
    assert_eq!(tenths_compare(37000, 0), 0);
    assert_eq!(tenths_compare(65535, 255), ((65535u32 * 255 / 10) as u16));
}

#[test]
fn intensity_commands_and_times() {
    assert_eq!(apply_intensity_command(254, LedCommand::Increase), 255);
    assert_eq!(apply_intensity_command(255, LedCommand::Increase), 255);
    assert_eq!(apply_intensity_command(0, LedCommand::Decrease), 0);
    assert_eq!(apply_intensity_command(1, LedCommand::Decrease), 0);
    assert_eq!(soft_pwm_times_us(0), (0, 2550));
    assert_eq!(soft_pwm_times_us(100), (1000, 1550));
    assert_eq!(soft_pwm_times_us(255), (2550, 0));
    for i in 0..=255u8 {
        let (on, off) = soft_pwm_times_us(i);
        assert_eq!(on + off, 2550);
    }
}

#[test]
fn color_cycle() {
    let top = 0x9088;
    assert_eq!(
        color_button_press(Color::Red, top),
        ColorChange {
            color: Color::Yellow,
            red_blue: PwmSetting { top, compare_a: 0, compare_b: top },
            green: PwmSetting { top, compare_a: top, compare_b: top },
        }
    );
    assert_eq!(
        color_button_press(Color::Yellow, top),
        ColorChange {
            color: Color::Blue,
            red_blue: PwmSetting { top, compare_a: 0, compare_b: top },
            green: PwmSetting { top, compare_a: 0, compare_b: top },
        }
    );
    assert_eq!(
        color_button_press(Color::Blue, top),
        ColorChange {
            color: Color::Red,
            red_blue: PwmSetting { top, compare_a: top, compare_b: 0 },
            green: PwmSetting { top, compare_a: top, compare_b: 0 },
        }
    );
    let mut c = Color::Red;
    for _ in 0..3 {
        c = color_button_press(c, top).color;
    }
    assert_eq!(c, Color::Red);
}

#[test]
fn command_sequences_stay_in_range() {
    let commands = [
        LedCommand::Increase,
        LedCommand::Increase,
        LedCommand::Decrease,
        LedCommand::Increase,
        LedCommand::Increase,
        LedCommand::Increase,
        LedCommand::Increase,
        LedCommand::Increase,
        LedCommand::Increase,
        LedCommand::Increase,
    ];
    let mut brightness: u8 = 5;
    let mut intensity: u8 = 0;
    for c in commands {
        brightness = apply_brightness_command(brightness, c);
        intensity = apply_intensity_command(intensity, c);
        assert!(brightness <= 10);
        assert!(tenths_compare(37000, brightness) <= 37000);
    }
    assert_eq!(brightness, 10);
    assert_eq!(intensity, 8);
    for _ in 0..20 {
        brightness = apply_brightness_command(brightness, LedCommand::Decrease);
        intensity = apply_intensity_command(intensity, LedCommand::Decrease);
    }
    assert_eq!((brightness, intensity), (0, 0));
}
