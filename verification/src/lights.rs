//! PWM brightness control of LEDs, and the colour cycle of an RGB LED.
//!
//! The LEDs are wired active-low, so a compare level equal to the
//! counter period `top` keeps an LED dark and a lower compare level
//! lights it more.
use vstd::prelude::*;

verus! {

/// The dimmed compare level of the stepping LED: `top` minus a tenth of
/// `top` per brightness step.
pub fn stepped_compare(top: u16, brightness: u32) -> (compare: u16)
    requires
        top * brightness <= u32::MAX,
        top * brightness / 10 <= top,
    ensures
        compare == top - top * brightness / 10,
{
    (top as u32 - ((top as u32 * brightness) / 10)) as u16
}

/// One brightness step up on the ten-step ring.
pub open spec fn spec_step_up(brightness: int) -> int {
    (brightness + 1) % 10
}

/// One brightness step down on the ten-step ring.
pub open spec fn spec_step_down(brightness: int) -> int {
    (brightness + 9) % 10
}

/// The brightness step after one more step: `0` follows `9`.
pub fn step_up(brightness: u32) -> (next: u32)
    requires
        brightness < u32::MAX,
    ensures
        next == spec_step_up(brightness as int),
        brightness < 9 ==> next == brightness + 1,
        brightness == 9 ==> next == 0,
{
    (brightness + 1) % 10
}

/// The brightness step after one step back: `9` follows `0`.
pub fn step_down(brightness: u32) -> (next: u32)
    requires
        brightness + 9 <= u32::MAX,
    ensures
        next == spec_step_down(brightness as int),
        0 < brightness < 10 ==> next == brightness - 1,
        brightness == 0 ==> next == 9,
{
    (brightness + 9) % 10
}

/// The compare level for a potentiometer reading `level` (12 bits):
/// `top` minus the reading scaled to `top`. The product is taken in
/// 16 bits.
pub fn potentiometer_compare(level: u16, top: u16) -> (compare: u16)
    requires
        level * top <= u16::MAX,
        level * top / 4095 <= top,
    ensures
        compare == top - level * top / 4095,
{
    let brightness = (level * top) / 4095;
    top - brightness
}

pub open spec fn saturating_product(a: u32, b: u32) -> int {
    if a * b > u32::MAX { u32::MAX as int } else { a * b }
}

/// The compare level for brightness step `brightness` with saturating
/// arithmetic: `top` minus a tenth of `top` per step, never below zero.
pub fn saturating_stepped_compare(top: u16, brightness: u32) -> (compare: u16)
    ensures
        ({
            let lit: u16 = (saturating_product(top as u32, brightness) / 10) as u16;
            compare == (if top < lit { 0 } else { top - lit })
        }),
{
    let product: u32 = match (top as u32).checked_mul(brightness) {
        Some(p) => p,
        None => u32::MAX,
    };
    top.saturating_sub((product / 10) as u16)
}

/// The compare level for a brightness signalled on a scale of nine
/// steps: dark at `0`, otherwise `top` minus `top` scaled by
/// `brightness / 9`, never below zero.
pub fn signalled_compare(top: u16, brightness: u32) -> (compare: u16)
    requires
        top * brightness <= u32::MAX,
    ensures
        ({
            let lit: u16 = if brightness == 0 { 0 } else { (top * brightness / 9) as u16 };
            compare == (if top < lit { 0 } else { top - lit })
        }),
{
    let compare_value: u16 = if brightness == 0 {
        0
    } else {
        let scaled_brightness = ((top as u32) * brightness) / 9;
        scaled_brightness as u16
    };
    top.saturating_sub(compare_value)
}

/// A request to change an LED's brightness.
#[derive(Clone, Copy, Debug, PartialEq, Eq, Structural)]
pub enum LedCommand {
    Increase,
    Decrease,
}

/// Applies a command to a brightness kept within `0..=limit`.
pub open spec fn spec_apply_command(value: int, command: LedCommand, limit: int) -> int {
    match command {
        LedCommand::Increase => if value < limit { value + 1 } else { value },
        LedCommand::Decrease => if value > 0 { value - 1 } else { value },
    }
}

/// Applies a command to a brightness of ten steps (`0..=10`).
pub fn apply_brightness_command(brightness: u8, command: LedCommand) -> (next: u8)
    ensures
        next == spec_apply_command(brightness as int, command, 10),
        command == LedCommand::Increase && brightness < 10 ==> next == brightness + 1,
        command == LedCommand::Increase && brightness >= 10 ==> next == brightness,
        command == LedCommand::Decrease && brightness > 0 ==> next == brightness - 1,
        command == LedCommand::Decrease && brightness == 0 ==> next == 0,
{
    match command {
        LedCommand::Increase => if brightness < 10 { brightness + 1 } else { brightness },
        LedCommand::Decrease => if brightness > 0 { brightness - 1 } else { brightness },
    }
}

/// The compare level of an LED for brightness step `brightness` out of
/// ten: that many tenths of `top`, truncated to 16 bits.
pub fn tenths_compare(top: u16, brightness: u8) -> (compare: u16)
    ensures
        compare == #[verifier::truncate] ((top * brightness / 10) as u16),
        brightness <= 10 ==> compare <= top,
{
    assert(top * brightness <= 65535 * 255) by (nonlinear_arith)
        requires top <= 65535, brightness <= 255;
    assert(brightness <= 10 ==> top * brightness / 10 <= top) by (nonlinear_arith)
        requires top <= 65535, brightness <= 255;
    #[verifier::truncate] ((top as u32 * brightness as u32 / 10) as u16)
}

/// Applies a command to an intensity of `0..=255`.
pub fn apply_intensity_command(intensity: u8, command: LedCommand) -> (next: u8)
    ensures
        next == spec_apply_command(intensity as int, command, 255),
        command == LedCommand::Increase && intensity < 255 ==> next == intensity + 1,
        command == LedCommand::Increase && intensity == 255 ==> next == 255,
        command == LedCommand::Decrease && intensity > 0 ==> next == intensity - 1,
        command == LedCommand::Decrease && intensity == 0 ==> next == 0,
{
    match command {
        LedCommand::Increase => if intensity < 255 { intensity + 1 } else { intensity },
        LedCommand::Decrease => if intensity > 0 { intensity - 1 } else { intensity },
    }
}

/// The on and off times, in microseconds, of one period of the software
/// PWM for an intensity: 10 µs per intensity step lit, the rest of the
/// 2550 µs dark.
pub fn soft_pwm_times_us(intensity: u8) -> (times: (u64, u64))
    ensures
        times.0 == intensity * 10,
        times.1 == (255 - intensity) * 10,
        times.0 + times.1 == 2550,
{
    (intensity as u64 * 10, (255 - intensity) as u64 * 10)
}

/// The colour shown by the RGB LED.
#[derive(Clone, Copy, Debug, PartialEq, Eq, Structural)]
pub enum Color {
    Red,
    Yellow,
    Blue,
}

/// One PWM slice setting: counter period and the compare levels of
/// outputs A and B.
#[derive(Clone, Copy, Debug, PartialEq, Eq, Structural)]
pub struct PwmSetting {
    pub top: u16,
    pub compare_a: u16,
    pub compare_b: u16,
}

/// What a button press does to the RGB LED: the colour it switches to,
/// the setting of the slice driving red (A) and blue (B), and the
/// setting of the slice driving green (A).
#[derive(Clone, Copy, Debug, PartialEq, Eq, Structural)]
pub struct ColorChange {
    pub color: Color,
    pub red_blue: PwmSetting,
    pub green: PwmSetting,
}

pub open spec fn spec_next_color(c: Color) -> Color {
    match c {
        Color::Red => Color::Yellow,
        Color::Yellow => Color::Blue,
        Color::Blue => Color::Red,
    }
}

pub open spec fn spec_color_change(c: Color, top: u16) -> ColorChange {
    match c {
        Color::Red => ColorChange {
            color: Color::Yellow,
            red_blue: PwmSetting { top, compare_a: 0, compare_b: top },
            green: PwmSetting { top, compare_a: top, compare_b: top },
        },
        Color::Yellow => ColorChange {
            color: Color::Blue,
            red_blue: PwmSetting { top, compare_a: 0, compare_b: top },
            green: PwmSetting { top, compare_a: 0, compare_b: top },
        },
        Color::Blue => ColorChange {
            color: Color::Red,
            red_blue: PwmSetting { top, compare_a: top, compare_b: 0 },
            green: PwmSetting { top, compare_a: top, compare_b: 0 },
        },
    }
}

/// The effect of a button press on the RGB LED showing `color`, with
/// both slices counting to `top`. The green slice gets the setting left
/// over from the red/blue slice with its own output A set.
pub fn color_button_press(color: Color, top: u16) -> (change: ColorChange)
    ensures
        change == spec_color_change(color, top),
        change.color == spec_next_color(color),
{
    let mut setting = PwmSetting { top, compare_a: top, compare_b: 0 };
    match color {
        Color::Red => {
            setting.compare_a = 0;
            setting.compare_b = top;
            let red_blue = setting;
            setting.compare_a = top;
            ColorChange { color: Color::Yellow, red_blue, green: setting }
        },
        Color::Yellow => {
            setting.compare_a = 0;
            setting.compare_b = top;
            let red_blue = setting;
            setting.compare_a = 0;
            ColorChange { color: Color::Blue, red_blue, green: setting }
        },
        Color::Blue => {
            setting.compare_a = top;
            setting.compare_b = 0;
            let red_blue = setting;
            setting.compare_a = top;
            ColorChange { color: Color::Red, red_blue, green: setting }
        },
    }
}

/// Stepping the brightness down undoes stepping it up, and the other
/// way round.
pub proof fn lemma_steps_undo(brightness: u32)
    requires
        brightness < 10,
    ensures
        spec_step_down(spec_step_up(brightness as int)) == brightness,
        spec_step_up(spec_step_down(brightness as int)) == brightness,
{
}

/// A command keeps a bounded brightness within its bounds, and a
/// decrease undoes an increase that was not capped (and the other way
/// round).
pub proof fn lemma_commands_undo(value: int, limit: int)
    requires
        0 <= value <= limit,
    ensures
        0 <= spec_apply_command(value, LedCommand::Increase, limit) <= limit,
        0 <= spec_apply_command(value, LedCommand::Decrease, limit) <= limit,
        value < limit ==> spec_apply_command(
            spec_apply_command(value, LedCommand::Increase, limit),
            LedCommand::Decrease,
            limit,
        ) == value,
        value > 0 ==> spec_apply_command(
            spec_apply_command(value, LedCommand::Decrease, limit),
            LedCommand::Increase,
            limit,
        ) == value,
{
}

/// The colour cycles red, yellow, blue with period three, and each press
/// leaves both slices counting to `top`.
pub proof fn lemma_color_cycle(color: Color, top: u16)
    ensures
        spec_next_color(spec_next_color(spec_next_color(color))) == color,
        spec_next_color(color) != color,
        spec_color_change(color, top).red_blue.top == top,
        spec_color_change(color, top).green.top == top,
{
}

/// The value after a sequence of commands, applied in order from
/// `value`, kept within `0..=limit`.
pub open spec fn apply_commands(value: int, commands: Seq<LedCommand>, limit: int) -> int
    decreases commands.len(),
{
    if commands.len() == 0 {
        value
    } else {
        spec_apply_command(apply_commands(value, commands.drop_last(), limit), commands.last(), limit)
    }
}

/// Whatever commands arrive, a value that starts within `0..=limit`
/// stays within it.
pub proof fn lemma_command_sequence_bounded(value: int, commands: Seq<LedCommand>, limit: int)
    requires
        0 <= value <= limit,
    ensures
        0 <= apply_commands(value, commands, limit) <= limit,
    decreases commands.len(),
{
    if commands.len() > 0 {
        lemma_command_sequence_bounded(value, commands.drop_last(), limit);
    }
}

/// A brightness step moves by exactly one level on the ring of ten: up
/// from `b` below nine gives `b + 1` and from nine gives zero; down from
/// a positive `b` gives `b - 1` and from zero gives nine.
pub proof fn lemma_steps_move_one_level(b: int)
    requires
        0 <= b < 10,
    ensures
        b < 9 ==> spec_step_up(b) == b + 1,
        b == 9 ==> spec_step_up(b) == 0,
        b > 0 ==> spec_step_down(b) == b - 1,
        b == 0 ==> spec_step_down(b) == 9,
        0 <= spec_step_up(b) < 10,
        0 <= spec_step_down(b) < 10,
{
}

/// A command moves a bounded value by exactly one unit: an increase of a
/// value below the limit adds one and leaves the limit as it is; a
/// decrease of a positive value subtracts one and leaves zero as it is.
/// So an increase never lowers the value and a decrease never raises it.
pub proof fn lemma_commands_move_one_unit(value: int, limit: int)
    requires
        0 <= value <= limit,
    ensures
        value < limit ==> spec_apply_command(value, LedCommand::Increase, limit) == value + 1,
        value == limit ==> spec_apply_command(value, LedCommand::Increase, limit) == value,
        value > 0 ==> spec_apply_command(value, LedCommand::Decrease, limit) == value - 1,
        value == 0 ==> spec_apply_command(value, LedCommand::Decrease, limit) == 0,
        spec_apply_command(value, LedCommand::Increase, limit) >= value,
        spec_apply_command(value, LedCommand::Decrease, limit) <= value,
{
}

} // verus!
