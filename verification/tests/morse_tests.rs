use pico_labs::arith::divide;
use pico_labs::morse::{blink_message_plan, blink_morse_plan, letter_to_morse, Led, SignalAction};
use pico_labs::Level;

#[test]
fn divide_rounds_towards_zero() {
    assert_eq!(divide(23, 5), 4);
    assert_eq!(divide(0, 7), 0);
    assert_eq!(divide(u32::MAX, 1), u32::MAX);
}

#[test]
fn letters_have_codes_in_both_cases() {
    assert_eq!(letter_to_morse('a'), Some(".-"));
    assert_eq!(letter_to_morse('A'), Some(".-"));
    assert_eq!(letter_to_morse('s'), Some("..."));
    assert_eq!(letter_to_morse('O'), Some("---"));
    assert_eq!(letter_to_morse('z'), Some("--.."));
    assert_eq!(letter_to_morse('Q'), Some("--.-"));
    for (lower, upper) in ('a'..='z').zip('A'..='Z') {
        assert_eq!(letter_to_morse(lower), letter_to_morse(upper));
        let code = letter_to_morse(lower).unwrap();
        assert!(!code.is_empty() && code.len() <= 4);
        assert!(code.chars().all(|c| c == '.' || c == '-'));
    }
}

#[test]
fn other_characters_have_no_code() {
    assert_eq!(letter_to_morse('1'), None);
    assert_eq!(letter_to_morse(' '), None);
    assert_eq!(letter_to_morse('@'), None);
    assert_eq!(letter_to_morse('['), None);
    assert_eq!(letter_to_morse('é'), None);
}

fn dot() -> Vec<SignalAction> {
    vec![
        SignalAction::Drive(Led::Middle, Level::Low),
        SignalAction::WaitMs(200),
        SignalAction::Drive(Led::Middle, Level::High),
        SignalAction::WaitMs(200),
    ]
}

fn dash() -> Vec<SignalAction> {
    vec![
        SignalAction::Drive(Led::Left, Level::Low),
        SignalAction::Drive(Led::Middle, Level::Low),
        SignalAction::Drive(Led::Right, Level::Low),
        SignalAction::WaitMs(600),
        SignalAction::Drive(Led::Left, Level::High),
        SignalAction::Drive(Led::Middle, Level::High),
        SignalAction::Drive(Led::Right, Level::High),
        SignalAction::WaitMs(200),
    ]
}

#[test]
fn morse_plan_of_a() {
    let mut expected = dot();
    expected.extend(dash());
    expected.push(SignalAction::WaitMs(600));
    assert_eq!(blink_morse_plan(".-"), expected);
}

#[test]
fn morse_plan_ignores_unknown_symbols_but_waits() {
    assert_eq!(
        blink_morse_plan("x"),
        vec![SignalAction::WaitMs(200), SignalAction::WaitMs(600)]
    );
    assert_eq!(blink_morse_plan(""), vec![SignalAction::WaitMs(600)]);
}

fn letter(code: &str) -> Vec<SignalAction> {
    blink_morse_plan(code)
}

#[test]
fn message_plan_spaces_letters_and_words() {
    let mut expected = letter("....");
    expected.push(SignalAction::WaitMs(400));
    expected.extend(letter(".."));
    expected.push(SignalAction::WaitMs(400));
    expected.push(SignalAction::WaitMs(1000));
    expected.extend(letter("..."));
    assert_eq!(blink_message_plan("Hi s"), expected);
}

#[test]
fn message_plan_has_no_gap_after_last_ascii_char() {
    let plan = blink_message_plan("HELLO WORLD");
    assert_eq!(plan.last(), Some(&SignalAction::WaitMs(600)));
    let mut expected = letter("-..");
    assert!(plan.ends_with(&expected));
    expected.push(SignalAction::WaitMs(400));
    assert!(!plan.ends_with(&expected));
}

#[test]
fn message_plan_has_no_gap_after_last_char_of_any_message() {
    // "Eé": 'é' takes two bytes, yet it is still the last character.
    let mut expected = letter(".");
    expected.push(SignalAction::WaitMs(400));
    assert_eq!(blink_message_plan("Eé"), expected);
    let mut expected = vec![SignalAction::WaitMs(400)];
    expected.extend(letter(".-"));
    assert_eq!(blink_message_plan("éa"), expected);
    assert_eq!(blink_message_plan(""), Vec::<SignalAction>::new());
    assert_eq!(blink_message_plan("7"), Vec::<SignalAction>::new());
}

#[test]
fn distinct_letters_have_distinct_codes() {
    for (i, a) in ('a'..='z').enumerate() {
        for (j, b) in ('A'..='Z').enumerate() {
            assert_eq!(letter_to_morse(a) == letter_to_morse(b), i == j);
        }
    }
}

fn drives(plan: &[SignalAction]) -> Vec<SignalAction> {
    plan.iter().filter(|a| matches!(a, SignalAction::Drive(_, _))).copied().collect()
}

#[test]
fn joined_messages_drive_the_leds_alike() {
    for (a, b) in [("HELLO", " WORLD"), ("SOS", "sos"), ("", "E"), ("Eé", "t!")] {
        let joined = format!("{}{}", a, b);
        let mut expected = drives(&blink_message_plan(a));
        expected.extend(drives(&blink_message_plan(b)));
        assert_eq!(drives(&blink_message_plan(&joined)), expected);
    }
}

#[test]
fn message_plan_leaves_leds_dark() {
    let plan = blink_message_plan("SOS, HELP me!");
    for led in [Led::Left, Led::Middle, Led::Right] {
        let last = plan.iter().rev().find_map(|a| match a {
            SignalAction::Drive(l, level) if *l == led => Some(*level),
            _ => None,
        });
        assert_eq!(last, Some(Level::High));
    }
}
