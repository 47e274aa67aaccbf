//! Morse code signalling on three LEDs.
//!
//! A dot lights the middle LED for 200 ms, a dash lights all three LEDs
//! for 600 ms; symbols are followed by a 200 ms gap, a letter by a
//! further 600 ms, letters of a message by 400 ms (except after the last
//! character) and a space by a 1000 ms word pause. The LEDs are wired
//! active-low: driving a pin low lights its LED.
use vstd::prelude::*;
use vstd::string::StrSliceExecFns;
use crate::Level;

verus! {

/// One of the three signalling LEDs.
#[derive(Clone, Copy, Debug, PartialEq, Eq, Structural)]
pub enum Led {
    Left,
    Middle,
    Right,
}

/// A step of a signalling schedule: drive one LED pin, or wait.
#[derive(Clone, Copy, Debug, PartialEq, Eq, Structural)]
pub enum SignalAction {
    Drive(Led, Level),
    WaitMs(u64),
}

/// The Morse code of the letter with alphabet index `i` (`0` is A).
pub open spec fn morse_table(i: int) -> Seq<char> {
    if i == 0 { seq!['.', '-'] }
    else if i == 1 { seq!['-', '.', '.', '.'] }
    else if i == 2 { seq!['-', '.', '-', '.'] }
    else if i == 3 { seq!['-', '.', '.'] }
    else if i == 4 { seq!['.'] }
    else if i == 5 { seq!['.', '.', '-', '.'] }
    else if i == 6 { seq!['-', '-', '.'] }
    else if i == 7 { seq!['.', '.', '.', '.'] }
    else if i == 8 { seq!['.', '.'] }
    else if i == 9 { seq!['.', '-', '-', '-'] }
    else if i == 10 { seq!['-', '.', '-'] }
    else if i == 11 { seq!['.', '-', '.', '.'] }
    else if i == 12 { seq!['-', '-'] }
    else if i == 13 { seq!['-', '.'] }
    else if i == 14 { seq!['-', '-', '-'] }
    else if i == 15 { seq!['.', '-', '-', '.'] }
    else if i == 16 { seq!['-', '-', '.', '-'] }
    else if i == 17 { seq!['.', '-', '.'] }
    else if i == 18 { seq!['.', '.', '.'] }
    else if i == 19 { seq!['-'] }
    else if i == 20 { seq!['.', '.', '-'] }
    else if i == 21 { seq!['.', '.', '.', '-'] }
    else if i == 22 { seq!['.', '-', '-'] }
    else if i == 23 { seq!['-', '.', '.', '-'] }
    else if i == 24 { seq!['-', '.', '-', '-'] }
    else { seq!['-', '-', '.', '.'] }
}

pub open spec fn is_lower_letter(c: char) -> bool {
    'a' <= c <= 'z'
}

pub open spec fn is_upper_letter(c: char) -> bool {
    'A' <= c <= 'Z'
}

/// The Morse code of `c`: letters of either case have one, every other
/// character has none.
pub open spec fn morse_of(c: char) -> Option<Seq<char>> {
    if is_lower_letter(c) {
        Some(morse_table(c as int - 'a' as int))
    } else if is_upper_letter(c) {
        Some(morse_table(c as int - 'A' as int))
    } else {
        None
    }
}

fn morse_for_index(i: u32) -> (code: &'static str)
    requires
        i < 26,
    ensures
        code@ == morse_table(i as int),
{
    match i {
        0 => { proof { reveal_strlit(".-"); } ".-" },
        1 => { proof { reveal_strlit("-..."); } "-..." },
        2 => { proof { reveal_strlit("-.-."); } "-.-." },
        3 => { proof { reveal_strlit("-.."); } "-.." },
        4 => { proof { reveal_strlit("."); } "." },
        5 => { proof { reveal_strlit("..-."); } "..-." },
        6 => { proof { reveal_strlit("--."); } "--." },
        7 => { proof { reveal_strlit("...."); } "...." },
        8 => { proof { reveal_strlit(".."); } ".." },
        9 => { proof { reveal_strlit(".---"); } ".---" },
        10 => { proof { reveal_strlit("-.-"); } "-.-" },
        11 => { proof { reveal_strlit(".-.."); } ".-.." },
        12 => { proof { reveal_strlit("--"); } "--" },
        13 => { proof { reveal_strlit("-."); } "-." },
        14 => { proof { reveal_strlit("---"); } "---" },
        15 => { proof { reveal_strlit(".--."); } ".--." },
        16 => { proof { reveal_strlit("--.-"); } "--.-" },
        17 => { proof { reveal_strlit(".-."); } ".-." },
        18 => { proof { reveal_strlit("..."); } "..." },
        19 => { proof { reveal_strlit("-"); } "-" },
        20 => { proof { reveal_strlit("..-"); } "..-" },
        21 => { proof { reveal_strlit("...-"); } "...-" },
        22 => { proof { reveal_strlit(".--"); } ".--" },
        23 => { proof { reveal_strlit("-..-"); } "-..-" },
        24 => { proof { reveal_strlit("-.--"); } "-.--" },
        _ => { proof { reveal_strlit("--.."); } "--.." },
    }
}

/// The Morse code of a letter, in either case; `None` for any other
/// character.
pub fn letter_to_morse(c: char) -> (code: Option<&'static str>)
    ensures
        code is Some <==> morse_of(c) is Some,
        code is Some <==> ('a' <= c <= 'z' || 'A' <= c <= 'Z'),
        code matches Some(s) ==> s@ == morse_of(c)->0,
{
    if 'a' <= c && c <= 'z' {
        Some(morse_for_index((c as u32) - ('a' as u32)))
    } else if 'A' <= c && c <= 'Z' {
        Some(morse_for_index((c as u32) - ('A' as u32)))
    } else {
        None
    }
}


/// What signalling one Morse symbol does: a dot flashes the middle LED,
/// a dash all three, anything else only waits out the symbol gap.
pub open spec fn symbol_actions(symbol: char) -> Seq<SignalAction> {
    if symbol == '.' {
        seq![
            SignalAction::Drive(Led::Middle, Level::Low),
            SignalAction::WaitMs(200),
            SignalAction::Drive(Led::Middle, Level::High),
            SignalAction::WaitMs(200),
        ]
    } else if symbol == '-' {
        seq![
            SignalAction::Drive(Led::Left, Level::Low),
            SignalAction::Drive(Led::Middle, Level::Low),
            SignalAction::Drive(Led::Right, Level::Low),
            SignalAction::WaitMs(600),
            SignalAction::Drive(Led::Left, Level::High),
            SignalAction::Drive(Led::Middle, Level::High),
            SignalAction::Drive(Led::Right, Level::High),
            SignalAction::WaitMs(200),
        ]
    } else {
        seq![SignalAction::WaitMs(200)]
    }
}

/// The actions of the symbols of `code`, in order.
pub open spec fn symbols_actions(code: Seq<char>) -> Seq<SignalAction>
    decreases code.len(),
{
    if code.len() == 0 {
        seq![]
    } else {
        symbols_actions(code.drop_last()) + symbol_actions(code.last())
    }
}

/// The schedule that shows one Morse code: its symbols, then a 600 ms
/// letter gap.
pub open spec fn morse_actions(code: Seq<char>) -> Seq<SignalAction> {
    symbols_actions(code) + seq![SignalAction::WaitMs(600)]
}

/// What showing the character `c` itself does: a space is a 1000 ms
/// word pause, a letter is shown in Morse, any other character shows
/// nothing.
pub open spec fn shown_actions(c: char) -> Seq<SignalAction> {
    if c == ' ' {
        seq![SignalAction::WaitMs(1000)]
    } else {
        match morse_of(c) {
            Some(code) => morse_actions(code),
            None => seq![],
        }
    }
}

/// What showing the character `c` at position `i` of a message of
/// `char_count` characters does: the character is shown, and every
/// non-space character except the last is followed by a 400 ms letter
/// gap.
pub open spec fn char_actions(c: char, i: int, char_count: int) -> Seq<SignalAction> {
    if c != ' ' && i < char_count - 1 {
        shown_actions(c) + seq![SignalAction::WaitMs(400)]
    } else {
        shown_actions(c)
    }
}

/// The schedule of the first `n` characters of `message`.
pub open spec fn message_prefix_actions(message: Seq<char>, n: int) -> Seq<
    SignalAction,
>
    decreases n,
{
    if n <= 0 {
        seq![]
    } else {
        message_prefix_actions(message, n - 1) + char_actions(
            message[n - 1],
            n - 1,
            message.len() as int,
        )
    }
}

/// The schedule that shows a whole message.
pub open spec fn message_actions(message: Seq<char>) -> Seq<SignalAction> {
    message_prefix_actions(message, message.len() as int)
}

fn push_symbol_actions(actions: &mut Vec<SignalAction>, symbol: char)
    ensures
        final(actions)@ == old(actions)@ + symbol_actions(symbol),
{
    match symbol {
        '.' => {
            actions.push(SignalAction::Drive(Led::Middle, Level::Low));
            actions.push(SignalAction::WaitMs(200));
            actions.push(SignalAction::Drive(Led::Middle, Level::High));
        },
        '-' => {
            actions.push(SignalAction::Drive(Led::Left, Level::Low));
            actions.push(SignalAction::Drive(Led::Middle, Level::Low));
            actions.push(SignalAction::Drive(Led::Right, Level::Low));
            actions.push(SignalAction::WaitMs(600));
            actions.push(SignalAction::Drive(Led::Left, Level::High));
            actions.push(SignalAction::Drive(Led::Middle, Level::High));
            actions.push(SignalAction::Drive(Led::Right, Level::High));
        },
        _ => {},
    }
    actions.push(SignalAction::WaitMs(200));
}

fn push_morse_actions(actions: &mut Vec<SignalAction>, morse_code: &str)
    ensures
        final(actions)@ == old(actions)@ + morse_actions(morse_code@),
{
    let ghost start = actions@;
    for symbol in it: morse_code.chars()
        invariant
            it.seq() == morse_code@,
            actions@ == start + symbols_actions(morse_code@.take(it.index())),
    {
        let ghost i = it.index();
        push_symbol_actions(actions, symbol);
        proof {
            assert(morse_code@.take(i + 1).drop_last() =~= morse_code@.take(i));
            assert(morse_code@.take(i + 1).last() == symbol);
        }
    }
    assert(morse_code@.take(morse_code@.len() as int) =~= morse_code@);
    actions.push(SignalAction::WaitMs(600));
}

/// The schedule that shows one Morse code on the LEDs.
pub fn blink_morse_plan(morse_code: &str) -> (actions: Vec<SignalAction>)
    ensures
        actions@ == morse_actions(morse_code@),
{
    let mut actions: Vec<SignalAction> = Vec::new();
    push_morse_actions(&mut actions, morse_code);
    actions
}

/// The schedule that shows a message on the LEDs, letter by letter.
pub fn blink_message_plan(message: &str) -> (actions: Vec<SignalAction>)
    ensures
        actions@ == message_actions(message@),
{
    let char_count = message.unicode_len();
    let mut actions: Vec<SignalAction> = Vec::new();
    let mut i: usize = 0;
    for c in it: message.chars()
        invariant
            it.seq() == message@,
            char_count == message@.len(),
            i == it.index(),
            actions@ == message_prefix_actions(message@, i as int),
    {
        if c == ' ' {
            actions.push(SignalAction::WaitMs(1000));
        } else {
            match letter_to_morse(c) {
                Some(code) => push_morse_actions(&mut actions, code),
                None => {},
            }
            if i + 1 < char_count {
                actions.push(SignalAction::WaitMs(400));
            }
        }
        i = i + 1;
    }
    actions
}

/// The level an LED is left at by a schedule: the level of the last
/// action that drives it, if any does.
pub open spec fn final_level(actions: Seq<SignalAction>, led: Led) -> Option<Level>
    decreases actions.len(),
{
    if actions.len() == 0 {
        None
    } else {
        match actions.last() {
            SignalAction::Drive(l, level) => if l == led {
                Some(level)
            } else {
                final_level(actions.drop_last(), led)
            },
            SignalAction::WaitMs(_) => final_level(actions.drop_last(), led),
        }
    }
}

/// A schedule leaves every LED dark: no LED is left driven low.
pub open spec fn leaves_leds_dark(actions: Seq<SignalAction>) -> bool {
    forall|led: Led| #[trigger] final_level(actions, led) != Some(Level::Low)
}

proof fn lemma_final_level_concat(a: Seq<SignalAction>, b: Seq<SignalAction>, led: Led)
    ensures
        final_level(a + b, led) == (match final_level(b, led) {
            Some(level) => Some(level),
            None => final_level(a, led),
        }),
    decreases b.len(),
{
    if b.len() == 0 {
        assert(a + b =~= a);
    } else {
        assert((a + b).drop_last() =~= a + b.drop_last());
        assert((a + b).last() == b.last());
        lemma_final_level_concat(a, b.drop_last(), led);
    }
}

proof fn lemma_dark_concat(a: Seq<SignalAction>, b: Seq<SignalAction>)
    requires
        leaves_leds_dark(a),
        leaves_leds_dark(b),
    ensures
        leaves_leds_dark(a + b),
{
    assert forall|led: Led| #[trigger] final_level(a + b, led) != Some(Level::Low) by {
        lemma_final_level_concat(a, b, led);
        assert(final_level(a, led) != Some(Level::Low));
        assert(final_level(b, led) != Some(Level::Low));
    }
}

proof fn lemma_symbol_dark(symbol: char)
    ensures
        leaves_leds_dark(symbol_actions(symbol)),
{
    reveal_with_fuel(final_level, 9);
    let s = symbol_actions(symbol);
    assert forall|led: Led| #[trigger] final_level(s, led) != Some(Level::Low) by {
        if symbol == '.' {
            assert(s.drop_last().drop_last().drop_last().drop_last() =~= Seq::<SignalAction>::empty());
        } else if symbol == '-' {
        } else {
            assert(s.drop_last() =~= Seq::<SignalAction>::empty());
        }
    }
}

proof fn lemma_morse_dark(code: Seq<char>)
    ensures
        leaves_leds_dark(morse_actions(code)),
{
    lemma_symbols_dark(code);
    lemma_wait_dark(600);
    lemma_dark_concat(symbols_actions(code), seq![SignalAction::WaitMs(600)]);
}

proof fn lemma_symbols_dark(code: Seq<char>)
    ensures
        leaves_leds_dark(symbols_actions(code)),
    decreases code.len(),
{
    if code.len() == 0 {
        assert forall|led: Led| #[trigger] final_level(symbols_actions(code), led) != Some(Level::Low) by {}
    } else {
        lemma_symbols_dark(code.drop_last());
        lemma_symbol_dark(code.last());
        lemma_dark_concat(symbols_actions(code.drop_last()), symbol_actions(code.last()));
    }
}

proof fn lemma_wait_dark(ms: u64)
    ensures
        leaves_leds_dark(seq![SignalAction::WaitMs(ms)]),
{
    reveal_with_fuel(final_level, 2);
    let w = seq![SignalAction::WaitMs(ms)];
    assert forall|led: Led| #[trigger] final_level(w, led) != Some(Level::Low) by {
        assert(w.drop_last() =~= Seq::<SignalAction>::empty());
    }
}

/// Showing a message never leaves an LED lit: whatever the message, the
/// last action on each LED, if any, drives it high (dark).
pub proof fn lemma_message_leaves_leds_dark(message: Seq<char>)
    ensures
        leaves_leds_dark(message_actions(message)),
{
    lemma_prefix_dark(message, message.len() as int);
}

proof fn lemma_prefix_dark(message: Seq<char>, n: int)
    ensures
        leaves_leds_dark(message_prefix_actions(message, n)),
    decreases n,
{
    if n <= 0 {
        assert forall|led: Led| #[trigger] final_level(message_prefix_actions(message, n), led)
            != Some(Level::Low) by {}
    } else {
        lemma_prefix_dark(message, n - 1);
        let c = message[n - 1];
        lemma_wait_dark(1000);
        lemma_wait_dark(400);
        match morse_of(c) {
            Some(code) => lemma_morse_dark(code),
            None => {
                assert forall|led: Led| #[trigger] final_level(Seq::<SignalAction>::empty(), led)
                    != Some(Level::Low) by {}
            },
        }
        lemma_dark_concat(shown_actions(c), seq![SignalAction::WaitMs(400)]);
        lemma_dark_concat(
            message_prefix_actions(message, n - 1),
            char_actions(c, n - 1, message.len() as int),
        );
    }
}

/// Letters of either case share their code: the upper-case letter with
/// the same alphabet index as a lower-case one has the same Morse code.
pub proof fn lemma_morse_case_insensitive(lower: char)
    requires
        is_lower_letter(lower),
    ensures
        morse_of(lower) == morse_of(((lower as int) - 32) as char),
{
    let upper = ((lower as int) - 32) as char;
    assert(upper as int == lower as int - 32);
}

/// Every Morse code is one to four symbols, each a dot or a dash.
pub proof fn lemma_morse_code_shape(c: char)
    requires
        morse_of(c) is Some,
    ensures
        1 <= morse_of(c)->0.len() <= 4,
        forall|j: int|
            0 <= j < morse_of(c)->0.len() ==> #[trigger] morse_of(c)->0[j] == '.' || morse_of(c)->0[j]
                == '-',
{
}

/// The codes are those of the international Morse alphabet, for both
/// cases of every letter.
pub proof fn lemma_international_codes()
    ensures
        morse_of('A') == Some(seq!['.', '-']),
        morse_of('a') == Some(seq!['.', '-']),
        morse_of('B') == Some(seq!['-', '.', '.', '.']),
        morse_of('b') == Some(seq!['-', '.', '.', '.']),
        morse_of('C') == Some(seq!['-', '.', '-', '.']),
        morse_of('c') == Some(seq!['-', '.', '-', '.']),
        morse_of('D') == Some(seq!['-', '.', '.']),
        morse_of('d') == Some(seq!['-', '.', '.']),
        morse_of('E') == Some(seq!['.']),
        morse_of('e') == Some(seq!['.']),
        morse_of('F') == Some(seq!['.', '.', '-', '.']),
        morse_of('f') == Some(seq!['.', '.', '-', '.']),
        morse_of('G') == Some(seq!['-', '-', '.']),
        morse_of('g') == Some(seq!['-', '-', '.']),
        morse_of('H') == Some(seq!['.', '.', '.', '.']),
        morse_of('h') == Some(seq!['.', '.', '.', '.']),
        morse_of('I') == Some(seq!['.', '.']),
        morse_of('i') == Some(seq!['.', '.']),
        morse_of('J') == Some(seq!['.', '-', '-', '-']),
        morse_of('j') == Some(seq!['.', '-', '-', '-']),
        morse_of('K') == Some(seq!['-', '.', '-']),
        morse_of('k') == Some(seq!['-', '.', '-']),
        morse_of('L') == Some(seq!['.', '-', '.', '.']),
        morse_of('l') == Some(seq!['.', '-', '.', '.']),
        morse_of('M') == Some(seq!['-', '-']),
        morse_of('m') == Some(seq!['-', '-']),
        morse_of('N') == Some(seq!['-', '.']),
        morse_of('n') == Some(seq!['-', '.']),
        morse_of('O') == Some(seq!['-', '-', '-']),
        morse_of('o') == Some(seq!['-', '-', '-']),
        morse_of('P') == Some(seq!['.', '-', '-', '.']),
        morse_of('p') == Some(seq!['.', '-', '-', '.']),
        morse_of('Q') == Some(seq!['-', '-', '.', '-']),
        morse_of('q') == Some(seq!['-', '-', '.', '-']),
        morse_of('R') == Some(seq!['.', '-', '.']),
        morse_of('r') == Some(seq!['.', '-', '.']),
        morse_of('S') == Some(seq!['.', '.', '.']),
        morse_of('s') == Some(seq!['.', '.', '.']),
        morse_of('T') == Some(seq!['-']),
        morse_of('t') == Some(seq!['-']),
        morse_of('U') == Some(seq!['.', '.', '-']),
        morse_of('u') == Some(seq!['.', '.', '-']),
        morse_of('V') == Some(seq!['.', '.', '.', '-']),
        morse_of('v') == Some(seq!['.', '.', '.', '-']),
        morse_of('W') == Some(seq!['.', '-', '-']),
        morse_of('w') == Some(seq!['.', '-', '-']),
        morse_of('X') == Some(seq!['-', '.', '.', '-']),
        morse_of('x') == Some(seq!['-', '.', '.', '-']),
        morse_of('Y') == Some(seq!['-', '.', '-', '-']),
        morse_of('y') == Some(seq!['-', '.', '-', '-']),
        morse_of('Z') == Some(seq!['-', '-', '.', '.']),
        morse_of('z') == Some(seq!['-', '-', '.', '.']),
{
}

/// No letter gap follows the last character of a message: the schedule
/// ends with what showing that character does.
pub proof fn lemma_no_gap_after_last_char(message: Seq<char>)
    requires
        message.len() > 0,
    ensures
        message_actions(message) == message_prefix_actions(message, message.len() - 1)
            + shown_actions(message.last()),
{
}

/// The position of a letter in the alphabet, in either case.
pub open spec fn letter_index(c: char) -> int {
    if is_lower_letter(c) {
        c as int - 'a' as int
    } else {
        c as int - 'A' as int
    }
}

proof fn lemma_table_injective(i: int, j: int)
    requires
        0 <= i < 26,
        0 <= j < 26,
        morse_table(i) == morse_table(j),
    ensures
        i == j,
{
    let s = morse_table(i);
    let t = morse_table(j);
    assert(s.len() == t.len());
    assert(s[0] == t[0]);
    if s.len() > 1 {
        assert(s[1] == t[1]);
    }
    if s.len() > 2 {
        assert(s[2] == t[2]);
    }
    if s.len() > 3 {
        assert(s[3] == t[3]);
    }
}

/// Two letters share a Morse code exactly when they are the same letter
/// of the alphabet, whatever their case.
pub proof fn lemma_codes_distinct(c1: char, c2: char)
    requires
        morse_of(c1) is Some,
        morse_of(c2) is Some,
    ensures
        morse_of(c1) == morse_of(c2) <==> letter_index(c1) == letter_index(c2),
{
    if morse_of(c1) == morse_of(c2) {
        lemma_table_injective(letter_index(c1), letter_index(c2));
    }
}

/// The LED drives of a schedule, in order, without its waits.
pub open spec fn drives(actions: Seq<SignalAction>) -> Seq<SignalAction>
    decreases actions.len(),
{
    if actions.len() == 0 {
        seq![]
    } else {
        let rest = drives(actions.drop_last());
        match actions.last() {
            SignalAction::Drive(_, _) => rest.push(actions.last()),
            SignalAction::WaitMs(_) => rest,
        }
    }
}

proof fn lemma_drives_concat(a: Seq<SignalAction>, b: Seq<SignalAction>)
    ensures
        drives(a + b) == drives(a) + drives(b),
    decreases b.len(),
{
    if b.len() == 0 {
        assert(a + b =~= a);
        assert(drives(a) + drives(b) =~= drives(a));
    } else {
        assert((a + b).drop_last() =~= a + b.drop_last());
        assert((a + b).last() == b.last());
        lemma_drives_concat(a, b.drop_last());
        assert(drives(a) + drives(b.drop_last()).push(b.last()) =~= (drives(a) + drives(
            b.drop_last(),
        )).push(b.last()));
    }
}

/// The LED drives of showing the characters of `m`, one after another.
pub open spec fn letters_drives(m: Seq<char>) -> Seq<SignalAction>
    decreases m.len(),
{
    if m.len() == 0 {
        seq![]
    } else {
        letters_drives(m.drop_last()) + drives(shown_actions(m.last()))
    }
}

proof fn lemma_char_drives(c: char, i: int, count: int)
    ensures
        drives(char_actions(c, i, count)) == drives(shown_actions(c)),
{
    reveal_with_fuel(drives, 2);
    let gap = seq![SignalAction::WaitMs(400)];
    lemma_drives_concat(shown_actions(c), gap);
    assert(gap.drop_last() =~= Seq::<SignalAction>::empty());
    assert(drives(gap) =~= Seq::<SignalAction>::empty());
    assert(drives(shown_actions(c)) + drives(gap) =~= drives(shown_actions(c)));
}

proof fn lemma_prefix_drives(m: Seq<char>, n: int)
    requires
        0 <= n <= m.len(),
    ensures
        drives(message_prefix_actions(m, n)) == letters_drives(m.take(n)),
    decreases n,
{
    if n == 0 {
        assert(m.take(0) =~= Seq::<char>::empty());
    } else {
        lemma_prefix_drives(m, n - 1);
        lemma_drives_concat(
            message_prefix_actions(m, n - 1),
            char_actions(m[n - 1], n - 1, m.len() as int),
        );
        lemma_char_drives(m[n - 1], n - 1, m.len() as int);
        assert(m.take(n).drop_last() =~= m.take(n - 1));
        assert(m.take(n).last() == m[n - 1]);
    }
}

proof fn lemma_letters_drives_concat(a: Seq<char>, b: Seq<char>)
    ensures
        letters_drives(a + b) == letters_drives(a) + letters_drives(b),
    decreases b.len(),
{
    if b.len() == 0 {
        assert(a + b =~= a);
        assert(letters_drives(a) + letters_drives(b) =~= letters_drives(a));
    } else {
        assert((a + b).drop_last() =~= a + b.drop_last());
        assert((a + b).last() == b.last());
        lemma_letters_drives_concat(a, b.drop_last());
        assert(letters_drives(a) + letters_drives(b.drop_last()) + drives(shown_actions(b.last()))
            =~= letters_drives(a) + (letters_drives(b.drop_last()) + drives(
            shown_actions(b.last()),
        )));
    }
}

/// Showing two messages one after the other drives the LEDs as showing
/// them joined does: only the waits between them differ.
pub proof fn lemma_joined_messages(a: Seq<char>, b: Seq<char>)
    ensures
        drives(message_actions(a + b)) == drives(message_actions(a)) + drives(
            message_actions(b),
        ),
{
    lemma_prefix_drives(a + b, (a + b).len() as int);
    lemma_prefix_drives(a, a.len() as int);
    lemma_prefix_drives(b, b.len() as int);
    assert((a + b).take((a + b).len() as int) =~= a + b);
    assert(a.take(a.len() as int) =~= a);
    assert(b.take(b.len() as int) =~= b);
    lemma_letters_drives_concat(a, b);
}

/// How many times `a` occurs in a schedule.
pub open spec fn count_action(actions: Seq<SignalAction>, a: SignalAction) -> nat
    decreases actions.len(),
{
    if actions.len() == 0 {
        0
    } else {
        count_action(actions.drop_last(), a) + if actions.last() == a { 1nat } else { 0nat }
    }
}

/// The total time, in milliseconds, that a schedule waits.
pub open spec fn total_wait_ms(actions: Seq<SignalAction>) -> nat
    decreases actions.len(),
{
    if actions.len() == 0 {
        0
    } else {
        total_wait_ms(actions.drop_last()) + match actions.last() {
            SignalAction::WaitMs(ms) => ms as nat,
            SignalAction::Drive(_, _) => 0nat,
        }
    }
}

/// How many times `c` occurs in `text`.
pub open spec fn count_char(text: Seq<char>, c: char) -> nat
    decreases text.len(),
{
    if text.len() == 0 {
        0
    } else {
        count_char(text.drop_last(), c) + if text.last() == c { 1nat } else { 0nat }
    }
}

proof fn lemma_counts_concat(x: Seq<SignalAction>, y: Seq<SignalAction>)
    ensures
        forall|a: SignalAction| #[trigger] count_action(x + y, a) == count_action(x, a) + count_action(y, a),
        total_wait_ms(x + y) == total_wait_ms(x) + total_wait_ms(y),
    decreases y.len(),
{
    if y.len() == 0 {
        assert(x + y =~= x);
        assert forall|a: SignalAction| #[trigger] count_action(x + y, a) == count_action(x, a)
            + count_action(y, a) by {}
    } else {
        assert((x + y).drop_last() =~= x + y.drop_last());
        assert((x + y).last() == y.last());
        lemma_counts_concat(x, y.drop_last());
        assert forall|a: SignalAction| #[trigger] count_action(x + y, a) == count_action(x, a)
            + count_action(y, a) by {
            assert(count_action(x + y.drop_last(), a) == count_action(x, a) + count_action(
                y.drop_last(),
                a,
            ));
        }
    }
}

/// Showing a code shows each of its symbols in turn: the schedule of a
/// code with one more symbol is the schedule of the code followed by that
/// symbol's.
pub proof fn lemma_symbols_push(code: Seq<char>, symbol: char)
    ensures
        symbols_actions(code.push(symbol)) == symbols_actions(code) + symbol_actions(symbol),
{
    assert(code.push(symbol).drop_last() =~= code);
}

proof fn lemma_symbol_counts(symbol: char)
    requires
        symbol == '.' || symbol == '-',
    ensures
        count_action(symbol_actions(symbol), SignalAction::Drive(Led::Middle, Level::Low)) == 1,
        count_action(symbol_actions(symbol), SignalAction::Drive(Led::Middle, Level::High)) == 1,
        count_action(symbol_actions(symbol), SignalAction::Drive(Led::Left, Level::Low)) == (if symbol
            == '-' { 1nat } else { 0nat }),
        count_action(symbol_actions(symbol), SignalAction::Drive(Led::Right, Level::Low)) == (if symbol
            == '-' { 1nat } else { 0nat }),
        total_wait_ms(symbol_actions(symbol)) == (if symbol == '-' { 800nat } else { 400nat }),
{
    reveal_with_fuel(count_action, 9);
    reveal_with_fuel(total_wait_ms, 9);
}

/// Showing a code of dots and dashes shows every symbol: the middle LED
/// lights once per symbol, the outer LEDs once per dash, and the schedule
/// lasts 400 ms per dot, 800 ms per dash and 600 ms more.
pub proof fn lemma_morse_shows_every_symbol(code: Seq<char>)
    requires
        forall|j: int| 0 <= j < code.len() ==> #[trigger] code[j] == '.' || code[j] == '-',
    ensures
        count_action(morse_actions(code), SignalAction::Drive(Led::Middle, Level::Low))
            == code.len(),
        count_action(morse_actions(code), SignalAction::Drive(Led::Middle, Level::High))
            == code.len(),
        count_action(morse_actions(code), SignalAction::Drive(Led::Left, Level::Low))
            == count_char(code, '-'),
        count_action(morse_actions(code), SignalAction::Drive(Led::Right, Level::Low))
            == count_char(code, '-'),
        total_wait_ms(morse_actions(code)) == 400 * count_char(code, '.') + 800 * count_char(
            code,
            '-',
        ) + 600,
    decreases code.len(),
{
    lemma_symbols_counts(code);
    let tail = seq![SignalAction::WaitMs(600)];
    lemma_counts_concat(symbols_actions(code), tail);
    reveal_with_fuel(count_action, 2);
    reveal_with_fuel(total_wait_ms, 2);
    assert(tail.drop_last() =~= Seq::<SignalAction>::empty());
}

proof fn lemma_symbols_counts(code: Seq<char>)
    requires
        forall|j: int| 0 <= j < code.len() ==> #[trigger] code[j] == '.' || code[j] == '-',
    ensures
        count_action(symbols_actions(code), SignalAction::Drive(Led::Middle, Level::Low))
            == code.len(),
        count_action(symbols_actions(code), SignalAction::Drive(Led::Middle, Level::High))
            == code.len(),
        count_action(symbols_actions(code), SignalAction::Drive(Led::Left, Level::Low))
            == count_char(code, '-'),
        count_action(symbols_actions(code), SignalAction::Drive(Led::Right, Level::Low))
            == count_char(code, '-'),
        total_wait_ms(symbols_actions(code)) == 400 * count_char(code, '.') + 800 * count_char(
            code,
            '-',
        ),
    decreases code.len(),
{
    if code.len() > 0 {
        let rest = code.drop_last();
        assert forall|j: int| 0 <= j < rest.len() implies #[trigger] rest[j] == '.' || rest[j]
            == '-' by {
            assert(rest[j] == code[j]);
        }
        lemma_symbols_counts(rest);
        assert(code[code.len() - 1] == '.' || code[code.len() - 1] == '-');
        lemma_symbol_counts(code.last());
        lemma_counts_concat(symbols_actions(rest), symbol_actions(code.last()));
    }
}

} // verus!
