//! Traffic-light controllers.
//!
//! The light cycles green, yellow, red, green; its phase is shared with a
//! buzzer task and a servo task through a code (`0` green, `1` yellow,
//! `2` red). The lamps are wired active-low.
use vstd::prelude::*;
use crate::Level;
use crate::lamps::{
    lemma_one_lit_final, lemma_short_runs, lemma_run_concat, lit_lamps, one_lit_throughout,
    run_writes, Lamp, LampState, LampWrite,
};

verus! {

/// The phase of the traffic light.
#[derive(Clone, Copy, Debug, PartialEq, Eq, Structural)]
pub enum TrafficState {
    Green,
    Yellow,
    Red,
}

/// The phase after `s`: green, yellow, red, and round again.
pub open spec fn spec_next(s: TrafficState) -> TrafficState {
    match s {
        TrafficState::Green => TrafficState::Yellow,
        TrafficState::Yellow => TrafficState::Red,
        TrafficState::Red => TrafficState::Green,
    }
}

/// The code of a phase shared with the buzzer and servo tasks.
pub open spec fn spec_code(s: TrafficState) -> u32 {
    match s {
        TrafficState::Green => 0,
        TrafficState::Yellow => 1,
        TrafficState::Red => 2,
    }
}

impl TrafficState {
    /// The phase that follows this one.
    pub fn next(self) -> (n: TrafficState)
        ensures
            n == spec_next(self),
    {
        match self {
            TrafficState::Green => TrafficState::Yellow,
            TrafficState::Yellow => TrafficState::Red,
            TrafficState::Red => TrafficState::Green,
        }
    }

    /// The code under which the phase is shared with the other tasks.
    pub fn code(self) -> (c: u32)
        ensures
            c == spec_code(self),
    {
        match self {
            TrafficState::Green => 0,
            TrafficState::Yellow => 1,
            TrafficState::Red => 2,
        }
    }

    /// How long the phase lasts when no button ends it early.
    pub fn duration_ms(self) -> (ms: u64)
        ensures
            ms == (match self {
                TrafficState::Green => 5000u64,
                TrafficState::Yellow => 1000u64,
                TrafficState::Red => 2000u64,
            }),
    {
        match self {
            TrafficState::Green => 5000,
            TrafficState::Yellow => 1000,
            TrafficState::Red => 2000,
        }
    }
}

/// What a phase of the shared-phase light does to its lamps: the writes
/// that start it, and, for yellow, the wait before the first check of
/// the flashing (`0` when the lamp does not flash).
#[derive(Debug, PartialEq, Eq)]
pub struct LedStatePlan {
    pub writes: Vec<LampWrite>,
    pub flash_wait_ms: u64,
}

/// The writes that start a phase: green lights its lamp and darkens
/// yellow and red; yellow darkens green and red and lights its lamp for
/// the first flash; red darkens green and yellow and lights its lamp.
pub open spec fn spec_led_state_writes(state: TrafficState) -> Seq<LampWrite> {
    match state {
        TrafficState::Green => seq![
            LampWrite::Drive(Lamp::Green, Level::Low),
            LampWrite::Drive(Lamp::Yellow, Level::High),
            LampWrite::Drive(Lamp::Red, Level::High),
        ],
        TrafficState::Yellow => seq![
            LampWrite::Drive(Lamp::Green, Level::High),
            LampWrite::Drive(Lamp::Red, Level::High),
            LampWrite::Drive(Lamp::Yellow, Level::Low),
        ],
        TrafficState::Red => seq![
            LampWrite::Drive(Lamp::Green, Level::High),
            LampWrite::Drive(Lamp::Yellow, Level::High),
            LampWrite::Drive(Lamp::Red, Level::Low),
        ],
    }
}

/// The wait, in milliseconds, before each check of the flashing yellow
/// lamp.
pub const FLASH_WAIT_MS: u64 = 125;

/// How a phase starts its lamps.
pub fn led_state_plan(state: TrafficState) -> (plan: LedStatePlan)
    ensures
        plan.writes@ == spec_led_state_writes(state),
        plan.flash_wait_ms == (if state == TrafficState::Yellow { 125u64 } else { 0u64 }),
{
    match state {
        TrafficState::Green => LedStatePlan {
            writes: vec![
                LampWrite::Drive(Lamp::Green, Level::Low),
                LampWrite::Drive(Lamp::Yellow, Level::High),
                LampWrite::Drive(Lamp::Red, Level::High),
            ],
            flash_wait_ms: 0,
        },
        TrafficState::Yellow => LedStatePlan {
            writes: vec![
                LampWrite::Drive(Lamp::Green, Level::High),
                LampWrite::Drive(Lamp::Red, Level::High),
                LampWrite::Drive(Lamp::Yellow, Level::Low),
            ],
            flash_wait_ms: FLASH_WAIT_MS,
        },
        TrafficState::Red => LedStatePlan {
            writes: vec![
                LampWrite::Drive(Lamp::Green, Level::High),
                LampWrite::Drive(Lamp::Yellow, Level::High),
                LampWrite::Drive(Lamp::Red, Level::Low),
            ],
            flash_wait_ms: 0,
        },
    }
}

/// One decision of the flashing yellow lamp: the level to drive, whether
/// the flashing goes on, and the wait before the next check (`0` when
/// it stops).
#[derive(Clone, Copy, Debug, PartialEq, Eq, Structural)]
pub struct FlashStep {
    pub level: Level,
    pub go_on: bool,
    pub wait_ms: u64,
}

/// One decision of the flashing yellow lamp, taken after each 125 ms
/// wait: while the shared code still says yellow the lamp toggles and
/// the flashing goes on after another 125 ms; otherwise the lamp is
/// switched dark and the flashing stops. With the first wait of the
/// phase plan, the lamp flashes with a period of 250 ms while the code
/// stays yellow, and a code that has already changed ends the flashing
/// at the first check, one wait after the phase started.
pub fn yellow_flash_step(current: Level, shared_code: u32) -> (step: FlashStep)
    ensures
        step.go_on == (shared_code == 1),
        step.wait_ms == (if shared_code == 1 { 125u64 } else { 0u64 }),
        step.level == (if shared_code != 1 {
            Level::High
        } else if current == Level::Low {
            Level::High
        } else {
            Level::Low
        }),
{
    if shared_code != 1 {
        FlashStep { level: Level::High, go_on: false, wait_ms: 0 }
    } else {
        match current {
            Level::Low => FlashStep { level: Level::High, go_on: true, wait_ms: FLASH_WAIT_MS },
            Level::High => FlashStep { level: Level::Low, go_on: true, wait_ms: FLASH_WAIT_MS },
        }
    }
}

/// What a phase of the two-button light does (the variant whose buzzer
/// follows the phase): the lamp writes that start it, the code stored on
/// entry, if any; then a wait of `wait_ms` milliseconds that both
/// buttons pressed end early (`0` for no wait); then `flashes` flashes
/// of the yellow lamp, lit for `flash_on_ms` and dark for `flash_off_ms`
/// each; then the phase moves to `next`, stores `code_on_exit`, if any,
/// and makes the exit writes. The variant without a buzzer follows the
/// same plan and stores no code.
#[derive(Debug, PartialEq, Eq)]
pub struct JoinPhasePlan {
    pub entry: Vec<LampWrite>,
    pub code_on_entry: Option<u32>,
    pub wait_ms: u64,
    pub flashes: u32,
    pub flash_on_ms: u64,
    pub flash_off_ms: u64,
    pub next: TrafficState,
    pub code_on_exit: Option<u32>,
    pub exit: Vec<LampWrite>,
}

/// The entry writes of each phase of the two-button light.
pub open spec fn spec_join_entry(state: TrafficState) -> Seq<LampWrite> {
    match state {
        TrafficState::Green => seq![
            LampWrite::Drive(Lamp::Green, Level::Low),
            LampWrite::Drive(Lamp::Red, Level::High),
            LampWrite::Drive(Lamp::Yellow, Level::High),
        ],
        TrafficState::Yellow => seq![
            LampWrite::Drive(Lamp::Red, Level::High),
            LampWrite::Drive(Lamp::Green, Level::High),
        ],
        TrafficState::Red => seq![
            LampWrite::Drive(Lamp::Red, Level::Low),
            LampWrite::Drive(Lamp::Green, Level::High),
            LampWrite::Drive(Lamp::Yellow, Level::High),
        ],
    }
}

/// The exit writes of each phase of the two-button light.
pub open spec fn spec_join_exit(state: TrafficState) -> Seq<LampWrite> {
    match state {
        TrafficState::Green => seq![LampWrite::Drive(Lamp::Green, Level::High)],
        TrafficState::Yellow => seq![],
        TrafficState::Red => seq![LampWrite::Drive(Lamp::Red, Level::High)],
    }
}

/// What each phase of the two-button light does: green lights its lamp
/// for 5 s, yellow flashes four times (125 ms lit, 125 ms dark), red lights
/// its lamp for 2 s; the yellow phase stores its code on entry, and each
/// phase stores the code of the next one as it ends.
pub fn join_phase_plan(state: TrafficState) -> (plan: JoinPhasePlan)
    ensures
        plan.entry@ == spec_join_entry(state),
        plan.exit@ == spec_join_exit(state),
        plan.next == spec_next(state),
        plan.code_on_exit == Some(spec_code(spec_next(state))),
        plan.code_on_entry == (if state == TrafficState::Yellow { Some(1u32) } else { None }),
        plan.wait_ms == (match state {
            TrafficState::Green => 5000u64,
            TrafficState::Yellow => 0u64,
            TrafficState::Red => 2000u64,
        }),
        plan.flashes == (if state == TrafficState::Yellow { 4u32 } else { 0u32 }),
        plan.flash_on_ms == (if state == TrafficState::Yellow { 125u64 } else { 0u64 }),
        plan.flash_off_ms == (if state == TrafficState::Yellow { 125u64 } else { 0u64 }),
{
    let next = state.next();
    let code_on_exit = Some(next.code());
    match state {
        TrafficState::Green => JoinPhasePlan {
            entry: vec![
                LampWrite::Drive(Lamp::Green, Level::Low),
                LampWrite::Drive(Lamp::Red, Level::High),
                LampWrite::Drive(Lamp::Yellow, Level::High),
            ],
            code_on_entry: None,
            wait_ms: 5000,
            flashes: 0,
            flash_on_ms: 0,
            flash_off_ms: 0,
            next,
            code_on_exit,
            exit: vec![LampWrite::Drive(Lamp::Green, Level::High)],
        },
        TrafficState::Yellow => JoinPhasePlan {
            entry: vec![
                LampWrite::Drive(Lamp::Red, Level::High),
                LampWrite::Drive(Lamp::Green, Level::High),
            ],
            code_on_entry: Some(state.code()),
            wait_ms: 0,
            flashes: 4,
            flash_on_ms: FLASH_WAIT_MS,
            flash_off_ms: FLASH_WAIT_MS,
            next,
            code_on_exit,
            exit: Vec::new(),
        },
        TrafficState::Red => JoinPhasePlan {
            entry: vec![
                LampWrite::Drive(Lamp::Red, Level::Low),
                LampWrite::Drive(Lamp::Green, Level::High),
                LampWrite::Drive(Lamp::Yellow, Level::High),
            ],
            code_on_entry: None,
            wait_ms: 2000,
            flashes: 0,
            flash_on_ms: 0,
            flash_off_ms: 0,
            next,
            code_on_exit,
            exit: vec![LampWrite::Drive(Lamp::Red, Level::High)],
        },
    }
}

/// A step of a fixed lamp sequence: a lamp write, a wait in
/// milliseconds, or a wait for the button's press.
#[derive(Clone, Copy, Debug, PartialEq, Eq, Structural)]
pub enum LightStep {
    Write(LampWrite),
    WaitMs(u64),
    WaitButton,
}

pub open spec fn drive_step(lamp: Lamp, level: Level) -> LightStep {
    LightStep::Write(LampWrite::Drive(lamp, level))
}

/// `n` blinks of the blue pedestrian lamp: 500 ms lit, 500 ms dark.
pub open spec fn blue_blinks(n: nat) -> Seq<LightStep>
    decreases n,
{
    if n == 0 {
        seq![]
    } else {
        blue_blinks((n - 1) as nat) + seq![
            drive_step(Lamp::Blue, Level::Low),
            LightStep::WaitMs(500),
            drive_step(Lamp::Blue, Level::High),
            LightStep::WaitMs(500),
        ]
    }
}

/// One round of the pedestrian crossing: green until the button is
/// pressed, yellow for 1 s, then red while the blue lamp blinks five
/// times.
pub open spec fn spec_crossing_round() -> Seq<LightStep> {
    seq![
        drive_step(Lamp::Green, Level::Low),
        LightStep::WaitButton,
        drive_step(Lamp::Yellow, Level::Low),
        drive_step(Lamp::Green, Level::High),
        LightStep::WaitMs(1000),
        drive_step(Lamp::Yellow, Level::High),
        drive_step(Lamp::Red, Level::Low),
    ] + blue_blinks(5) + seq![drive_step(Lamp::Red, Level::High)]
}

fn push_drive(steps: &mut Vec<LightStep>, lamp: Lamp, level: Level)
    ensures
        final(steps)@ == old(steps)@.push(drive_step(lamp, level)),
{
    steps.push(LightStep::Write(LampWrite::Drive(lamp, level)));
}

/// The steps of one round of the pedestrian crossing.
pub fn crossing_round() -> (steps: Vec<LightStep>)
    ensures
        steps@ == spec_crossing_round(),
{
    let mut steps: Vec<LightStep> = Vec::new();
    push_drive(&mut steps, Lamp::Green, Level::Low);
    steps.push(LightStep::WaitButton);
    push_drive(&mut steps, Lamp::Yellow, Level::Low);
    push_drive(&mut steps, Lamp::Green, Level::High);
    steps.push(LightStep::WaitMs(1000));
    push_drive(&mut steps, Lamp::Yellow, Level::High);
    push_drive(&mut steps, Lamp::Red, Level::Low);
    let ghost head = steps@;
    let mut i: u32 = 0;
    while i < 5
        invariant
            i <= 5,
            steps@ == head + blue_blinks(i as nat),
        decreases 5 - i,
    {
        push_drive(&mut steps, Lamp::Blue, Level::Low);
        steps.push(LightStep::WaitMs(500));
        push_drive(&mut steps, Lamp::Blue, Level::High);
        steps.push(LightStep::WaitMs(500));
        i = i + 1;
    }
    push_drive(&mut steps, Lamp::Red, Level::High);
    steps
}

/// The start of the plain traffic-light sequence: after 2 s all lamps
/// lit for 2 s, then all dark for 5 s.
pub open spec fn spec_sequence_start() -> Seq<LightStep> {
    seq![
        LightStep::WaitMs(2000),
        drive_step(Lamp::Red, Level::Low),
        drive_step(Lamp::Green, Level::Low),
        drive_step(Lamp::Yellow, Level::Low),
        LightStep::WaitMs(2000),
        drive_step(Lamp::Red, Level::High),
        drive_step(Lamp::Green, Level::High),
        drive_step(Lamp::Yellow, Level::High),
        LightStep::WaitMs(5000),
    ]
}

/// One round of the plain traffic-light sequence: red 3 s, green 3 s,
/// yellow 1 s.
pub open spec fn spec_sequence_round() -> Seq<LightStep> {
    seq![
        drive_step(Lamp::Red, Level::Low),
        LightStep::WaitMs(3000),
        drive_step(Lamp::Red, Level::High),
        drive_step(Lamp::Green, Level::Low),
        LightStep::WaitMs(3000),
        drive_step(Lamp::Green, Level::High),
        drive_step(Lamp::Yellow, Level::Low),
        LightStep::WaitMs(1000),
        drive_step(Lamp::Yellow, Level::High),
    ]
}

/// The steps that start the plain traffic-light sequence.
pub fn sequence_start() -> (steps: Vec<LightStep>)
    ensures
        steps@ == spec_sequence_start(),
{
    let mut steps: Vec<LightStep> = Vec::new();
    steps.push(LightStep::WaitMs(2000));
    push_drive(&mut steps, Lamp::Red, Level::Low);
    push_drive(&mut steps, Lamp::Green, Level::Low);
    push_drive(&mut steps, Lamp::Yellow, Level::Low);
    steps.push(LightStep::WaitMs(2000));
    push_drive(&mut steps, Lamp::Red, Level::High);
    push_drive(&mut steps, Lamp::Green, Level::High);
    push_drive(&mut steps, Lamp::Yellow, Level::High);
    steps.push(LightStep::WaitMs(5000));
    steps
}

/// The steps of one round of the plain traffic-light sequence.
pub fn sequence_round() -> (steps: Vec<LightStep>)
    ensures
        steps@ == spec_sequence_round(),
{
    let mut steps: Vec<LightStep> = Vec::new();
    push_drive(&mut steps, Lamp::Red, Level::Low);
    steps.push(LightStep::WaitMs(3000));
    push_drive(&mut steps, Lamp::Red, Level::High);
    push_drive(&mut steps, Lamp::Green, Level::Low);
    steps.push(LightStep::WaitMs(3000));
    push_drive(&mut steps, Lamp::Green, Level::High);
    push_drive(&mut steps, Lamp::Yellow, Level::Low);
    steps.push(LightStep::WaitMs(1000));
    push_drive(&mut steps, Lamp::Yellow, Level::High);
    steps
}

/// The PWM counter period the buzzer uses for a tone of `freq` hertz:
/// the period of a 125 MHz clock divided by 64. The buzzer's PWM keeps
/// its default divider, so the tone sounds about 64 times higher than
/// `freq`.
pub open spec fn spec_buzzer_top(freq: int) -> int {
    125_000_000int / (64 * freq) - 1
}

/// The PWM counter period the buzzer uses for a tone of `freq` hertz.
pub fn buzzer_top(freq: u32) -> (top: u32)
    requires
        0 < freq,
        64 * freq <= 125_000_000,
    ensures
        top == spec_buzzer_top(freq as int),
{
    let divisor: u32 = 64 * freq;
    let q = 125_000_000u32 / divisor;
    assert(q >= 1) by (nonlinear_arith)
        requires divisor <= 125_000_000, divisor > 0, q == 125_000_000u32 / divisor;
    q - 1
}

/// One setting of the buzzer PWM: counter period, compare level of
/// output B, and how long to hold it before the next setting.
#[derive(Clone, Copy, Debug, PartialEq, Eq, Structural)]
pub struct BuzzerStep {
    pub top: u16,
    pub compare_b: u16,
    pub hold_ms: u64,
}

/// What the buzzer does in one round for the shared phase code: a
/// steady 200 Hz tone at half duty for green and yellow; for red a
/// 400 Hz tone at half duty for 200 ms, full duty for 200 ms, then
/// silence; nothing for any other code.
pub open spec fn spec_buzzer_pattern(code: u32) -> Seq<BuzzerStep> {
    if code == 0 || code == 1 {
        seq![BuzzerStep { top: 9764, compare_b: 4882, hold_ms: 100 }]
    } else if code == 2 {
        seq![
            BuzzerStep { top: 4881, compare_b: 2440, hold_ms: 200 },
            BuzzerStep { top: 4881, compare_b: 4881, hold_ms: 200 },
            BuzzerStep { top: 4881, compare_b: 0, hold_ms: 0 },
        ]
    } else {
        seq![]
    }
}

/// The buzzer settings of one round for the shared phase code.
pub fn buzzer_pattern(code: u32) -> (steps: Vec<BuzzerStep>)
    ensures
        steps@ == spec_buzzer_pattern(code),
{
    let mut steps: Vec<BuzzerStep> = Vec::new();
    if code == 0 || code == 1 {
        let top = buzzer_top(200);
        steps.push(BuzzerStep { top: top as u16, compare_b: (top / 2) as u16, hold_ms: 100 });
    } else if code == 2 {
        let top = buzzer_top(400);
        let top16 = top as u16;
        steps.push(BuzzerStep { top: top16, compare_b: (top / 2) as u16, hold_ms: 200 });
        steps.push(BuzzerStep { top: top16, compare_b: top16, hold_ms: 200 });
        steps.push(BuzzerStep { top: top16, compare_b: 0, hold_ms: 0 });
    }
    steps
}

/// The servo pulse period in microseconds (50 Hz).
pub const SERVO_PERIOD_US: usize = 20_000;

/// The PWM compare level that produces a pulse of `pulse_us`
/// microseconds when the counter period `top` spans the servo period.
pub fn servo_pulse(pulse_us: usize, top: usize) -> (compare: usize)
    requires
        pulse_us * top <= usize::MAX,
    ensures
        compare == pulse_us * top / 20_000,
{
    pulse_us * top / SERVO_PERIOD_US
}

/// The servo position for the shared phase code: the maximum pulse for
/// green, the middle for yellow, the minimum for red and any other code.
pub fn servo_compare(code: u32, min_pulse: usize, max_pulse: usize) -> (compare: usize)
    requires
        code == 1 ==> min_pulse + max_pulse <= usize::MAX,
    ensures
        compare == (if code == 0 {
            max_pulse as int
        } else if code == 1 {
            (min_pulse + max_pulse) / 2
        } else {
            min_pulse as int
        }),
        min_pulse <= max_pulse ==> min_pulse <= compare <= max_pulse,
{
    match code {
        0 => max_pulse,
        1 => (min_pulse + max_pulse) / 2,
        _ => min_pulse,
    }
}

/// The phase of the single-button traffic light.
#[derive(Clone, Copy, Debug, PartialEq, Eq, Structural)]
pub enum TrafficLightState {
    Green,
    Yellow,
    Red,
}

/// What ended a wait: the phase timer, or the pedestrian button.
#[derive(Clone, Copy, Debug, PartialEq, Eq, Structural)]
pub enum WaitOutcome {
    TimerElapsed,
    ButtonPressed,
}

/// The phase after a wait of phase `s` ended with `outcome`.
pub open spec fn spec_after_wait(s: TrafficLightState, outcome: WaitOutcome) -> TrafficLightState {
    match s {
        TrafficLightState::Green => TrafficLightState::Yellow,
        TrafficLightState::Yellow => TrafficLightState::Red,
        TrafficLightState::Red => if outcome == WaitOutcome::TimerElapsed {
            TrafficLightState::Green
        } else {
            TrafficLightState::Red
        },
    }
}

impl TrafficLightState {
    /// The phase after this one's wait ended with `outcome`: green and
    /// yellow always move on (the button only cuts green short), red
    /// moves to green when its timer runs out and stays red when the
    /// button is pressed.
    pub fn after_wait(self, outcome: WaitOutcome) -> (n: TrafficLightState)
        ensures
            n == spec_after_wait(self, outcome),
    {
        match self {
            TrafficLightState::Green => TrafficLightState::Yellow,
            TrafficLightState::Yellow => TrafficLightState::Red,
            TrafficLightState::Red => match outcome {
                WaitOutcome::TimerElapsed => TrafficLightState::Green,
                WaitOutcome::ButtonPressed => TrafficLightState::Red,
            },
        }
    }
}

/// The light never stays in a phase and comes back to it after three
/// phase changes; the shared code advances by one, modulo three.
pub proof fn lemma_traffic_cycle(s: TrafficState)
    ensures
        spec_next(s) != s,
        spec_next(spec_next(spec_next(s))) == s,
        spec_code(spec_next(s)) == (spec_code(s) + 1) % 3,
{
}

/// The phase codes shared with the buzzer and servo tasks are those of
/// the laboratory: green 0, yellow 1, red 2; so the light goes green,
/// yellow, red and back to green.
pub proof fn lemma_phase_codes()
    ensures
        spec_code(TrafficState::Green) == 0,
        spec_code(TrafficState::Yellow) == 1,
        spec_code(TrafficState::Red) == 2,
        forall|s: TrafficState| #[trigger] spec_code(s) < 3,
        forall|s: TrafficState, t: TrafficState| spec_code(s) == spec_code(t) ==> s == t,
        spec_next(TrafficState::Green) == TrafficState::Yellow,
        spec_next(TrafficState::Yellow) == TrafficState::Red,
        spec_next(TrafficState::Red) == TrafficState::Green,
{
}

/// The buzzer sounds the laboratory's tones: for green and yellow one
/// setting at half duty of the 200 Hz period held 100 ms; for red the
/// 400 Hz period at half duty, then full duty, each held 200 ms, then
/// silence; for any other code nothing.
pub proof fn lemma_buzzer_tones(code: u32)
    ensures
        (code == 0 || code == 1) ==> {
            &&& spec_buzzer_pattern(code).len() == 1
            &&& spec_buzzer_pattern(code)[0].top == spec_buzzer_top(200)
            &&& spec_buzzer_pattern(code)[0].compare_b == spec_buzzer_top(200) / 2
            &&& spec_buzzer_pattern(code)[0].hold_ms == 100
        },
        code == 2 ==> {
            &&& spec_buzzer_pattern(code).len() == 3
            &&& forall|i: int| 0 <= i < 3 ==> #[trigger] spec_buzzer_pattern(code)[i].top
                == spec_buzzer_top(400)
            &&& spec_buzzer_pattern(code)[0].compare_b == spec_buzzer_top(400) / 2
            &&& spec_buzzer_pattern(code)[1].compare_b == spec_buzzer_top(400)
            &&& spec_buzzer_pattern(code)[2].compare_b == 0
            &&& spec_buzzer_pattern(code)[0].hold_ms == 200
            &&& spec_buzzer_pattern(code)[1].hold_ms == 200
            &&& spec_buzzer_pattern(code)[2].hold_ms == 0
        },
        code > 2 ==> spec_buzzer_pattern(code).len() == 0,
        spec_buzzer_top(200) == 9764,
        spec_buzzer_top(400) == 4881,
{
    assert(125_000_000int / 12800 == 9765) by (nonlinear_arith);
    assert(125_000_000int / 25600 == 4882) by (nonlinear_arith);
    assert(spec_buzzer_top(200) == 9764);
    assert(spec_buzzer_top(400) == 4881);
}

/// The buzzer never drives more than a full duty cycle: in every setting
/// the compare level is at most the counter period.
pub proof fn lemma_buzzer_duty_bounded(code: u32)
    ensures
        forall|i: int|
            0 <= i < spec_buzzer_pattern(code).len() ==> #[trigger] spec_buzzer_pattern(code)[i].compare_b
                <= spec_buzzer_pattern(code)[i].top,
{
}

/// The single-button light goes green, yellow, red when its timers run
/// out; the button only matters in red, where it holds the light red.
pub proof fn lemma_button_light_order()
    ensures
        spec_after_wait(TrafficLightState::Green, WaitOutcome::TimerElapsed)
            == TrafficLightState::Yellow,
        spec_after_wait(TrafficLightState::Yellow, WaitOutcome::TimerElapsed)
            == TrafficLightState::Red,
        spec_after_wait(TrafficLightState::Red, WaitOutcome::TimerElapsed)
            == TrafficLightState::Green,
        forall|s: TrafficLightState|
            s != TrafficLightState::Red ==> #[trigger] spec_after_wait(s, WaitOutcome::ButtonPressed)
                == spec_after_wait(s, WaitOutcome::TimerElapsed),
{
}

/// The single-button light: the button keeps a red light red, and three
/// timer expiries bring any phase back to itself.
pub proof fn lemma_button_light(s: TrafficLightState)
    ensures
        spec_after_wait(TrafficLightState::Red, WaitOutcome::ButtonPressed) == TrafficLightState::Red,
        spec_after_wait(
            spec_after_wait(spec_after_wait(s, WaitOutcome::TimerElapsed), WaitOutcome::TimerElapsed),
            WaitOutcome::TimerElapsed,
        ) == s,
{
}

/// What a phase of the single-button light does: the lamp writes that
/// start it, then `waits` waits of `wait_ms` milliseconds, each of which
/// the button ends early; before each wait the yellow lamp toggles when
/// `toggle_yellow` is set.
#[derive(Debug, PartialEq, Eq)]
pub struct PhasePlan {
    pub entry: Vec<LampWrite>,
    pub waits: u32,
    pub wait_ms: u64,
    pub toggle_yellow: bool,
}

/// What ending a phase of the single-button light does: the lamp writes,
/// then a pause in milliseconds (`0` for none).
#[derive(Debug, PartialEq, Eq)]
pub struct PhaseExit {
    pub writes: Vec<LampWrite>,
    pub pause_ms: u64,
}

/// The writes that start each phase of the single-button light: green
/// darkens red and yellow, then lights its lamp; yellow darkens green and
/// red; red darkens green and yellow, then lights its lamp.
pub open spec fn spec_phase_entry(state: TrafficLightState) -> Seq<LampWrite> {
    match state {
        TrafficLightState::Green => seq![
            LampWrite::Drive(Lamp::Red, Level::High),
            LampWrite::Drive(Lamp::Yellow, Level::High),
            LampWrite::Drive(Lamp::Green, Level::Low),
        ],
        TrafficLightState::Yellow => seq![
            LampWrite::Drive(Lamp::Green, Level::High),
            LampWrite::Drive(Lamp::Red, Level::High),
        ],
        TrafficLightState::Red => seq![
            LampWrite::Drive(Lamp::Green, Level::High),
            LampWrite::Drive(Lamp::Yellow, Level::High),
            LampWrite::Drive(Lamp::Red, Level::Low),
        ],
    }
}

/// The number of waits of a phase, and their length in milliseconds.
pub open spec fn spec_phase_waits(state: TrafficLightState) -> (u32, u64) {
    match state {
        TrafficLightState::Green => (1, 5000),
        TrafficLightState::Yellow => (4, 250),
        TrafficLightState::Red => (1, 2000),
    }
}

/// The writes that end a phase after its wait ended with `outcome`:
/// green and yellow darken their lamp; red darkens its lamp when the
/// timer ran out and leaves it lit when the button was pressed.
pub open spec fn spec_phase_exit_writes(state: TrafficLightState, outcome: WaitOutcome) -> Seq<
    LampWrite,
> {
    match state {
        TrafficLightState::Green => seq![LampWrite::Drive(Lamp::Green, Level::High)],
        TrafficLightState::Yellow => seq![LampWrite::Drive(Lamp::Yellow, Level::High)],
        TrafficLightState::Red => if outcome == WaitOutcome::TimerElapsed {
            seq![LampWrite::Drive(Lamp::Red, Level::High)]
        } else {
            seq![]
        },
    }
}

/// What a phase of the single-button light does: green lights its lamp
/// for 5 s, yellow toggles its lamp before each of four 250 ms waits, red
/// lights its lamp for 2 s.
pub fn light_phase_plan(state: TrafficLightState) -> (plan: PhasePlan)
    ensures
        plan.entry@ == spec_phase_entry(state),
        (plan.waits, plan.wait_ms) == spec_phase_waits(state),
        plan.toggle_yellow == (state == TrafficLightState::Yellow),
{
    match state {
        TrafficLightState::Green => PhasePlan {
            entry: vec![
                LampWrite::Drive(Lamp::Red, Level::High),
                LampWrite::Drive(Lamp::Yellow, Level::High),
                LampWrite::Drive(Lamp::Green, Level::Low),
            ],
            waits: 1,
            wait_ms: 5000,
            toggle_yellow: false,
        },
        TrafficLightState::Yellow => PhasePlan {
            entry: vec![
                LampWrite::Drive(Lamp::Green, Level::High),
                LampWrite::Drive(Lamp::Red, Level::High),
            ],
            waits: 4,
            wait_ms: 250,
            toggle_yellow: true,
        },
        TrafficLightState::Red => PhasePlan {
            entry: vec![
                LampWrite::Drive(Lamp::Green, Level::High),
                LampWrite::Drive(Lamp::Yellow, Level::High),
                LampWrite::Drive(Lamp::Red, Level::Low),
            ],
            waits: 1,
            wait_ms: 2000,
            toggle_yellow: false,
        },
    }
}

/// How a phase of the single-button light ends after its wait ended with
/// `outcome`; red held by the button pauses 150 ms.
pub fn light_phase_exit(state: TrafficLightState, outcome: WaitOutcome) -> (exit: PhaseExit)
    ensures
        exit.writes@ == spec_phase_exit_writes(state, outcome),
        exit.pause_ms == (if state == TrafficLightState::Red && outcome
            == WaitOutcome::ButtonPressed {
            150u64
        } else {
            0u64
        }),
{
    match state {
        TrafficLightState::Green => PhaseExit {
            writes: vec![LampWrite::Drive(Lamp::Green, Level::High)],
            pause_ms: 0,
        },
        TrafficLightState::Yellow => PhaseExit {
            writes: vec![LampWrite::Drive(Lamp::Yellow, Level::High)],
            pause_ms: 0,
        },
        TrafficLightState::Red => match outcome {
            WaitOutcome::TimerElapsed => PhaseExit {
                writes: vec![LampWrite::Drive(Lamp::Red, Level::High)],
                pause_ms: 0,
            },
            WaitOutcome::ButtonPressed => PhaseExit { writes: Vec::new(), pause_ms: 150 },
        },
    }
}

/// The toggles a phase makes between its entry and exit writes.
pub open spec fn spec_phase_toggles(state: TrafficLightState) -> Seq<LampWrite> {
    if state == TrafficLightState::Yellow {
        seq![
            LampWrite::Toggle(Lamp::Yellow),
            LampWrite::Toggle(Lamp::Yellow),
            LampWrite::Toggle(Lamp::Yellow),
            LampWrite::Toggle(Lamp::Yellow),
        ]
    } else {
        seq![]
    }
}

/// All lamp writes of one phase whose wait ended with `outcome`.
pub open spec fn spec_phase_writes(state: TrafficLightState, outcome: WaitOutcome) -> Seq<
    LampWrite,
> {
    spec_phase_entry(state) + spec_phase_toggles(state) + spec_phase_exit_writes(state, outcome)
}

/// All lamp writes of the phases that follow one another from `state`,
/// each wait ending with the next outcome.
pub open spec fn spec_light_run(state: TrafficLightState, outcomes: Seq<WaitOutcome>) -> Seq<
    LampWrite,
>
    decreases outcomes.len(),
{
    if outcomes.len() == 0 {
        seq![]
    } else {
        spec_phase_writes(state, outcomes[0]) + spec_light_run(
            spec_after_wait(state, outcomes[0]),
            outcomes.drop_first(),
        )
    }
}

proof fn lemma_phase_one_lit(s: LampState, state: TrafficLightState, outcome: WaitOutcome)
    requires
        lit_lamps(s) <= 1,
    ensures
        one_lit_throughout(s, spec_phase_writes(state, outcome)),
{
    let entry = spec_phase_entry(state);
    let toggles = spec_phase_toggles(state);
    let exit = spec_phase_exit_writes(state, outcome);
    let red_dark = LampWrite::Drive(Lamp::Red, Level::High);
    let yellow_dark = LampWrite::Drive(Lamp::Yellow, Level::High);
    let green_dark = LampWrite::Drive(Lamp::Green, Level::High);
    let flip = LampWrite::Toggle(Lamp::Yellow);
    match state {
        TrafficLightState::Green => {
            let green_lit = LampWrite::Drive(Lamp::Green, Level::Low);
            lemma_short_runs(s, red_dark, yellow_dark, green_lit, green_lit);
            let s1 = run_writes(s, entry);
            lemma_short_runs(s1, green_dark, green_dark, green_dark, green_dark);
        },
        TrafficLightState::Yellow => {
            lemma_short_runs(s, green_dark, red_dark, red_dark, red_dark);
            let s1 = run_writes(s, entry);
            lemma_short_runs(s1, flip, flip, flip, flip);
            let s2 = run_writes(s1, toggles);
            lemma_short_runs(s2, yellow_dark, yellow_dark, yellow_dark, yellow_dark);
        },
        TrafficLightState::Red => {
            let red_lit = LampWrite::Drive(Lamp::Red, Level::Low);
            lemma_short_runs(s, green_dark, yellow_dark, red_lit, red_lit);
            let s1 = run_writes(s, entry);
            lemma_short_runs(s1, red_dark, red_dark, red_dark, red_dark);
        },
    }
    let s1 = run_writes(s, entry);
    let s2 = run_writes(s1, toggles);
    assert(one_lit_throughout(s, entry));
    assert(one_lit_throughout(s1, toggles));
    assert(one_lit_throughout(s2, exit));
    lemma_run_concat(s, entry, toggles);
    lemma_run_concat(s, entry + toggles, exit);
}

proof fn lemma_run_one_lit(s: LampState, state: TrafficLightState, outcomes: Seq<WaitOutcome>)
    requires
        lit_lamps(s) <= 1,
    ensures
        one_lit_throughout(s, spec_light_run(state, outcomes)),
    decreases outcomes.len(),
{
    if outcomes.len() == 0 {
    } else {
        let first = spec_phase_writes(state, outcomes[0]);
        lemma_phase_one_lit(s, state, outcomes[0]);
        lemma_one_lit_final(s, first);
        lemma_run_one_lit(
            run_writes(s, first),
            spec_after_wait(state, outcomes[0]),
            outcomes.drop_first(),
        );
        lemma_run_concat(
            s,
            first,
            spec_light_run(spec_after_wait(state, outcomes[0]), outcomes.drop_first()),
        );
    }
}

/// The single-button light never lights two lamps at once. The task
/// starts with all three lamps lit (their pins are made low); after its
/// first two writes, which darken red and yellow, at most one lamp is lit
/// in every state its writes pass through, whatever the button does.
pub proof fn lemma_light_one_lamp_at_a_time(outcomes: Seq<WaitOutcome>)
    requires
        outcomes.len() > 0,
    ensures
        ({
            let writes = spec_light_run(TrafficLightState::Green, outcomes);
            let all_lit = LampState { red: Level::Low, yellow: Level::Low, green: Level::Low };
            one_lit_throughout(run_writes(all_lit, writes.take(2)), writes.skip(2))
        }),
{
    let writes = spec_light_run(TrafficLightState::Green, outcomes);
    let all_lit = LampState { red: Level::Low, yellow: Level::Low, green: Level::Low };
    let next = spec_after_wait(TrafficLightState::Green, outcomes[0]);
    let later = spec_light_run(next, outcomes.drop_first());
    let first_two = seq![
        LampWrite::Drive(Lamp::Red, Level::High),
        LampWrite::Drive(Lamp::Yellow, Level::High),
    ];
    let rest = seq![LampWrite::Drive(Lamp::Green, Level::Low)] + spec_phase_toggles(
        TrafficLightState::Green,
    ) + spec_phase_exit_writes(TrafficLightState::Green, outcomes[0]);
    assert(writes.take(2) =~= first_two);
    assert(writes.skip(2) =~= rest + later);
    let green_lit = LampWrite::Drive(Lamp::Green, Level::Low);
    let green_dark = LampWrite::Drive(Lamp::Green, Level::High);
    lemma_short_runs(all_lit, first_two[0], first_two[1], green_lit, green_lit);
    let s = run_writes(all_lit, first_two);
    assert(rest =~= seq![green_lit, green_dark]);
    lemma_short_runs(s, green_lit, green_dark, green_dark, green_dark);
    assert(one_lit_throughout(s, rest));
    lemma_one_lit_final(s, rest);
    lemma_run_one_lit(run_writes(s, rest), next, outcomes.drop_first());
    lemma_run_concat(s, rest, later);
}

} // verus!
