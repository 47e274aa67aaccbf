use pico_labs::Level;
use pico_labs::lamps::{Lamp, LampWrite};
use pico_labs::traffic::{
    buzzer_pattern, buzzer_top, crossing_round, join_phase_plan, led_state_plan,
    light_phase_exit, light_phase_plan, sequence_round, sequence_start, servo_compare,
    servo_pulse, yellow_flash_step, BuzzerStep, FlashStep, JoinPhasePlan, LedStatePlan, LightStep,
    PhaseExit, PhasePlan, TrafficLightState, TrafficState, WaitOutcome,
};

fn d(lamp: Lamp, level: Level) -> LampWrite {
    LampWrite::Drive(lamp, level)
}

#[test]
fn traffic_state_cycles() {
    assert_eq!(TrafficState::Green.next(), TrafficState::Yellow);
    assert_eq!(TrafficState::Yellow.next(), TrafficState::Red);
    assert_eq!(TrafficState::Red.next(), TrafficState::Green);
    for s in [TrafficState::Green, TrafficState::Yellow, TrafficState::Red] {
        assert_ne!(s.next(), s);
        assert_eq!(s.next().next().next(), s);
        assert_eq!(s.next().code(), (s.code() + 1) % 3);
    }
}

#[test]
fn traffic_codes_and_durations() {
    assert_eq!(TrafficState::Green.code(), 0);
    assert_eq!(TrafficState::Yellow.code(), 1);
    assert_eq!(TrafficState::Red.code(), 2);
    assert_eq!(TrafficState::Green.duration_ms(), 5000);
    assert_eq!(TrafficState::Yellow.duration_ms(), 1000);
    assert_eq!(TrafficState::Red.duration_ms(), 2000);
}

#[test]
fn phase_writes_in_order() {
    assert_eq!(
        led_state_plan(TrafficState::Green),
        LedStatePlan { writes: vec![d(Lamp::Green, Level::Low), d(Lamp::Yellow, Level::High), d(Lamp::Red, Level::High)], flash_wait_ms: 0 }
    );
    assert_eq!(
        led_state_plan(TrafficState::Yellow),
        LedStatePlan { writes: vec![d(Lamp::Green, Level::High), d(Lamp::Red, Level::High), d(Lamp::Yellow, Level::Low)], flash_wait_ms: 125 }
    );
    assert_eq!(
        led_state_plan(TrafficState::Red),
        LedStatePlan { writes: vec![d(Lamp::Green, Level::High), d(Lamp::Yellow, Level::High), d(Lamp::Red, Level::Low)], flash_wait_ms: 0 }
    );
}

#[test]
fn yellow_flash_toggles_then_stops_dark() {
    let go = |level| FlashStep { level, go_on: true, wait_ms: 125 };
    let stop = FlashStep { level: Level::High, go_on: false, wait_ms: 0 };
    assert_eq!(yellow_flash_step(Level::Low, 1), go(Level::High));
    assert_eq!(yellow_flash_step(Level::High, 1), go(Level::Low));
    assert_eq!(yellow_flash_step(Level::Low, 2), stop);
    assert_eq!(yellow_flash_step(Level::High, 0), stop);
    assert_eq!(yellow_flash_step(Level::Low, 7), stop);
}

#[test]
fn two_button_light_plans() {
    assert_eq!(
        join_phase_plan(TrafficState::Green),
        JoinPhasePlan {
            entry: vec![d(Lamp::Green, Level::Low), d(Lamp::Red, Level::High), d(Lamp::Yellow, Level::High)],
            code_on_entry: None,
            wait_ms: 5000,
            flashes: 0,
            flash_on_ms: 0,
            flash_off_ms: 0,
            next: TrafficState::Yellow,
            code_on_exit: Some(1),
            exit: vec![d(Lamp::Green, Level::High)],
        }
    );
    assert_eq!(
        join_phase_plan(TrafficState::Yellow),
        JoinPhasePlan {
            entry: vec![d(Lamp::Red, Level::High), d(Lamp::Green, Level::High)],
            code_on_entry: Some(1),
            wait_ms: 0,
            flashes: 4,
            flash_on_ms: 125,
            flash_off_ms: 125,
            next: TrafficState::Red,
            code_on_exit: Some(2),
            exit: vec![],
        }
    );
    assert_eq!(
        join_phase_plan(TrafficState::Red),
        JoinPhasePlan {
            entry: vec![d(Lamp::Red, Level::Low), d(Lamp::Green, Level::High), d(Lamp::Yellow, Level::High)],
            code_on_entry: None,
            wait_ms: 2000,
            flashes: 0,
            flash_on_ms: 0,
            flash_off_ms: 0,
            next: TrafficState::Green,
            code_on_exit: Some(0),
            exit: vec![d(Lamp::Red, Level::High)],
        }
    );
}

#[test]
fn fixed_sequences() {
    let w = |lamp, level| LightStep::Write(d(lamp, level));
    let mut crossing = vec![
        w(Lamp::Green, Level::Low),
        LightStep::WaitButton,
        w(Lamp::Yellow, Level::Low),
        w(Lamp::Green, Level::High),
        LightStep::WaitMs(1000),
        w(Lamp::Yellow, Level::High),
        w(Lamp::Red, Level::Low),
    ];
    for _ in 0..5 {
        crossing.extend([w(Lamp::Blue, Level::Low), LightStep::WaitMs(500), w(Lamp::Blue, Level::High), LightStep::WaitMs(500)]);
    }
    crossing.push(w(Lamp::Red, Level::High));
    assert_eq!(crossing_round(), crossing);
    assert_eq!(
        sequence_start(),
        vec![
            LightStep::WaitMs(2000),
            w(Lamp::Red, Level::Low),
            w(Lamp::Green, Level::Low),
            w(Lamp::Yellow, Level::Low),
            LightStep::WaitMs(2000),
            w(Lamp::Red, Level::High),
            w(Lamp::Green, Level::High),
            w(Lamp::Yellow, Level::High),
            LightStep::WaitMs(5000),
        ]
    );
    assert_eq!(
        sequence_round(),
        vec![
            w(Lamp::Red, Level::Low),
            LightStep::WaitMs(3000),
            w(Lamp::Red, Level::High),
            w(Lamp::Green, Level::Low),
            LightStep::WaitMs(3000),
            w(Lamp::Green, Level::High),
            w(Lamp::Yellow, Level::Low),
            LightStep::WaitMs(1000),
            w(Lamp::Yellow, Level::High),
        ]
    );
}

#[test]
fn buzzer_periods() {
    assert_eq!(buzzer_top(200), 9764);
    assert_eq!(buzzer_top(400), 4881);
    assert_eq!(buzzer_top(1), 1_953_124);
}

#[test]
fn buzzer_patterns_per_phase() {
    let steady = vec![BuzzerStep { top: 9764, compare_b: 4882, hold_ms: 100 }];
    assert_eq!(buzzer_pattern(0), steady);
    assert_eq!(buzzer_pattern(1), steady);
    assert_eq!(
        buzzer_pattern(2),
        vec![
            BuzzerStep { top: 4881, compare_b: 2440, hold_ms: 200 },
            BuzzerStep { top: 4881, compare_b: 4881, hold_ms: 200 },
            BuzzerStep { top: 4881, compare_b: 0, hold_ms: 0 },
        ]
    );
    assert_eq!(buzzer_pattern(3), Vec::new());
    for code in 0..5 {
        assert!(buzzer_pattern(code).iter().all(|s| s.compare_b <= s.top));
    }
}

#[test]
fn servo_positions() {
    let min = servo_pulse(500, 0xB71A);
    let max = servo_pulse(2500, 0xB71A);
    assert_eq!(min, 1171);
    assert_eq!(max, 5859);
    assert_eq!(servo_compare(0, min, max), 5859);
    assert_eq!(servo_compare(1, min, max), 3515);
    assert_eq!(servo_compare(2, min, max), 1171);
    assert_eq!(servo_compare(9, min, max), 1171);
}

#[test]
fn button_light_transitions() {
    let (green, yellow, red) = (TrafficLightState::Green, TrafficLightState::Yellow, TrafficLightState::Red);
    let (timer, button) = (WaitOutcome::TimerElapsed, WaitOutcome::ButtonPressed);
    assert_eq!(green.after_wait(timer), yellow);
    assert_eq!(green.after_wait(button), yellow);
    assert_eq!(yellow.after_wait(timer), red);
    assert_eq!(yellow.after_wait(button), red);
    assert_eq!(red.after_wait(timer), green);
    assert_eq!(red.after_wait(button), red);
    for s in [green, yellow, red] {
        let back = s.after_wait(timer).after_wait(timer).after_wait(timer);
        assert_eq!(back, s);
    }
}

#[test]
fn servo_extremes_do_not_need_the_sum() {
    assert_eq!(servo_compare(0, usize::MAX, usize::MAX), usize::MAX);
    assert_eq!(servo_compare(2, usize::MAX, 1), usize::MAX);
}

#[test]
fn button_light_phase_plans() {
    assert_eq!(
        light_phase_plan(TrafficLightState::Green),
        PhasePlan {
            entry: vec![d(Lamp::Red, Level::High), d(Lamp::Yellow, Level::High), d(Lamp::Green, Level::Low)],
            waits: 1,
            wait_ms: 5000,
            toggle_yellow: false,
        }
    );
    assert_eq!(
        light_phase_plan(TrafficLightState::Yellow),
        PhasePlan { entry: vec![d(Lamp::Green, Level::High), d(Lamp::Red, Level::High)], waits: 4, wait_ms: 250, toggle_yellow: true }
    );
    assert_eq!(
        light_phase_plan(TrafficLightState::Red),
        PhasePlan {
            entry: vec![d(Lamp::Green, Level::High), d(Lamp::Yellow, Level::High), d(Lamp::Red, Level::Low)],
            waits: 1,
            wait_ms: 2000,
            toggle_yellow: false,
        }
    );
}

#[test]
fn button_light_phase_exits() {
    for outcome in [WaitOutcome::TimerElapsed, WaitOutcome::ButtonPressed] {
        assert_eq!(
            light_phase_exit(TrafficLightState::Green, outcome),
            PhaseExit { writes: vec![d(Lamp::Green, Level::High)], pause_ms: 0 }
        );
        assert_eq!(
            light_phase_exit(TrafficLightState::Yellow, outcome),
            PhaseExit { writes: vec![d(Lamp::Yellow, Level::High)], pause_ms: 0 }
        );
    }
    assert_eq!(
        light_phase_exit(TrafficLightState::Red, WaitOutcome::TimerElapsed),
        PhaseExit { writes: vec![d(Lamp::Red, Level::High)], pause_ms: 0 }
    );
    assert_eq!(
        light_phase_exit(TrafficLightState::Red, WaitOutcome::ButtonPressed),
        PhaseExit { writes: vec![], pause_ms: 150 }
    );
}

#[test]
fn button_light_never_lights_two_lamps() {
    // Simulates the task's writes from all lamps lit, with the button
    // pressed in some phases.
    let mut lamps = [Level::Low; 3];
    let index = |lamp: Lamp| match lamp {
        Lamp::Red => 0,
        Lamp::Yellow => 1,
        Lamp::Green => 2,
        Lamp::Blue => unreachable!(),
    };
    let mut state = TrafficLightState::Green;
    let mut writes_made = 0;
    let outcomes = [
        WaitOutcome::ButtonPressed,
        WaitOutcome::TimerElapsed,
        WaitOutcome::ButtonPressed,
        WaitOutcome::ButtonPressed,
        WaitOutcome::TimerElapsed,
        WaitOutcome::TimerElapsed,
        WaitOutcome::TimerElapsed,
    ];
    for outcome in outcomes {
        let plan = light_phase_plan(state);
        let mut writes = plan.entry.clone();
        if plan.toggle_yellow {
            writes.extend(std::iter::repeat(LampWrite::Toggle(Lamp::Yellow)).take(plan.waits as usize));
        }
        writes.extend(light_phase_exit(state, outcome).writes);
        for w in writes {
            match w {
                LampWrite::Drive(lamp, level) => lamps[index(lamp)] = level,
                LampWrite::Toggle(lamp) => {
                    let i = index(lamp);
                    lamps[i] = if lamps[i] == Level::Low { Level::High } else { Level::Low };
                }
            }
            writes_made += 1;
            if writes_made >= 2 {
                assert!(lamps.iter().filter(|l| **l == Level::Low).count() <= 1);
            }
        }
        state = state.after_wait(outcome);
    }
}
