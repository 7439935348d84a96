use car_core::ultra::{
    begin, distance_cm, elapsed_us, is_done, measure_cm, pulse_reading, step, trigger_sequence,
    Action, EchoSample, Phase, TriggerStep, MIN_VALID_PULSE_US, NO_ECHO, TIMEOUT_US,
};

fn low(now: u32) -> EchoSample {
    EchoSample { high: false, now }
}

fn high(now: u32) -> EchoSample {
    EchoSample { high: true, now }
}

#[test]
fn constants() {
    assert_eq!(TIMEOUT_US, 30_000);
    assert_eq!(MIN_VALID_PULSE_US, 120);
    assert_eq!(NO_ECHO, u32::MAX);
}

#[test]
fn pulse_of_580_us_is_10_cm() {
    let samples = vec![low(0), low(40), high(100), high(400), low(680)];
    assert_eq!(measure_cm(TIMEOUT_US, &samples), 10);
    assert_eq!(pulse_reading(580), 10);
}

#[test]
fn pulse_of_100_us_is_noise() {
    let samples = vec![low(0), low(40), high(100), high(150), low(200)];
    assert_eq!(measure_cm(TIMEOUT_US, &samples), NO_ECHO);
    assert_eq!(pulse_reading(100), NO_ECHO);
}

#[test]
fn noise_floor_is_exclusive() {
    assert_eq!(pulse_reading(119), NO_ECHO);
    assert_eq!(pulse_reading(120), 2);
    assert_eq!(measure_cm(TIMEOUT_US, &vec![low(0), high(10), low(129)]), NO_ECHO);
    assert_eq!(measure_cm(TIMEOUT_US, &vec![low(0), high(10), low(130)]), 2);
}

#[test]
fn distance_rounds_to_nearest() {
    assert_eq!(distance_cm(0), 0);
    assert_eq!(distance_cm(28), 0);
    assert_eq!(distance_cm(29), 1);
    assert_eq!(distance_cm(86), 1);
    assert_eq!(distance_cm(87), 2);
    assert_eq!(distance_cm(580), 10);
    assert_eq!(distance_cm(609), 11);
    assert_eq!(distance_cm(u32::MAX), 74_051_160);
}

#[test]
fn no_rising_edge_gives_no_echo() {
    let samples: Vec<EchoSample> = (0..40u32).map(|i| low(i * 1_000)).collect();
    assert_eq!(measure_cm(TIMEOUT_US, &samples), NO_ECHO);
}

#[test]
fn wait_for_rise_ends_at_first_sample_past_the_deadline() {
    let (mut phase, action) = step(TIMEOUT_US, begin(1_000), low(1_000));
    assert_eq!(action, Action::Trigger);
    assert_eq!(phase, Phase::WaitRise { since: 1_000 });
    let mut polls = 0u32;
    let mut now = 1_000u32;
    loop {
        now += 500;
        let (next, action) = step(TIMEOUT_US, phase, low(now));
        phase = next;
        polls += 1;
        if action != Action::Poll {
            assert_eq!(action, Action::Report(NO_ECHO));
            break;
        }
        assert!(now - 1_000 <= TIMEOUT_US);
    }
    assert_eq!(now, 31_500);
    assert_eq!(polls, 61);
    assert!(is_done(phase));
}

#[test]
fn deadline_itself_is_still_waiting() {
    let armed = Phase::WaitRise { since: 0 };
    assert_eq!(step(TIMEOUT_US, armed, low(30_000)), (armed, Action::Poll));
    assert_eq!(
        step(TIMEOUT_US, armed, low(30_001)),
        (Phase::Done { reading: NO_ECHO }, Action::Report(NO_ECHO))
    );
}

#[test]
fn deadline_is_configurable() {
    let armed = Phase::WaitRise { since: 0 };
    assert_eq!(step(100, armed, low(100)), (armed, Action::Poll));
    assert_eq!(
        step(100, armed, low(101)),
        (Phase::Done { reading: NO_ECHO }, Action::Report(NO_ECHO))
    );
    let samples = vec![low(0), high(10), high(200), low(590)];
    assert_eq!(measure_cm(100, &samples), NO_ECHO);
    assert_eq!(measure_cm(1_000, &samples), 10);
}

#[test]
fn echo_stuck_high_gives_no_echo() {
    let samples = vec![low(0), high(10), high(20_000), high(30_010), high(30_011), low(30_020)];
    assert_eq!(measure_cm(TIMEOUT_US, &samples), NO_ECHO);
}

#[test]
fn stale_high_line_that_never_drops_gives_no_echo() {
    let samples = vec![high(0), high(15_000), high(30_001), low(30_002), high(30_010), low(31_000)];
    assert_eq!(measure_cm(TIMEOUT_US, &samples), NO_ECHO);
}

#[test]
fn stale_high_line_that_drops_is_followed_by_a_measurement() {
    let samples = vec![high(0), high(100), low(200), low(300), high(400), high(500), low(980)];
    assert_eq!(measure_cm(TIMEOUT_US, &samples), 10);
}

#[test]
fn trigger_fires_only_once_the_line_is_idle() {
    let settle = begin(0);
    assert_eq!(settle, Phase::Settle { since: 0 });
    assert_eq!(step(TIMEOUT_US, settle, high(5)), (settle, Action::Poll));
    assert_eq!(
        step(TIMEOUT_US, settle, low(9)),
        (Phase::WaitRise { since: 9 }, Action::Trigger)
    );
}

#[test]
fn rising_edge_starts_the_measurement() {
    assert_eq!(
        step(TIMEOUT_US, Phase::WaitRise { since: 9 }, high(77)),
        (Phase::Measure { start: 77 }, Action::Poll)
    );
    assert_eq!(
        step(TIMEOUT_US, Phase::Measure { start: 77 }, high(78)),
        (Phase::Measure { start: 77 }, Action::Poll)
    );
    assert_eq!(
        step(TIMEOUT_US, Phase::Measure { start: 77 }, low(657)),
        (Phase::Done { reading: 10 }, Action::Report(10))
    );
}

#[test]
fn finished_cycle_repeats_its_reading() {
    let done = Phase::Done { reading: 10 };
    assert_eq!(step(TIMEOUT_US, done, high(1)), (done, Action::Report(10)));
    assert_eq!(step(TIMEOUT_US, done, low(99_999)), (done, Action::Report(10)));
    let samples = vec![low(0), high(100), low(680), high(700), low(9_000)];
    assert_eq!(measure_cm(TIMEOUT_US, &samples), 10);
}

#[test]
fn samples_that_end_early_give_no_echo() {
    assert_eq!(measure_cm(TIMEOUT_US, &Vec::new()), NO_ECHO);
    assert_eq!(measure_cm(TIMEOUT_US, &vec![low(0)]), NO_ECHO);
    assert_eq!(measure_cm(TIMEOUT_US, &vec![low(0), high(10), high(500)]), NO_ECHO);
}

#[test]
fn elapsed_is_exact_across_the_wrap() {
    assert_eq!(elapsed_us(10, 3), 7);
    assert_eq!(elapsed_us(3, 3), 0);
    assert_eq!(elapsed_us(5, 0xFFFF_FFFB), 10);
    assert_eq!(elapsed_us(0, u32::MAX), 1);
    assert_eq!(elapsed_us(0x0000_0144, 0xFFFF_FF00), 580);
}

#[test]
fn pulse_across_the_wrap_is_measured() {
    let samples = vec![
        low(0xFFFF_FE00),
        low(0xFFFF_FE80),
        high(0xFFFF_FF00),
        high(0xFFFF_FFFF),
        high(0x0000_0000),
        low(0x0000_0144),
    ];
    assert_eq!(measure_cm(TIMEOUT_US, &samples), 10);
}

#[test]
fn wait_across_the_wrap_is_held_to_the_deadline() {
    let armed = Phase::WaitRise { since: 0xFFFF_FF00 };
    assert_eq!(step(TIMEOUT_US, armed, low(0x0000_0010)), (armed, Action::Poll));
    assert_eq!(step(TIMEOUT_US, armed, low(29_744)), (armed, Action::Poll));
    assert_eq!(
        step(TIMEOUT_US, armed, low(29_745)),
        (Phase::Done { reading: NO_ECHO }, Action::Report(NO_ECHO))
    );
}

#[test]
fn trigger_sequence_is_low_high_low() {
    assert_eq!(
        trigger_sequence(),
        [
            TriggerStep::Drive { high: false },
            TriggerStep::Hold { us: 2 },
            TriggerStep::Drive { high: true },
            TriggerStep::Hold { us: 10 },
            TriggerStep::Drive { high: false },
        ]
    );
}
