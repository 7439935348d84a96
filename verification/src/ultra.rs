//! The ultrasonic ranging engine.
//!
//! One measurement cycle settles the echo line, fires the trigger, waits for
//! the echo to rise, and times how long it stays high. The engine is a
//! transition function: it is handed one sample of the echo level and the
//! free-running microsecond clock at a time and answers with the next phase
//! and what to do next. Every wait is bounded by the same deadline, counted
//! from the tick at which the wait began with wrapping subtraction.

use vstd::prelude::*;

verus! {

/// Recommended deadline of each wait, in microseconds. A cycle has three
/// waits, each counted from its own start, so a whole cycle can take up to
/// three deadlines.
pub const TIMEOUT_US: u32 = 30_000;

/// Pulses shorter than this are electrical noise, not an echo.
pub const MIN_VALID_PULSE_US: u32 = 120;

/// The reading that stands for "no valid echo". No distance ever equals it.
pub const NO_ECHO: u32 = 0xFFFF_FFFF;

/// Microseconds of echo pulse per centimeter of distance, out and back.
pub const ROUND_TRIP_US_PER_CM: u32 = 58;

/// How long the trigger is held low before the pulse, in microseconds.
pub const TRIGGER_SETTLE_US: u32 = 2;

/// Width of the trigger pulse, in microseconds.
pub const TRIGGER_PULSE_US: u32 = 10;

/// The echo level and the clock, read together.
#[derive(Clone, Copy, Debug, PartialEq, Eq, Structural)]
pub struct EchoSample {
    pub high: bool,
    pub now: u32,
}

/// Where a measurement cycle stands.
#[derive(Clone, Copy, Debug, PartialEq, Eq, Structural)]
pub enum Phase {
    /// Waiting for a stale high echo to drop, since the given tick.
    Settle { since: u32 },
    /// Trigger fired; waiting for the echo to rise, since the given tick.
    WaitRise { since: u32 },
    /// Echo rose at `start`; waiting for it to fall.
    Measure { start: u32 },
    /// The cycle is over with this reading.
    Done { reading: u32 },
}

/// What the caller does before it hands over the next sample.
#[derive(Clone, Copy, Debug, PartialEq, Eq, Structural)]
pub enum Action {
    /// Sample the echo line and the clock again.
    Poll,
    /// Run the trigger sequence without interruption, then sample again.
    Trigger,
    /// The cycle is over: a distance in centimeters, or `NO_ECHO`.
    Report(u32),
}

/// One move of the trigger output.
#[derive(Clone, Copy, Debug, PartialEq, Eq, Structural)]
pub enum TriggerStep {
    /// Drive the trigger output to this level.
    Drive { high: bool },
    /// Keep the level for at least this many microseconds.
    Hold { us: u32 },
}

/// Ticks from `since` to `now` on a 32-bit counter that wraps.
pub open spec fn elapsed(now: u32, since: u32) -> u32 {
    if now >= since {
        (now - since) as u32
    } else {
        (now - since + 0x1_0000_0000) as u32
    }
}

/// Centimeters for an echo pulse of `pulse_us`, rounded to the nearest.
pub open spec fn distance(pulse_us: u32) -> u32 {
    ((pulse_us + 29) / 58) as u32
}

/// The reading for a completed pulse: noise is rejected, the rest converted.
pub open spec fn reading_of(pulse_us: u32) -> u32 {
    if pulse_us < MIN_VALID_PULSE_US {
        NO_ECHO
    } else {
        distance(pulse_us)
    }
}

/// The fixed trigger sequence: low, settle, high for the pulse width, low.
pub open spec fn trigger_pulse() -> Seq<TriggerStep> {
    seq![
        TriggerStep::Drive { high: false },
        TriggerStep::Hold { us: TRIGGER_SETTLE_US },
        TriggerStep::Drive { high: true },
        TriggerStep::Hold { us: TRIGGER_PULSE_US },
        TriggerStep::Drive { high: false },
    ]
}

/// The phase and action that follow `phase` on `sample`. An edge is looked
/// for first; only a sample without the awaited edge is held to the deadline.
pub open spec fn transition(timeout_us: u32, phase: Phase, sample: EchoSample) -> (Phase, Action) {
    let timed_out = (Phase::Done { reading: NO_ECHO }, Action::Report(NO_ECHO));
    match phase {
        Phase::Settle { since } => {
            if !sample.high {
                (Phase::WaitRise { since: sample.now }, Action::Trigger)
            } else if elapsed(sample.now, since) > timeout_us {
                timed_out
            } else {
                (phase, Action::Poll)
            }
        },
        Phase::WaitRise { since } => {
            if sample.high {
                (Phase::Measure { start: sample.now }, Action::Poll)
            } else if elapsed(sample.now, since) > timeout_us {
                timed_out
            } else {
                (phase, Action::Poll)
            }
        },
        Phase::Measure { start } => {
            if !sample.high {
                let reading = reading_of(elapsed(sample.now, start));
                (Phase::Done { reading }, Action::Report(reading))
            } else if elapsed(sample.now, start) > timeout_us {
                timed_out
            } else {
                (phase, Action::Poll)
            }
        },
        Phase::Done { reading } => (phase, Action::Report(reading)),
    }
}

/// The phase reached from `phase` by feeding `samples` in order. A finished
/// cycle takes no further samples.
pub open spec fn run(timeout_us: u32, phase: Phase, samples: Seq<EchoSample>) -> Phase
    decreases samples.len(),
{
    if samples.len() == 0 || phase is Done {
        phase
    } else {
        run(timeout_us, transition(timeout_us, phase, samples.first()).0, samples.drop_first())
    }
}

/// The reading of one whole cycle over `samples`. The cycle starts at the
/// first sample's tick; samples that end before the cycle does give no echo.
pub open spec fn cycle_reading(timeout_us: u32, samples: Seq<EchoSample>) -> u32 {
    if samples.len() == 0 {
        NO_ECHO
    } else {
        match run(timeout_us, Phase::Settle { since: samples[0].now }, samples) {
            Phase::Done { reading } => reading,
            _ => NO_ECHO,
        }
    }
}

/// Ticks from `since` to `now`, correct across one wrap of the counter.
pub fn elapsed_us(now: u32, since: u32) -> (ticks: u32)
    ensures
        ticks == elapsed(now, since),
{
    now.wrapping_sub(since)
}

/// Converts a pulse width to centimeters, rounding to the nearest.
pub fn distance_cm(pulse_us: u32) -> (cm: u32)
    ensures
        cm == (pulse_us + 29) / 58,
        cm == distance(pulse_us),
        cm != NO_ECHO,
{
    let biased: u64 = pulse_us as u64 + 29;
    (biased / 58) as u32
}

/// Rejects a pulse below the noise floor and converts any other.
pub fn pulse_reading(pulse_us: u32) -> (reading: u32)
    ensures
        reading == reading_of(pulse_us),
        reading == NO_ECHO <==> pulse_us < MIN_VALID_PULSE_US,
{
    if pulse_us < MIN_VALID_PULSE_US {
        NO_ECHO
    } else {
        distance_cm(pulse_us)
    }
}

/// The steps of the trigger sequence, in the order they are carried out.
pub fn trigger_sequence() -> (steps: [TriggerStep; 5])
    ensures
        steps@ == trigger_pulse(),
{
    let steps: [TriggerStep; 5] = [
        TriggerStep::Drive { high: false },
        TriggerStep::Hold { us: TRIGGER_SETTLE_US },
        TriggerStep::Drive { high: true },
        TriggerStep::Hold { us: TRIGGER_PULSE_US },
        TriggerStep::Drive { high: false },
    ];
    assert(steps@ =~= trigger_pulse());
    steps
}

/// The phase in which a cycle starts at tick `now`.
pub fn begin(now: u32) -> (phase: Phase)
    ensures
        phase == (Phase::Settle { since: now }),
{
    Phase::Settle { since: now }
}

/// Advances the cycle by one sample.
pub fn step(timeout_us: u32, phase: Phase, sample: EchoSample) -> (next: (Phase, Action))
    ensures
        next == transition(timeout_us, phase, sample),
        next.1 is Report <==> next.0 is Done,
        next.1 is Trigger <==> phase is Settle && !sample.high,
{
    match phase {
        Phase::Settle { since } => {
            if !sample.high {
                (Phase::WaitRise { since: sample.now }, Action::Trigger)
            } else if elapsed_us(sample.now, since) > timeout_us {
                (Phase::Done { reading: NO_ECHO }, Action::Report(NO_ECHO))
            } else {
                (phase, Action::Poll)
            }
        },
        Phase::WaitRise { since } => {
            if sample.high {
                (Phase::Measure { start: sample.now }, Action::Poll)
            } else if elapsed_us(sample.now, since) > timeout_us {
                (Phase::Done { reading: NO_ECHO }, Action::Report(NO_ECHO))
            } else {
                (phase, Action::Poll)
            }
        },
        Phase::Measure { start } => {
            if !sample.high {
                let reading = pulse_reading(elapsed_us(sample.now, start));
                (Phase::Done { reading }, Action::Report(reading))
            } else if elapsed_us(sample.now, start) > timeout_us {
                (Phase::Done { reading: NO_ECHO }, Action::Report(NO_ECHO))
            } else {
                (phase, Action::Poll)
            }
        },
        Phase::Done { reading } => (phase, Action::Report(reading)),
    }
}

/// Whether the cycle is over.
pub fn is_done(phase: Phase) -> (done: bool)
    ensures
        done == phase is Done,
{
    match phase {
        Phase::Done { .. } => true,
        _ => false,
    }
}

/// Runs one measurement cycle over recorded samples and gives its reading:
/// a distance in centimeters, or `NO_ECHO`.
pub fn measure_cm(timeout_us: u32, samples: &Vec<EchoSample>) -> (cm: u32)
    ensures
        cm == cycle_reading(timeout_us, samples@),
{
    let n: usize = samples.len();
    if n == 0 {
        return NO_ECHO;
    }
    let origin = begin(samples[0].now);
    let mut phase = origin;
    let mut i: usize = 0;
    assert(samples@.skip(0) =~= samples@);
    while i < n && !is_done(phase)
        invariant
            i <= n,
            n == samples.len(),
            run(timeout_us, phase, samples@.skip(i as int)) == run(timeout_us, origin, samples@),
        decreases n - i,
    {
        let (next, _) = step(timeout_us, phase, samples[i]);
        proof {
            let rest = samples@.skip(i as int);
            assert(rest.first() == samples@[i as int]);
            assert(rest.drop_first() =~= samples@.skip(i + 1));
        }
        phase = next;
        i = i + 1;
    }
    match phase {
        Phase::Done { reading } => reading,
        _ => NO_ECHO,
    }
}

/// The tick from which a waiting phase counts its deadline.
pub open spec fn reference(phase: Phase) -> u32 {
    match phase {
        Phase::Settle { since } => since,
        Phase::WaitRise { since } => since,
        Phase::Measure { start } => start,
        Phase::Done { .. } => 0,
    }
}

/// Whether `sample` lacks the edge that `phase` waits for, so that the phase
/// can only go on waiting or give up.
pub open spec fn keeps_waiting(phase: Phase, sample: EchoSample) -> bool {
    match phase {
        Phase::Settle { .. } => sample.high,
        Phase::WaitRise { .. } => !sample.high,
        Phase::Measure { .. } => sample.high,
        Phase::Done { .. } => false,
    }
}

/// Every sample sits at the level `high` and was taken within the deadline
/// counted from `since`.
pub open spec fn quiet(timeout_us: u32, samples: Seq<EchoSample>, high: bool, since: u32) -> bool {
    forall|i: int|
        0 <= i < samples.len() ==> (#[trigger] samples[i]).high == high && elapsed(
            samples[i].now,
            since,
        ) <= timeout_us
}

/// Elapsed time is exact when the counter wraps between the two reads: a
/// clock that read `since` and then advanced by `ticks`, modulo 2^32, is
/// found to have advanced by exactly `ticks`, also where the later reading
/// is the smaller number.
pub proof fn lemma_elapsed_across_wrap(since: u32, ticks: u32)
    ensures
        elapsed(((since + ticks) % 0x1_0000_0000) as u32, since) == ticks,
        since + ticks >= 0x1_0000_0000 ==> ((since + ticks) % 0x1_0000_0000) < since,
{
}

/// No distance equals the sentinel, so a reading is the sentinel only for a
/// pulse below the noise floor.
pub proof fn lemma_sentinel_is_no_distance(pulse_us: u32)
    ensures
        distance(pulse_us) != NO_ECHO,
        reading_of(pulse_us) == NO_ECHO <==> pulse_us < MIN_VALID_PULSE_US,
{
}

/// A wait ends at the first sample past its deadline: such a sample, if it
/// does not carry the awaited edge, finishes the cycle with no echo.
pub proof fn lemma_deadline_ends_wait(timeout_us: u32, phase: Phase, sample: EchoSample)
    requires
        keeps_waiting(phase, sample),
        elapsed(sample.now, reference(phase)) > timeout_us,
    ensures
        transition(timeout_us, phase, sample) == (
            Phase::Done { reading: NO_ECHO },
            Action::Report(NO_ECHO),
        ),
{
}

/// The engine never makes up a distance: it reports one only on the falling
/// edge of a timed pulse, and then the conversion of that pulse's width.
pub proof fn lemma_distance_is_measured(timeout_us: u32, phase: Phase, sample: EchoSample, cm: u32)
    requires
        !(phase is Done),
        transition(timeout_us, phase, sample).1 == Action::Report(cm),
        cm != NO_ECHO,
    ensures
        phase is Measure,
        !sample.high,
        elapsed(sample.now, reference(phase)) >= MIN_VALID_PULSE_US,
        cm == distance(elapsed(sample.now, reference(phase))),
{
}

/// Feeding two runs of samples one after the other is feeding them joined.
pub proof fn lemma_run_concat(
    timeout_us: u32,
    phase: Phase,
    head: Seq<EchoSample>,
    tail: Seq<EchoSample>,
)
    ensures
        run(timeout_us, phase, head + tail) == run(timeout_us, run(timeout_us, phase, head), tail),
    decreases head.len(),
{
    if head.len() == 0 {
        assert(head + tail =~= tail);
    } else if phase is Done {
    } else {
        let next = transition(timeout_us, phase, head.first()).0;
        assert((head + tail).first() == head.first());
        assert((head + tail).drop_first() =~= head.drop_first() + tail);
        lemma_run_concat(timeout_us, next, head.drop_first(), tail);
    }
}

/// A single sample moves the cycle by one transition.
pub proof fn lemma_run_one(timeout_us: u32, phase: Phase, sample: EchoSample)
    requires
        !(phase is Done),
    ensures
        run(timeout_us, phase, seq![sample]) == transition(timeout_us, phase, sample).0,
{
    let one = seq![sample];
    let next = transition(timeout_us, phase, sample).0;
    assert(one.first() == sample);
    assert(run(timeout_us, next, one.drop_first()) == next);
}

/// Samples without the awaited edge, all within the deadline, leave the
/// phase where it is.
pub proof fn lemma_quiet_samples_keep_phase(
    timeout_us: u32,
    phase: Phase,
    samples: Seq<EchoSample>,
)
    requires
        !(phase is Done),
        quiet(timeout_us, samples, !(phase is WaitRise), reference(phase)),
    ensures
        run(timeout_us, phase, samples) == phase,
    decreases samples.len(),
{
    if samples.len() > 0 {
        let rest = samples.drop_first();
        assert(samples[0].high == !(phase is WaitRise));
        assert forall|i: int| 0 <= i < rest.len() implies (#[trigger] rest[i]).high == !(phase
            is WaitRise) && elapsed(rest[i].now, reference(phase)) <= timeout_us by {
            assert(rest[i] == samples[i + 1]);
        }
        lemma_quiet_samples_keep_phase(timeout_us, phase, rest);
    }
}

/// The engine does not wait longer than the deadline: if no sample up to
/// the `k`-th carries the awaited edge and the `k`-th is past the deadline,
/// the cycle has finished with no echo, whatever follows.
pub proof fn lemma_wait_is_bounded(
    timeout_us: u32,
    phase: Phase,
    samples: Seq<EchoSample>,
    k: int,
)
    requires
        0 <= k < samples.len(),
        forall|i: int| 0 <= i <= k ==> keeps_waiting(phase, #[trigger] samples[i]),
        elapsed(samples[k].now, reference(phase)) > timeout_us,
    ensures
        run(timeout_us, phase, samples) == (Phase::Done { reading: NO_ECHO }),
        run(timeout_us, phase, samples.take(k + 1)) == (Phase::Done { reading: NO_ECHO }),
    decreases k,
{
    assert(keeps_waiting(phase, samples[0]));
    let rest = samples.drop_first();
    let next = transition(timeout_us, phase, samples.first()).0;
    let upto = samples.take(k + 1);
    assert(upto.first() == samples.first());
    assert(upto.drop_first() =~= rest.take(k));
    if next == phase && k > 0 {
        assert forall|i: int| 0 <= i <= k - 1 implies keeps_waiting(phase, #[trigger] rest[i]) by {
            assert(rest[i] == samples[i + 1]);
        }
        assert(rest[k - 1] == samples[k]);
        lemma_wait_is_bounded(timeout_us, phase, rest, k - 1);
    } else {
        assert(run(timeout_us, next, rest) == next);
        assert(run(timeout_us, next, rest.take(k)) == next);
    }
}

/// An echo line that never goes high gives no echo.
pub proof fn lemma_silent_line_gives_no_echo(timeout_us: u32, samples: Seq<EchoSample>)
    requires
        forall|i: int| 0 <= i < samples.len() ==> !(#[trigger] samples[i]).high,
    ensures
        cycle_reading(timeout_us, samples) == NO_ECHO,
{
    if samples.len() > 0 {
        let armed = Phase::WaitRise { since: samples[0].now };
        let rest = samples.drop_first();
        assert forall|i: int| 0 <= i < rest.len() implies !(#[trigger] rest[i]).high by {
            assert(rest[i] == samples[i + 1]);
        }
        lemma_low_samples_never_measure(timeout_us, armed, rest);
    }
}

/// While the echo stays low, a cycle that waits for the rising edge either
/// goes on waiting or gives up.
proof fn lemma_low_samples_never_measure(timeout_us: u32, phase: Phase, samples: Seq<EchoSample>)
    requires
        phase is WaitRise,
        forall|i: int| 0 <= i < samples.len() ==> !(#[trigger] samples[i]).high,
    ensures
        run(timeout_us, phase, samples) == phase || run(timeout_us, phase, samples) == (Phase::Done {
            reading: NO_ECHO,
        }),
    decreases samples.len(),
{
    if samples.len() > 0 {
        let rest = samples.drop_first();
        let next = transition(timeout_us, phase, samples.first()).0;
        assert(!samples[0].high);
        if next == phase {
            assert forall|i: int| 0 <= i < rest.len() implies !(#[trigger] rest[i]).high by {
                assert(rest[i] == samples[i + 1]);
            }
            lemma_low_samples_never_measure(timeout_us, phase, rest);
        } else {
            assert(run(timeout_us, next, rest) == next);
        }
    }
}

/// A clean echo is measured from its rising to its falling edge. The trace
/// may open with a stale high level that drops within the deadline (`stale`),
/// then shows the idle line (`idle`), stays low within the deadline (`waits`),
/// rises (`rise`), stays high within the deadline (`holds`) and falls
/// (`fall`). Its reading is the conversion of the ticks elapsed between
/// `rise` and `fall`, however the counter wrapped in between, and whatever
/// is sampled afterwards.
pub proof fn lemma_clean_echo_is_measured(
    timeout_us: u32,
    stale: Seq<EchoSample>,
    idle: EchoSample,
    waits: Seq<EchoSample>,
    rise: EchoSample,
    holds: Seq<EchoSample>,
    fall: EchoSample,
    rest: Seq<EchoSample>,
)
    requires
        quiet(timeout_us, stale, true, (stale + seq![idle])[0].now),
        !idle.high,
        quiet(timeout_us, waits, false, idle.now),
        rise.high,
        quiet(timeout_us, holds, true, rise.now),
        !fall.high,
    ensures
        cycle_reading(
            timeout_us,
            stale + seq![idle] + waits + seq![rise] + holds + seq![fall] + rest,
        ) == reading_of(elapsed(fall.now, rise.now)),
{
    let t = timeout_us;
    let s1 = stale + seq![idle];
    let s2 = s1 + waits;
    let s3 = s2 + seq![rise];
    let s4 = s3 + holds;
    let s5 = s4 + seq![fall];
    let trace = s5 + rest;
    let origin = Phase::Settle { since: s1[0].now };
    let armed = Phase::WaitRise { since: idle.now };
    let timing = Phase::Measure { start: rise.now };
    let done = Phase::Done { reading: reading_of(elapsed(fall.now, rise.now)) };
    assert(trace[0] == s1[0]);

    lemma_quiet_samples_keep_phase(t, origin, stale);
    lemma_run_one(t, origin, idle);
    lemma_run_concat(t, origin, stale, seq![idle]);
    assert(run(t, origin, s1) == armed);

    lemma_quiet_samples_keep_phase(t, armed, waits);
    lemma_run_concat(t, origin, s1, waits);
    assert(run(t, origin, s2) == armed);

    lemma_run_one(t, armed, rise);
    lemma_run_concat(t, origin, s2, seq![rise]);
    assert(run(t, origin, s3) == timing);

    lemma_quiet_samples_keep_phase(t, timing, holds);
    lemma_run_concat(t, origin, s3, holds);
    assert(run(t, origin, s4) == timing);

    lemma_run_one(t, timing, fall);
    lemma_run_concat(t, origin, s4, seq![fall]);
    assert(run(t, origin, s5) == done);

    lemma_run_concat(t, origin, s5, rest);
    assert(run(t, origin, trace) == done);
}

} // verus!
