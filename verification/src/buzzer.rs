//! Tone-generator planner.
//!
//! The buzzer is driven by a pulse-train peripheral that replays one
//! high/low pulse a finite number of times at a fixed base clock. This
//! module turns a requested frequency and duration into the pulse timing
//! and repeat count, rejecting requests the hardware cannot represent, and
//! decides the transitions of the one channel resource the peripheral owns:
//! idle and configurable, or active and transmitting. Driving the peripheral
//! itself belongs to the caller.

use vstd::prelude::*;

verus! {

/// Source clock of the pulse-train peripheral before division.
pub const RMT_DEFAULT_CLK_FREQ_HZ: u32 = 80_000_000;

/// Base clock the pulse-train channel is configured to run at.
pub const TONE_CLK_FREQ_HZ: u32 = 3_200_000;

/// Divider that produces the base clock from the source clock.
pub const TONE_CLK_DIVIDER: u32 = RMT_DEFAULT_CLK_FREQ_HZ / TONE_CLK_FREQ_HZ;

/// Hardware ceiling on the finite repeat count: the loop-count register is
/// ten bits wide.
pub const MAX_TX_LOOP_COUNT: u32 = 1023;

/// Largest frequency whose half-period does not fit the pulse-width
/// register: one pulse holds a sixteen-bit wavelength, so anything at or
/// below the base clock divided by 65536 is rejected.
pub const MIN_REPRESENTABLE_FREQ_HZ: u32 = TONE_CLK_FREQ_HZ / 65536;

/// Why a tone request was refused or a transmission failed.
#[derive(Debug, Clone, Copy, PartialEq, Eq)]
pub enum Error {
    /// The requested frequency is at or below the representable minimum.
    FreqTooLow(u16),
    /// The requested duration needs more pulse repeats than the loop-count
    /// register holds; carries the duration and frequency of the request.
    DurationTooLongForFreq((u16, u16)),
    /// Stopping the running transmission failed; the channel was reclaimed.
    StopError,
    /// Starting the new transmission failed; the channel was reclaimed.
    TxError,
}

/// Timing of one planned pulse train: the high and low level durations in
/// base-clock ticks and the number of times the pulse is replayed.
#[derive(Debug, Clone, Copy, PartialEq, Eq, Structural)]
pub struct PulseParams {
    pub high: u16,
    pub low: u16,
    pub repeat: u16,
}

/// The two shapes of the channel resource: idle and configurable, or active
/// with a transmission running.
#[derive(Debug, Clone, Copy, PartialEq, Eq, Structural)]
pub enum ToneState {
    Idle,
    Active,
}

/// What a tone request asks the hardware driver to do.
#[derive(Debug, Clone, Copy, PartialEq, Eq)]
pub enum ToneAction {
    /// The request is not representable; nothing is to be done.
    Reject(Error),
    /// The channel is idle: start transmitting these pulses.
    Start(PulseParams),
    /// A transmission is running: stop it first, then start this one.
    StopThenStart(PulseParams),
}

/// How the hardware driver fared with a planned action.
#[derive(Debug, Clone, Copy, PartialEq, Eq, Structural)]
pub enum ToneOutcome {
    /// The new transmission is running.
    Started,
    /// Stopping the previous transmission failed; the channel is idle again.
    StopFailed,
    /// Starting the new transmission failed; the channel is idle again.
    StartFailed,
}

/// A frequency whose wavelength overflows the sixteen-bit pulse registers.
pub open spec fn freq_too_low(freq_hz: u16) -> bool {
    freq_hz <= MIN_REPRESENTABLE_FREQ_HZ
}

/// Wavelength of a tone in base-clock ticks.
pub open spec fn wave_len(freq_hz: u16) -> int {
    TONE_CLK_FREQ_HZ as int / freq_hz as int
}

/// How many times one wavelength fits the requested duration; truncating.
pub open spec fn repeat_count(freq_hz: u16, duration_ms: u16) -> int {
    (duration_ms * freq_hz) / 1000
}

/// A duration that needs more repeats than the loop-count register holds.
pub open spec fn duration_too_long(freq_hz: u16, duration_ms: u16) -> bool {
    repeat_count(freq_hz, duration_ms) > MAX_TX_LOOP_COUNT
}

/// The pulse train that plays a representable request: half the wavelength
/// high, the rest low (ties go to the high half), repeated once per period
/// of the duration.
pub open spec fn planned_pulse(freq_hz: u16, duration_ms: u16) -> PulseParams {
    PulseParams {
        high: (wave_len(freq_hz) / 2) as u16,
        low: (wave_len(freq_hz) - wave_len(freq_hz) / 2) as u16,
        repeat: repeat_count(freq_hz, duration_ms) as u16,
    }
}

/// Compute the pulse timing for a tone request, or say exactly why the
/// hardware cannot play it.
pub fn tone_params(freq_hz: u16, duration_ms: u16) -> (r: Result<PulseParams, Error>)
    ensures
        freq_too_low(freq_hz) ==> r == Err::<PulseParams, Error>(Error::FreqTooLow(freq_hz)),
        !freq_too_low(freq_hz) && duration_too_long(freq_hz, duration_ms) ==> r == Err::<
            PulseParams,
            Error,
        >(Error::DurationTooLongForFreq((duration_ms, freq_hz))),
        !freq_too_low(freq_hz) && !duration_too_long(freq_hz, duration_ms) ==> r == Ok::<
            PulseParams,
            Error,
        >(planned_pulse(freq_hz, duration_ms)),
{
    if freq_hz as u32 <= MIN_REPRESENTABLE_FREQ_HZ {
        return Err(Error::FreqTooLow(freq_hz));
    }
    assert(TONE_CLK_FREQ_HZ as int / freq_hz as int <= 65306 && TONE_CLK_FREQ_HZ as int
        / freq_hz as int >= 0) by (nonlinear_arith)
        requires
            freq_hz > 48,
    ;
    let wave_length: u32 = TONE_CLK_FREQ_HZ / (freq_hz as u32);
    assert(duration_ms as int * freq_hz as int <= 0xFFFF * 0xFFFF) by (nonlinear_arith)
        requires
            duration_ms <= 0xFFFF,
            freq_hz <= 0xFFFF,
    ;
    let count_u32: u32 = (duration_ms as u32 * freq_hz as u32) / 1000;
    if count_u32 > MAX_TX_LOOP_COUNT {
        return Err(Error::DurationTooLongForFreq((duration_ms, freq_hz)));
    }
    let high: u16 = (wave_length / 2) as u16;
    let low: u16 = (wave_length - high as u32) as u16;
    Ok(PulseParams { high, low, repeat: count_u32 as u16 })
}

/// Every request that passes both checks plays exactly as asked: the two
/// halves of the planned pulse add up to the whole wavelength — which the
/// frequency floor keeps inside the sixteen-bit pulse registers — the
/// halves differ by at most the odd tick, and the repeat count is the
/// truncated period count, inside the loop-count ceiling.
pub proof fn lemma_planned_pulse_fits(freq_hz: u16, duration_ms: u16)
    requires
        !freq_too_low(freq_hz),
        !duration_too_long(freq_hz, duration_ms),
    ensures
        planned_pulse(freq_hz, duration_ms).high + planned_pulse(freq_hz, duration_ms).low
            == wave_len(freq_hz),
        planned_pulse(freq_hz, duration_ms).high <= planned_pulse(freq_hz, duration_ms).low
            <= planned_pulse(freq_hz, duration_ms).high + 1,
        wave_len(freq_hz) <= 0xFFFF,
        planned_pulse(freq_hz, duration_ms).repeat == repeat_count(freq_hz, duration_ms),
        planned_pulse(freq_hz, duration_ms).repeat <= MAX_TX_LOOP_COUNT,
{
    let wl = wave_len(freq_hz);
    assert(0 <= wl <= 65306 && wl / 2 <= wl - wl / 2 <= wl / 2 + 1) by (nonlinear_arith)
        requires
            freq_hz > 48,
            wl == TONE_CLK_FREQ_HZ as int / freq_hz as int,
    ;
}

/// Decide what a tone request does to the channel: reject an
/// unrepresentable request, start on an idle channel, or stop the running
/// transmission first on an active one.
pub fn tone_plan(state: ToneState, freq_hz: u16, duration_ms: u16) -> (r: ToneAction)
    ensures
        freq_too_low(freq_hz) ==> r == ToneAction::Reject(Error::FreqTooLow(freq_hz)),
        !freq_too_low(freq_hz) && duration_too_long(freq_hz, duration_ms) ==> r
            == ToneAction::Reject(Error::DurationTooLongForFreq((duration_ms, freq_hz))),
        !freq_too_low(freq_hz) && !duration_too_long(freq_hz, duration_ms) && state
            is Idle ==> r == ToneAction::Start(planned_pulse(freq_hz, duration_ms)),
        !freq_too_low(freq_hz) && !duration_too_long(freq_hz, duration_ms) && state
            is Active ==> r == ToneAction::StopThenStart(planned_pulse(freq_hz, duration_ms)),
{
    match tone_params(freq_hz, duration_ms) {
        Err(e) => ToneAction::Reject(e),
        Ok(params) => match state {
            ToneState::Idle => ToneAction::Start(params),
            ToneState::Active => ToneAction::StopThenStart(params),
        },
    }
}

/// Fold the hardware driver's outcome back into the channel state. Every
/// failure reclaims the channel in its idle shape, so the generator stays
/// usable, and maps to its own error.
pub fn tone_outcome(outcome: ToneOutcome) -> (r: (ToneState, Option<Error>))
    ensures
        outcome is Started ==> r == (ToneState::Active, None::<Error>),
        outcome is StopFailed ==> r == (ToneState::Idle, Some(Error::StopError)),
        outcome is StartFailed ==> r == (ToneState::Idle, Some(Error::TxError)),
        r.1 is Some ==> r.0 is Idle,
{
    match outcome {
        ToneOutcome::Started => (ToneState::Active, None),
        ToneOutcome::StopFailed => (ToneState::Idle, Some(Error::StopError)),
        ToneOutcome::StartFailed => (ToneState::Idle, Some(Error::TxError)),
    }
}

} // verus!
