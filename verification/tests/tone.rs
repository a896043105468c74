use m5dial::buzzer::{
    tone_outcome, tone_params, tone_plan, Error, PulseParams, ToneAction, ToneOutcome, ToneState,
    MAX_TX_LOOP_COUNT, MIN_REPRESENTABLE_FREQ_HZ, TONE_CLK_DIVIDER, TONE_CLK_FREQ_HZ,
};

#[test]
fn frequency_at_the_floor_is_rejected() {
    // The floor is the base clock divided by 65536.
    assert_eq!(MIN_REPRESENTABLE_FREQ_HZ, TONE_CLK_FREQ_HZ / 65536);
    let f = MIN_REPRESENTABLE_FREQ_HZ as u16;
    assert_eq!(tone_params(f, 100), Err(Error::FreqTooLow(f)));
    assert_eq!(tone_params(1, 100), Err(Error::FreqTooLow(1)));
    assert_eq!(tone_params(0, 100), Err(Error::FreqTooLow(0)));
}

#[test]
fn duration_beyond_the_loop_count_is_rejected() {
    // 49 Hz for 60 s needs 2940 repeats, more than the register holds.
    assert_eq!(
        tone_params(49, 60000),
        Err(Error::DurationTooLongForFreq((60000, 49)))
    );
    // One repeat over the ceiling: 1000 Hz for 1024 ms.
    assert!(1024 * 1000 / 1000 > MAX_TX_LOOP_COUNT);
    assert_eq!(
        tone_params(1000, 1024),
        Err(Error::DurationTooLongForFreq((1024, 1000)))
    );
}

#[test]
fn pulse_timing_splits_the_wavelength() {
    // 4 kHz on a 3.2 MHz base clock: 800 ticks a period, split evenly.
    assert_eq!(
        tone_params(4000, 100),
        Ok(PulseParams {
            high: 400,
            low: 400,
            repeat: 400,
        })
    );
    // An odd wavelength puts the extra tick in the low half.
    // 3031 Hz -> wavelength 1055, high 527, low 528.
    assert_eq!(
        tone_params(3031, 10),
        Ok(PulseParams {
            high: 527,
            low: 528,
            repeat: 30,
        })
    );
}

#[test]
fn repeat_count_truncates() {
    // 440 Hz for 150 ms: 66 full periods fit.
    assert_eq!(
        tone_params(440, 150),
        Ok(PulseParams {
            high: 3636,
            low: 3636,
            repeat: 66,
        })
    );
}

#[test]
fn longest_representable_wavelength_just_above_the_floor() {
    // 49 Hz: wavelength 65306 still fits the two sixteen-bit halves.
    assert_eq!(
        tone_params(49, 100),
        Ok(PulseParams {
            high: 32653,
            low: 32653,
            repeat: 4,
        })
    );
}

#[test]
fn repeat_count_at_the_ceiling_is_accepted() {
    // 1000 Hz for 1023 ms lands exactly on the loop-count ceiling.
    assert_eq!(
        tone_params(1000, 1023),
        Ok(PulseParams {
            high: 1600,
            low: 1600,
            repeat: 1023,
        })
    );
}

#[test]
fn plan_rejects_and_preserves_the_request_details() {
    let f = MIN_REPRESENTABLE_FREQ_HZ as u16;
    assert_eq!(
        tone_plan(ToneState::Idle, f, 100),
        ToneAction::Reject(Error::FreqTooLow(f))
    );
    assert_eq!(
        tone_plan(ToneState::Active, 49, 60000),
        ToneAction::Reject(Error::DurationTooLongForFreq((60000, 49)))
    );
}

#[test]
fn plan_starts_on_idle_and_stops_first_on_active() {
    let p = PulseParams {
        high: 400,
        low: 400,
        repeat: 400,
    };
    assert_eq!(tone_plan(ToneState::Idle, 4000, 100), ToneAction::Start(p));
    assert_eq!(
        tone_plan(ToneState::Active, 4000, 100),
        ToneAction::StopThenStart(p)
    );
}

#[test]
fn every_failure_reclaims_an_idle_channel() {
    assert_eq!(tone_outcome(ToneOutcome::Started), (ToneState::Active, None));
    assert_eq!(
        tone_outcome(ToneOutcome::StopFailed),
        (ToneState::Idle, Some(Error::StopError))
    );
    assert_eq!(
        tone_outcome(ToneOutcome::StartFailed),
        (ToneState::Idle, Some(Error::TxError))
    );
}

#[test]
fn base_clock_divider() {
    assert_eq!(TONE_CLK_DIVIDER, 25);
}
