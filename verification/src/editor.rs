//! Interactive time/date editor.
//!
//! A click of the dial button cycles the editor through a fixed ring of
//! modes: running, then one edit mode per field of the working time and
//! date. Turning the dial applies a wrap-around increment to the field of
//! the active mode. On every tick of the polling loop the editor either
//! pulls the authoritative value from the clock store (while running) or
//! pushes its working value back to the store (while editing). The polling
//! loop and the store transactions belong to the caller; this module holds
//! every decision.

use vstd::prelude::*;
use crate::rtc8563::Date;
use crate::rtc8563::Time;

verus! {

/// What the editor is doing: showing the running clock, or editing one
/// field of the working value.
#[derive(Debug, Clone, Copy, PartialEq, Eq, Structural)]
pub enum Mode {
    Run,
    EditHours,
    EditMinutes,
    EditDay,
    EditMonth,
    EditYear,
}

/// A working copy of what the clock store holds.
#[derive(Debug, Clone, Copy, PartialEq, Eq, Structural)]
pub struct ClockValue {
    pub time: Time,
    pub date: Date,
}

/// The editor: its mode and the working value it shows and edits.
#[derive(Debug, Clone, Copy, PartialEq, Eq, Structural)]
pub struct ClockEditor {
    pub mode: Mode,
    pub working: ClockValue,
}

/// The mode a click moves to: the one fixed cycle through every edit mode
/// and back to running.
pub open spec fn next_mode(m: Mode) -> Mode {
    match m {
        Mode::Run => Mode::EditHours,
        Mode::EditHours => Mode::EditMinutes,
        Mode::EditMinutes => Mode::EditDay,
        Mode::EditDay => Mode::EditMonth,
        Mode::EditMonth => Mode::EditYear,
        Mode::EditYear => Mode::Run,
    }
}

/// The mode reached after `n` clicks.
pub open spec fn mode_after(m: Mode, n: nat) -> Mode
    decreases n,
{
    if n == 0 {
        m
    } else {
        next_mode(mode_after(m, (n - 1) as nat))
    }
}

/// Wrap-around increment: the sum of `current` and `delta`, except that
/// reaching the ceiling wraps to zero and falling below zero wraps to the
/// ceiling's predecessor. A jump past the ceiling in one call gets the same
/// rule applied once.
pub open spec fn wrapped(current: int, delta: int, ceiling: int) -> int {
    if current + delta >= ceiling {
        0
    } else if current + delta < 0 {
        ceiling - 1
    } else {
        current + delta
    }
}

/// A wrap-around increment always lands inside the field's range, whatever
/// the starting value and delta: after an edit, the edited field is within
/// its ceiling.
pub proof fn lemma_wrapped_in_range(current: int, delta: int, ceiling: int)
    requires
        0 < ceiling,
    ensures
        0 <= wrapped(current, delta, ceiling) < ceiling,
{
}

/// Apply a wrap-around increment below a ceiling.
pub fn wrap(current: i32, delta: i32, ceiling: i32) -> (r: i32)
    requires
        0 < ceiling <= 0x10000,
        -0x10000 <= current <= 0x10000,
        -0x10000 <= delta <= 0x10000,
    ensures
        r == wrapped(current as int, delta as int, ceiling as int),
{
    let next: i32 = current + delta;
    if next >= ceiling {
        0
    } else if next < 0 {
        ceiling - 1
    } else {
        next
    }
}

/// Field ceilings: hours wrap below 24, minutes below 60, days below 31,
/// months below 12 and years below 3000.
pub const HOURS_CEILING: i32 = 24;

pub const MINUTES_CEILING: i32 = 60;

pub const DAY_CEILING: i32 = 31;

pub const MONTH_CEILING: i32 = 12;

pub const YEAR_CEILING: i32 = 3000;

/// The editor state an edit event leaves behind: the field of the active
/// mode wrapped by `delta`, everything else unchanged; a no-op while
/// running.
pub open spec fn edited(s: ClockEditor, delta: int) -> ClockEditor {
    match s.mode {
        Mode::Run => s,
        Mode::EditHours => ClockEditor {
            working: ClockValue {
                time: Time {
                    hours: wrapped(s.working.time.hours as int, delta, HOURS_CEILING as int) as u8,
                    ..s.working.time
                },
                ..s.working
            },
            ..s
        },
        Mode::EditMinutes => ClockEditor {
            working: ClockValue {
                time: Time {
                    minutes: wrapped(s.working.time.minutes as int, delta, MINUTES_CEILING as int) as u8,
                    ..s.working.time
                },
                ..s.working
            },
            ..s
        },
        Mode::EditDay => ClockEditor {
            working: ClockValue {
                date: Date {
                    day: wrapped(s.working.date.day as int, delta, DAY_CEILING as int) as u8,
                    ..s.working.date
                },
                ..s.working
            },
            ..s
        },
        Mode::EditMonth => ClockEditor {
            working: ClockValue {
                date: Date {
                    month: wrapped(s.working.date.month as int, delta, MONTH_CEILING as int) as u8,
                    ..s.working.date
                },
                ..s.working
            },
            ..s
        },
        Mode::EditYear => ClockEditor {
            working: ClockValue {
                date: Date {
                    year: wrapped(s.working.date.year as int, delta, YEAR_CEILING as int) as i16,
                    ..s.working.date
                },
                ..s.working
            },
            ..s
        },
    }
}

impl ClockEditor {
    /// A fresh editor: running, with a zeroed working value that the first
    /// tick overwrites from the store.
    pub fn new() -> (r: Self)
        ensures
            r.mode is Run,
            r.working.time == (Time { hours: 0, minutes: 0, seconds: 0 }),
            r.working.date == (Date { week_day: 0, month: 0, day: 0, year: 0 }),
    {
        ClockEditor {
            mode: Mode::Run,
            working: ClockValue {
                time: Time { hours: 0, minutes: 0, seconds: 0 },
                date: Date { week_day: 0, month: 0, day: 0, year: 0 },
            },
        }
    }

    /// A click of the dial button: move to the next mode of the cycle. The
    /// working value is untouched.
    pub fn click(&mut self)
        ensures
            final (self).mode == next_mode(old(self).mode),
            final (self).working == old(self).working,
    {
        self.mode = match self.mode {
            Mode::Run => Mode::EditHours,
            Mode::EditHours => Mode::EditMinutes,
            Mode::EditMinutes => Mode::EditDay,
            Mode::EditDay => Mode::EditMonth,
            Mode::EditMonth => Mode::EditYear,
            Mode::EditYear => Mode::Run,
        };
    }

    /// A turn of the dial: wrap the field of the active mode by `delta`.
    /// While running, turning the dial edits nothing.
    pub fn edit(&mut self, delta: i8)
        ensures
            *final (self) == edited(*old(self), delta as int),
    {
        match self.mode {
            Mode::Run => {},
            Mode::EditHours => {
                self.working.time.hours = wrap(
                    self.working.time.hours as i32,
                    delta as i32,
                    HOURS_CEILING,
                ) as u8;
            },
            Mode::EditMinutes => {
                self.working.time.minutes = wrap(
                    self.working.time.minutes as i32,
                    delta as i32,
                    MINUTES_CEILING,
                ) as u8;
            },
            Mode::EditDay => {
                self.working.date.day = wrap(
                    self.working.date.day as i32,
                    delta as i32,
                    DAY_CEILING,
                ) as u8;
            },
            Mode::EditMonth => {
                self.working.date.month = wrap(
                    self.working.date.month as i32,
                    delta as i32,
                    MONTH_CEILING,
                ) as u8;
            },
            Mode::EditYear => {
                self.working.date.year = wrap(
                    self.working.date.year as i32,
                    delta as i32,
                    YEAR_CEILING,
                ) as i16;
            },
        }
    }

    /// One tick of the polling loop: while running, pull the store's value
    /// into the working copy; while editing, leave the working copy alone
    /// and hand back the value the caller must push to the store — on every
    /// tick, not only when an edit happened.
    pub fn tick(&mut self, store_value: ClockValue) -> (push: Option<ClockValue>)
        ensures
            final (self).mode == old(self).mode,
            old(self).mode is Run ==> final (self).working == store_value && push is None,
            !(old(self).mode is Run) ==> *final (self) == *old(self) && push == Some(
                old(self).working,
            ),
    {
        match self.mode {
            Mode::Run => {
                self.working = store_value;
                None
            },
            _ => Some(self.working),
        }
    }
}

/// A change of the dial-button level since the last poll becomes an event
/// carrying the new level; an unchanged level is no event.
pub fn button_event(last_state: bool, current_state: bool) -> (r: Option<bool>)
    ensures
        current_state != last_state ==> r == Some(current_state),
        current_state == last_state ==> r is None,
{
    if current_state != last_state {
        Some(current_state)
    } else {
        None
    }
}

/// The state of the clock store after a tick: unchanged while the editor is
/// running, overwritten with the working value while it is editing.
pub open spec fn store_after_tick(e: ClockEditor, store_value: ClockValue) -> ClockValue {
    if e.mode is Run {
        store_value
    } else {
        e.working
    }
}

/// Synchronization policy: whenever the editor is in any edit mode, a tick
/// overwrites the store with the working value — even without further edit
/// input, the store ends each tick equal to the last working value.
pub proof fn lemma_sync_policy(e: ClockEditor, store_value: ClockValue)
    requires
        !(e.mode is Run),
    ensures
        store_after_tick(e, store_value) == e.working,
{
}

/// Mode cycle: from `Run`, six clicks visit the five edit modes in their
/// fixed order and return to `Run`, which is reached exactly once, at the
/// sixth click.
pub proof fn lemma_mode_cycle()
    ensures
        mode_after(Mode::Run, 1) == Mode::EditHours,
        mode_after(Mode::Run, 2) == Mode::EditMinutes,
        mode_after(Mode::Run, 3) == Mode::EditDay,
        mode_after(Mode::Run, 4) == Mode::EditMonth,
        mode_after(Mode::Run, 5) == Mode::EditYear,
        mode_after(Mode::Run, 6) == Mode::Run,
        forall|n: nat| 1 <= n < 6 ==> mode_after(Mode::Run, n) != Mode::Run,
{
    assert forall|n: nat| 1 <= n < 6 implies mode_after(Mode::Run, n) != Mode::Run by {
        reveal_with_fuel(mode_after, 7);
        assert(mode_after(Mode::Run, 1) == Mode::EditHours);
        assert(mode_after(Mode::Run, 2) == Mode::EditMinutes);
        assert(mode_after(Mode::Run, 3) == Mode::EditDay);
        assert(mode_after(Mode::Run, 4) == Mode::EditMonth);
        assert(mode_after(Mode::Run, 5) == Mode::EditYear);
    }
    reveal_with_fuel(mode_after, 7);
}

} // verus!
