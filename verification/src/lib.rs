//! Device-level logic for a round-display dial gadget: the register codec of
//! its real-time clock, the register decoder of its capacitive touch panel,
//! the pulse-train planner of its tone generator, and the state machine of
//! its interactive time/date editor.
//!
//! Every function here is pure: it maps register bytes and requests to values
//! and decisions. The serial-bus transactions and peripheral drivers that
//! carry these bytes to and from the hardware live outside this library.

pub mod buzzer;
pub mod editor;
pub mod ft3267;
pub mod rtc8563;
