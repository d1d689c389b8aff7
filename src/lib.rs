//! Occurrences of recurring timed events.
//!
//! A recurring event is described by an [`schedule::EventSchedule`]: an offset into a
//! period, the period's length and the duration of each occurrence, all in whole
//! minutes. Cursors over one schedule (in [`schedule`]) or over a group of schedules
//! (in [`meta`]) answer which occurrence comes next and which one is active at the
//! cursor. Time is counted in minutes from a reference zero chosen by the caller,
//! usually the most recent UTC midnight; a cursor may lie before it or many days after.

pub mod category;
pub mod event;
pub mod meta;
pub mod schedule;
