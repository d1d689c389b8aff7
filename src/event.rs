//! A single occurrence of a recurring event.

use vstd::prelude::*;

use crate::schedule::EventSchedule;

verus! {

/// One occurrence of a recurring event.
#[derive(Clone, Copy, Debug)]
pub struct EventInstance {
    /// The schedule that the occurrence belongs to.
    pub schedule: EventSchedule,
    /// Minutes from the reference zero at which the occurrence starts.
    pub start_time: i64,
}

} // verus!
