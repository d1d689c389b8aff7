//! The schedule of a single recurring event, and cursors over its occurrences.

use vstd::prelude::*;

use vstd::arithmetic::div_mod::{
    lemma_fundamental_div_mod, lemma_fundamental_div_mod_converse, lemma_mod_add_multiples_vanish,
    lemma_mod_bound,
};

use crate::event::EventInstance;

verus! {

/// The schedule of a recurring event, in whole minutes.
///
/// Occurrences start `offset` minutes into each period of `frequency` minutes,
/// periods being counted from the reference zero, and each lasts `length` minutes.
#[derive(Clone, Copy, Debug)]
pub struct EventSchedule {
    /// The name of the event.
    pub name: &'static str,
    /// Minutes into each period at which an occurrence starts.
    pub offset: u32,
    /// Minutes from the start of one period to the start of the next.
    pub frequency: u32,
    /// Minutes that each occurrence lasts.
    pub length: u32,
}

impl EventSchedule {
    /// The schedule can be run: its period and its duration are positive.
    pub open spec fn wf(&self) -> bool {
        &&& self.frequency > 0
        &&& self.length > 0
    }

    /// The schedule also starts within its first period.
    pub open spec fn is_canonical(&self) -> bool {
        &&& self.wf()
        &&& self.offset < self.frequency
    }

    /// Minutes from the start of the period that holds `t` to `t` (floor semantics).
    pub open spec fn minute_in_period(&self, t: int) -> int {
        t % (self.frequency as int)
    }

    /// The start of the period that holds `t`.
    pub open spec fn period_start(&self, t: int) -> int {
        t - self.minute_in_period(t)
    }

    /// An occurrence of this schedule starts at `x`.
    pub open spec fn starts_at(&self, x: int) -> bool {
        x % (self.frequency as int) == self.offset as int
    }

    /// Where the cursor moves from `t` when it steps to the next occurrence: the
    /// offset in the current period if it is still ahead, else in the next period.
    pub open spec fn next_start(&self, t: int) -> int {
        if self.minute_in_period(t) < self.offset {
            self.period_start(t) + self.offset
        } else {
            self.period_start(t) + self.offset + self.frequency
        }
    }

    /// The start of the occurrence of the current period that covers `t`, if one does.
    pub open spec fn active_start(&self, t: int) -> Option<int> {
        let r = self.minute_in_period(t);
        if self.offset <= r && r < self.offset + self.length {
            Some(self.period_start(t) + self.offset)
        } else {
            None
        }
    }

    /// The occurrence of this schedule that starts at `x`.
    pub open spec fn instance(&self, x: int) -> EventInstance {
        EventInstance { schedule: *self, start_time: x as i64 }
    }

    /// What stepping from `t` yields.
    pub open spec fn next_instance(&self, t: int) -> EventInstance {
        self.instance(self.next_start(t))
    }

    /// What a query at `t` yields.
    pub open spec fn instance_at(&self, t: int) -> Option<EventInstance> {
        match self.active_start(t) {
            Some(x) => Some(self.instance(x)),
            None => None,
        }
    }

    /// The step from `t` lands within the range of `i64`.
    pub open spec fn next_fits(&self, t: int) -> bool {
        self.next_start(t) <= i64::MAX
    }

    /// The occurrence active at `t`, if any, starts within the range of `i64`.
    pub open spec fn active_fits(&self, t: int) -> bool {
        match self.active_start(t) {
            Some(x) => i64::MIN <= x,
            None => true,
        }
    }

    /// A schedule with the given fields, or `None` where the period or the duration
    /// is zero or the offset does not lie within the first period.
    pub fn new(name: &'static str, offset: u32, frequency: u32, length: u32) -> (r: Option<
        EventSchedule,
    >)
        ensures
            r is Some <==> (frequency > 0 && length > 0 && offset < frequency),
            r matches Some(s) ==> {
                &&& s.name == name
                &&& s.offset == offset
                &&& s.frequency == frequency
                &&& s.length == length
                &&& s.is_canonical()
            },
    {
        if frequency == 0 || length == 0 || offset >= frequency {
            None
        } else {
            Some(EventSchedule { name, offset, frequency, length })
        }
    }

    /// Computes `t` modulo the period, rounding towards negative infinity.
    fn minute_in_period_of(&self, t: i64) -> (r: i64)
        requires
            self.wf(),
        ensures
            r == self.minute_in_period(t as int),
            0 <= r < self.frequency,
    {
        match t.checked_rem_euclid(self.frequency as i64) {
            Some(r) => r,
            None => 0,
        }
    }

    /// The occurrence that a cursor at `t` steps to: the first one that starts
    /// after `t`, for a canonical schedule.
    pub fn next_occurrence(&self, t: i64) -> (r: EventInstance)
        requires
            self.wf(),
            self.next_fits(t as int),
        ensures
            r == self.next_instance(t as int),
    {
        let r = self.minute_in_period_of(t);
        let offset = self.offset as i64;
        let start = if r < offset {
            t + (offset - r)
        } else {
            t + (offset + self.frequency as i64 - r)
        };
        EventInstance { schedule: *self, start_time: start }
    }

    /// The occurrence of the current period that covers `t`, if there is one.
    pub fn occurrence_at(&self, t: i64) -> (r: Option<EventInstance>)
        requires
            self.wf(),
            self.active_fits(t as int),
        ensures
            r == self.instance_at(t as int),
    {
        let r = self.minute_in_period_of(t);
        let offset = self.offset as i64;
        if r < offset || r >= offset + self.length as i64 {
            None
        } else {
            Some(EventInstance { schedule: *self, start_time: t - (r - offset) })
        }
    }
}

impl EventSchedule {
    /// A cursor over this schedule, at the reference zero; the schedule must be runnable.
    pub fn iter(&self) -> (r: Iter)
        requires
            self.wf(),
        ensures
            r.schedule() == *self,
            r.cursor() == 0,
    {
        Iter::new(self, 0)
    }

    /// A cursor over this schedule, borrowed mutably, at the reference zero; the schedule
    /// must be runnable.
    pub fn iter_mut(&mut self) -> (r: IterMut)
        requires
            old(self).wf(),
        ensures
            r.schedule() == *old(self),
            r.cursor() == 0,
    {
        IterMut::new(self, 0)
    }

    /// A cursor over this schedule, taking it, at the reference zero; the schedule must be
    /// runnable.
    pub fn into_iter(self) -> (r: IntoIter)
        requires
            self.wf(),
        ensures
            r.schedule() == self,
            r.cursor() == 0,
    {
        IntoIter::new(self, 0)
    }
}

/// A cursor over the occurrences of a schedule that it owns.
///
/// Each call of `next` moves the cursor to the next occurrence that starts after it
/// and returns that occurrence; `now` reports the occurrence that covers the cursor.
#[derive(Clone)]
pub struct IntoIter {
    event_schedule: EventSchedule,
    /// The cursor, in minutes from the reference zero.
    offset: i64,
}

impl IntoIter {
    /// The schedule that the cursor runs over.
    pub closed spec fn schedule(&self) -> EventSchedule {
        self.event_schedule
    }

    /// The cursor, in minutes from the reference zero.
    pub closed spec fn cursor(&self) -> int {
        self.offset as int
    }

    /// The cursor lies within the range of `i64`.
    pub proof fn lemma_cursor_fits(&self)
        ensures
            i64::MIN <= self.cursor() <= i64::MAX,
    {
    }

    /// The cursor set to `minutes`.
    pub closed spec fn timed(self, minutes: i64) -> Self {
        IntoIter { offset: minutes, ..self }
    }

    /// The cursor moved by `amount` minutes.
    pub closed spec fn moved(self, amount: i64) -> Self {
        IntoIter { offset: (self.offset + amount) as i64, ..self }
    }

    /// The occurrence that covers the cursor, if any.
    pub open spec fn current(&self) -> Option<EventInstance> {
        self.schedule().instance_at(self.cursor())
    }

    fn new(event_schedule: EventSchedule, current_time: i64) -> (r: Self)
        ensures
            r.schedule() == event_schedule,
            r.cursor() == current_time,
    {
        IntoIter { event_schedule, offset: current_time }
    }

    /// The cursor, in minutes from the reference zero.
    pub fn current_time(&self) -> (r: i64)
        ensures
            r == self.cursor(),
    {
        self.offset
    }

    /// Sets the cursor to `minutes` from the reference zero, whatever it was.
    pub fn time(self, minutes: i64) -> (r: Self)
        ensures
            r == self.timed(minutes),
            r.schedule() == self.schedule(),
            r.cursor() == minutes,
    {
        let mut it = self;
        it.offset = minutes;
        it
    }

    /// Moves the cursor by `amount` minutes, forwards or backwards.
    pub fn fast_forward(self, amount: i64) -> (r: Self)
        requires
            i64::MIN <= self.cursor() + amount <= i64::MAX,
        ensures
            r == self.moved(amount),
            r.schedule() == self.schedule(),
            r.cursor() == self.cursor() + amount,
    {
        let mut it = self;
        it.offset = it.offset + amount;
        it
    }

    /// The occurrence of the current period that covers the cursor, if any; the
    /// cursor does not move.
    pub fn now(&self) -> (r: Option<EventInstance>)
        requires
            self.schedule().wf(),
            self.schedule().active_fits(self.cursor()),
        ensures
            r == self.current(),
    {
        self.event_schedule.occurrence_at(self.offset)
    }

    /// Moves the cursor to the next occurrence and returns it; there always is one.
    pub fn next(&mut self) -> (r: Option<EventInstance>)
        requires
            old(self).schedule().wf(),
            old(self).schedule().next_fits(old(self).cursor()),
        ensures
            final(self).schedule() == old(self).schedule(),
            final(self).cursor() == old(self).schedule().next_start(old(self).cursor()),
            r == Some(old(self).schedule().next_instance(old(self).cursor())),
    {
        let e = self.event_schedule.next_occurrence(self.offset);
        self.offset = e.start_time;
        Some(e)
    }
}

/// A cursor over the occurrences of a borrowed schedule; see [`IntoIter`].
#[derive(Clone)]
pub struct Iter<'a> {
    event_schedule: &'a EventSchedule,
    /// The cursor, in minutes from the reference zero.
    offset: i64,
}

impl<'a> Iter<'a> {
    /// The schedule that the cursor runs over.
    pub closed spec fn schedule(&self) -> EventSchedule {
        *self.event_schedule
    }

    /// The cursor, in minutes from the reference zero.
    pub closed spec fn cursor(&self) -> int {
        self.offset as int
    }

    /// The cursor lies within the range of `i64`.
    pub proof fn lemma_cursor_fits(&self)
        ensures
            i64::MIN <= self.cursor() <= i64::MAX,
    {
    }

    /// The cursor set to `minutes`.
    pub closed spec fn timed(self, minutes: i64) -> Self {
        Iter { offset: minutes, ..self }
    }

    /// The cursor moved by `amount` minutes.
    pub closed spec fn moved(self, amount: i64) -> Self {
        Iter { offset: (self.offset + amount) as i64, ..self }
    }

    /// The occurrence that covers the cursor, if any.
    pub open spec fn current(&self) -> Option<EventInstance> {
        self.schedule().instance_at(self.cursor())
    }

    fn new(event_schedule: &'a EventSchedule, current_time: i64) -> (r: Self)
        ensures
            r.schedule() == *event_schedule,
            r.cursor() == current_time,
    {
        Iter { event_schedule, offset: current_time }
    }

    /// The cursor, in minutes from the reference zero.
    pub fn current_time(&self) -> (r: i64)
        ensures
            r == self.cursor(),
    {
        self.offset
    }

    /// Sets the cursor to `minutes` from the reference zero, whatever it was.
    pub fn time(self, minutes: i64) -> (r: Self)
        ensures
            r == self.timed(minutes),
            r.schedule() == self.schedule(),
            r.cursor() == minutes,
    {
        let mut it = self;
        it.offset = minutes;
        it
    }

    /// Moves the cursor by `amount` minutes, forwards or backwards.
    pub fn fast_forward(self, amount: i64) -> (r: Self)
        requires
            i64::MIN <= self.cursor() + amount <= i64::MAX,
        ensures
            r == self.moved(amount),
            r.schedule() == self.schedule(),
            r.cursor() == self.cursor() + amount,
    {
        let mut it = self;
        it.offset = it.offset + amount;
        it
    }

    /// The occurrence of the current period that covers the cursor, if any; the
    /// cursor does not move.
    pub fn now(&self) -> (r: Option<EventInstance>)
        requires
            self.schedule().wf(),
            self.schedule().active_fits(self.cursor()),
        ensures
            r == self.current(),
    {
        self.event_schedule.occurrence_at(self.offset)
    }

    /// Moves the cursor to the next occurrence and returns it; there always is one.
    pub fn next(&mut self) -> (r: Option<EventInstance>)
        requires
            old(self).schedule().wf(),
            old(self).schedule().next_fits(old(self).cursor()),
        ensures
            final(self).schedule() == old(self).schedule(),
            final(self).cursor() == old(self).schedule().next_start(old(self).cursor()),
            r == Some(old(self).schedule().next_instance(old(self).cursor())),
    {
        let e = self.event_schedule.next_occurrence(self.offset);
        self.offset = e.start_time;
        Some(e)
    }
}

/// A cursor over the occurrences of a mutably borrowed schedule; see [`IntoIter`].
pub struct IterMut<'a> {
    event_schedule: &'a mut EventSchedule,
    /// The cursor, in minutes from the reference zero.
    offset: i64,
}

impl<'a> IterMut<'a> {
    /// The schedule that the cursor runs over.
    pub closed spec fn schedule(&self) -> EventSchedule {
        *self.event_schedule
    }

    /// The cursor, in minutes from the reference zero.
    pub closed spec fn cursor(&self) -> int {
        self.offset as int
    }

    /// The cursor lies within the range of `i64`.
    pub proof fn lemma_cursor_fits(&self)
        ensures
            i64::MIN <= self.cursor() <= i64::MAX,
    {
    }

    /// The cursor set to `minutes`.
    pub closed spec fn timed(self, minutes: i64) -> Self {
        IterMut { offset: minutes, ..self }
    }

    /// The cursor moved by `amount` minutes.
    pub closed spec fn moved(self, amount: i64) -> Self {
        IterMut { offset: (self.offset + amount) as i64, ..self }
    }

    /// The occurrence that covers the cursor, if any.
    pub open spec fn current(&self) -> Option<EventInstance> {
        self.schedule().instance_at(self.cursor())
    }

    fn new(event_schedule: &'a mut EventSchedule, current_time: i64) -> (r: Self)
        ensures
            r.schedule() == *old(event_schedule),
            r.cursor() == current_time,
    {
        IterMut { event_schedule, offset: current_time }
    }

    /// The cursor, in minutes from the reference zero.
    pub fn current_time(&self) -> (r: i64)
        ensures
            r == self.cursor(),
    {
        self.offset
    }

    /// Sets the cursor to `minutes` from the reference zero, whatever it was.
    pub fn time(self, minutes: i64) -> (r: Self)
        ensures
            r == self.timed(minutes),
            r.schedule() == self.schedule(),
            r.cursor() == minutes,
    {
        let mut it = self;
        it.offset = minutes;
        it
    }

    /// Moves the cursor by `amount` minutes, forwards or backwards.
    pub fn fast_forward(self, amount: i64) -> (r: Self)
        requires
            i64::MIN <= self.cursor() + amount <= i64::MAX,
        ensures
            r == self.moved(amount),
            r.schedule() == self.schedule(),
            r.cursor() == self.cursor() + amount,
    {
        let mut it = self;
        it.offset = it.offset + amount;
        it
    }

    /// The occurrence of the current period that covers the cursor, if any; the
    /// cursor does not move.
    pub fn now(&self) -> (r: Option<EventInstance>)
        requires
            self.schedule().wf(),
            self.schedule().active_fits(self.cursor()),
        ensures
            r == self.current(),
    {
        self.event_schedule.occurrence_at(self.offset)
    }

    /// Moves the cursor to the next occurrence and returns it; there always is one.
    pub fn next(&mut self) -> (r: Option<EventInstance>)
        requires
            old(self).schedule().wf(),
            old(self).schedule().next_fits(old(self).cursor()),
        ensures
            final(self).schedule() == old(self).schedule(),
            final(self).cursor() == old(self).schedule().next_start(old(self).cursor()),
            r == Some(old(self).schedule().next_instance(old(self).cursor())),
    {
        let e = self.event_schedule.next_occurrence(self.offset);
        self.offset = e.start_time;
        Some(e)
    }
}

/// Splits `t` into whole periods of `s` and the minute within the period.
proof fn lemma_period_split(s: EventSchedule, t: int)
    requires
        s.wf(),
    ensures
        t == (t / s.frequency as int) * s.frequency + s.minute_in_period(t),
        0 <= s.minute_in_period(t) < s.frequency,
        s.period_start(t) == (t / s.frequency as int) * s.frequency,
{
    let f = s.frequency as int;
    lemma_fundamental_div_mod(t, f);
    lemma_mod_bound(t, f);
    assert(f * (t / f) == (t / f) * f) by (nonlinear_arith);
}

/// A point `q` whole periods and `r` minutes from the reference zero is `r`
/// minutes into its period.
proof fn lemma_minute_in_period_of(s: EventSchedule, q: int, r: int)
    requires
        s.wf(),
        0 <= r < s.frequency,
    ensures
        s.minute_in_period(q * s.frequency + r) == r,
{
    lemma_fundamental_div_mod_converse(q * s.frequency + r, s.frequency as int, q, r);
}

/// Stepping from `t` lands after `t`, and for a canonical schedule on an occurrence.
pub proof fn lemma_next_start_is_occurrence(s: EventSchedule, t: int)
    requires
        s.wf(),
    ensures
        t < s.next_start(t),
        s.is_canonical() ==> s.starts_at(s.next_start(t)),
{
    lemma_period_split(s, t);
    let q = t / s.frequency as int;
    if s.is_canonical() {
        if s.minute_in_period(t) < s.offset {
            lemma_minute_in_period_of(s, q, s.offset as int);
        } else {
            assert((q + 1) * s.frequency == q * s.frequency + s.frequency) by (nonlinear_arith);
            lemma_minute_in_period_of(s, q + 1, s.offset as int);
        }
    }
}

/// Stepping from `t` lands on an occurrence after `t`; for a canonical schedule
/// that is the first occurrence after `t`.
pub proof fn lemma_next_start_is_first(s: EventSchedule, t: int, x: int)
    requires
        s.is_canonical(),
        s.starts_at(x),
        t < x,
    ensures
        t < s.next_start(t),
        s.starts_at(s.next_start(t)),
        s.next_start(t) <= x,
{
    let f = s.frequency as int;
    let o = s.offset as int;
    let q = t / f;
    let r = s.minute_in_period(t);
    lemma_period_split(s, t);
    let p = x / f;
    lemma_period_split(s, x);
    if r < o {
        lemma_minute_in_period_of(s, q, o);
        assert(p >= q) by (nonlinear_arith)
            requires
                x == p * f + o,
                t == q * f + r,
                t < x,
                0 <= r < o,
                o < f,
                f > 0,
        ;
        assert(p * f >= q * f) by (nonlinear_arith)
            requires
                p >= q,
                f > 0,
        ;
    } else {
        lemma_minute_in_period_of(s, q + 1, o);
        assert((q + 1) * f == q * f + f) by (nonlinear_arith);
        assert(p >= q + 1) by (nonlinear_arith)
            requires
                x == p * f + o,
                t == q * f + r,
                t < x,
                o <= r < f,
                f > 0,
        ;
        assert(p * f >= (q + 1) * f) by (nonlinear_arith)
            requires
                p >= q + 1,
                f > 0,
        ;
    }
}

/// Successive steps of a cursor over a canonical schedule move strictly forward,
/// and after the first step each one moves exactly one period.
pub proof fn lemma_steps_advance_by_frequency(s: EventSchedule, t: int)
    requires
        s.is_canonical(),
    ensures
        t < s.next_start(t),
        s.next_start(s.next_start(t)) == s.next_start(t) + s.frequency,
{
    lemma_next_start_is_occurrence(s, t);
}

/// An occurrence reported as active at `t` covers `t`, and a cursor put one
/// minute before its start steps onto that start.
pub proof fn lemma_active_contains(s: EventSchedule, t: int)
    requires
        s.wf(),
        s.active_start(t) is Some,
    ensures
        s.active_start(t)->0 <= t < s.active_start(t)->0 + s.length,
        s.next_start(s.active_start(t)->0 - 1) == s.active_start(t)->0,
{
    let f = s.frequency as int;
    let o = s.offset as int;
    let x = s.active_start(t)->0;
    lemma_period_split(s, t);
    let q = t / f;
    if o >= 1 {
        lemma_minute_in_period_of(s, q, o - 1);
    } else {
        assert((q - 1) * f + (f - 1) == q * f - 1) by (nonlinear_arith);
        lemma_minute_in_period_of(s, q - 1, f - 1);
    }
}

/// Moving a cursor by one whole period moves what it finds by the same amount:
/// a negative cursor resolves as the cursor one period later does.
pub proof fn lemma_shift_by_period(s: EventSchedule, t: int)
    requires
        s.wf(),
    ensures
        s.next_start(t + s.frequency) == s.next_start(t) + s.frequency,
        match s.active_start(t) {
            Some(x) => s.active_start(t + s.frequency) == Some(x + s.frequency),
            None => s.active_start(t + s.frequency) is None,
        },
{
    lemma_mod_add_multiples_vanish(t, s.frequency as int);
    assert(s.frequency + t == t + s.frequency);
}

/// Setting the time of a cursor discards its whole history: two cursors over the same
/// schedule, wherever earlier moves and steps left them, report the same occurrence
/// once both are set to the same time.
pub proof fn lemma_time_discards_history(a: IntoIter, b: IntoIter, minutes: i64)
    requires
        a.schedule() == b.schedule(),
    ensures
        a.timed(minutes).current() == b.timed(minutes).current(),
{
}

} // verus!
