//! The three item kinds the engine stores: todos, tasks with a duration,
//! and events bound to one calendar date.

use vstd::prelude::*;
use vstd::string::StringExecFns;

use crate::date::Date;
use crate::schedule::ScheduleSpec;
use crate::schedule::schedule_chars;
use crate::store::Schedulable;
use crate::text::dec_digits;
use crate::text::push_dec;

verus! {

/// The error of building an item whose kind requires a day binding the
/// caller did not supply.
#[derive(Clone, Copy, Debug, PartialEq, Eq, Structural)]
pub enum ConstructionError {
    /// A task was given no day binding at all.
    TaskUnscheduled,
    /// An event was given something other than a single calendar date.
    EventWithoutDate,
}

/// The canonical text of an item with body `body` and schedule `s`.
pub open spec fn item_chars(body: Seq<char>, s: ScheduleSpec) -> Seq<char> {
    body + " ("@ + schedule_chars(s) + ")"@
}

/// The canonical text of a task: its body, its duration in minutes, and
/// its schedule.
pub open spec fn task_chars(body: Seq<char>, duration: int, s: ScheduleSpec) -> Seq<char> {
    body + " ("@ + dec_digits(duration) + " min, "@ + schedule_chars(s) + ")"@
}

/// A todo: a body and a schedule, which may leave it unscheduled.
#[derive(Debug, PartialEq)]
pub struct Todo {
    body: String,
    schedule: ScheduleSpec,
}

impl Todo {
    /// The body text of this todo.
    pub closed spec fn body_chars(&self) -> Seq<char> {
        self.body@
    }

    /// A todo with the given body and schedule; every schedule is
    /// allowed.
    pub fn new(body: String, schedule: ScheduleSpec) -> (t: Todo)
        ensures
            t.body_chars() == body@,
            t.sched() == schedule,
    {
        Todo { body, schedule }
    }

    /// The body text of this todo.
    pub fn body(&self) -> (r: &str)
        ensures
            r@ == self.body_chars(),
    {
        self.body.as_str()
    }

    /// The canonical text of this todo: its body and its schedule.
    pub fn display_string(&self) -> (r: String)
        ensures
            r@ == item_chars(self.body_chars(), self.sched()),
    {
        let mut out: String = self.body.clone();
        out.append(" (");
        self.schedule.append_text(&mut out);
        out.append(")");
        proof {
            assert(out@ =~= item_chars(self.body_chars(), self.sched()));
        }
        out
    }
}

impl Schedulable for Todo {
    closed spec fn sched(&self) -> ScheduleSpec {
        self.schedule
    }

    fn schedule(&self) -> (s: ScheduleSpec) {
        self.schedule
    }
}

/// A task: a body, a duration in minutes, and a schedule that always
/// binds it to a date or a weekday.
#[derive(Debug, PartialEq)]
pub struct Task {
    body: String,
    duration: u32,
    schedule: ScheduleSpec,
}

impl Task {
    /// The task's body text.
    pub closed spec fn body_chars(&self) -> Seq<char> {
        self.body@
    }

    /// The task's duration, in minutes.
    pub closed spec fn duration_val(&self) -> u32 {
        self.duration
    }

    /// A task with the given body, duration and schedule. A task must
    /// have a day binding: an unscheduled schedule is rejected with
    /// `ConstructionError::TaskUnscheduled` and builds nothing.
    pub fn new(body: String, duration: u32, schedule: ScheduleSpec) -> (r: Result<
        Task,
        ConstructionError,
    >)
        ensures
            schedule is Unscheduled ==> (r matches Err(e) && e
                == ConstructionError::TaskUnscheduled),
            !(schedule is Unscheduled) ==> (r matches Ok(t) && t.body_chars() == body@
                && t.duration_val() == duration && t.sched() == schedule),
    {
        match schedule {
            ScheduleSpec::Unscheduled => Err(ConstructionError::TaskUnscheduled),
            _ => Ok(Task { body, duration, schedule }),
        }
    }

    /// The task's body text.
    pub fn body(&self) -> (r: &str)
        ensures
            r@ == self.body_chars(),
    {
        self.body.as_str()
    }

    /// The task's duration, in minutes.
    pub fn duration(&self) -> (d: u32)
        ensures
            d == self.duration_val(),
    {
        self.duration
    }

    /// The canonical text of the task: its body, its duration and its
    /// schedule.
    pub fn display_string(&self) -> (r: String)
        ensures
            r@ == task_chars(self.body_chars(), self.duration_val() as int, self.sched()),
    {
        let mut out: String = self.body.clone();
        out.append(" (");
        push_dec(&mut out, self.duration);
        out.append(" min, ");
        self.schedule.append_text(&mut out);
        out.append(")");
        proof {
            assert(out@ =~= task_chars(self.body_chars(), self.duration_val() as int,
            self.sched()));
        }
        out
    }
}

impl Schedulable for Task {
    closed spec fn sched(&self) -> ScheduleSpec {
        self.schedule
    }

    fn schedule(&self) -> (s: ScheduleSpec) {
        self.schedule
    }
}

/// An event: a body bound to a single calendar date; there is no
/// recurring form.
#[derive(Debug, PartialEq)]
pub struct Event {
    body: String,
    date: Date,
}

impl Event {
    /// The body text of this event.
    pub closed spec fn body_chars(&self) -> Seq<char> {
        self.body@
    }

    /// An event with the given body, on the date its schedule names. An
    /// event must be bound to one date: a weekly or unscheduled schedule
    /// is rejected with `ConstructionError::EventWithoutDate` and builds
    /// nothing.
    pub fn new(body: String, schedule: ScheduleSpec) -> (r: Result<Event, ConstructionError>)
        ensures
            (schedule matches ScheduleSpec::OnDate(d)) ==> (r matches Ok(e) && e.body_chars()
                == body@ && e.sched() == schedule),
            !(schedule matches ScheduleSpec::OnDate(d)) ==> (r matches Err(er) && er
                == ConstructionError::EventWithoutDate),
    {
        match schedule {
            ScheduleSpec::OnDate(date) => Ok(Event { body, date }),
            _ => Err(ConstructionError::EventWithoutDate),
        }
    }

    /// The body text of this event.
    pub fn body(&self) -> (r: &str)
        ensures
            r@ == self.body_chars(),
    {
        self.body.as_str()
    }

    /// The date this event falls on.
    pub fn date(&self) -> (d: Date)
        ensures
            self.sched() == ScheduleSpec::OnDate(d),
    {
        self.date
    }

    /// The canonical text of this event: its body and its date.
    pub fn display_string(&self) -> (r: String)
        ensures
            r@ == item_chars(self.body_chars(), self.sched()),
    {
        let mut out: String = self.body.clone();
        out.append(" (");
        let s: ScheduleSpec = ScheduleSpec::OnDate(self.date);
        s.append_text(&mut out);
        out.append(")");
        proof {
            assert(out@ =~= item_chars(self.body_chars(), self.sched()));
        }
        out
    }
}

impl Schedulable for Event {
    closed spec fn sched(&self) -> ScheduleSpec {
        ScheduleSpec::OnDate(self.date)
    }

    fn schedule(&self) -> (s: ScheduleSpec) {
        ScheduleSpec::OnDate(self.date)
    }
}

} // verus!
