//! When an item applies: on one calendar date, every week on one weekday,
//! or not on any day at all.

use vstd::prelude::*;
use vstd::string::StringExecFns;

use crate::date::Date;
use crate::date::Weekday;
use crate::date::date_chars;
use crate::date::weekday_index_of;
use crate::date::weekday_name;
use crate::date::weekday_number_of;

verus! {

/// The day binding of an item: a single calendar date, a weekly recurrence,
/// or none.
#[derive(Clone, Copy, Debug, PartialEq, Eq, Structural)]
pub enum ScheduleSpec {
    /// The item applies exactly on this date.
    OnDate(Date),
    /// The item applies on every date falling on this weekday.
    OnWeekday(Weekday),
    /// The item applies on no date and no weekday.
    Unscheduled,
}

/// Whether an item scheduled by `s` applies on the date `date`: an
/// `OnDate` item on its own date alone, an `OnWeekday` item on every date
/// falling on its weekday, an `Unscheduled` item on no date.
pub open spec fn date_matches(s: ScheduleSpec, date: Date) -> bool {
    match s {
        ScheduleSpec::OnDate(d) => d == date,
        ScheduleSpec::OnWeekday(w) => w.index() == weekday_index_of(date@),
        ScheduleSpec::Unscheduled => false,
    }
}

/// Whether an item scheduled by `s` applies on the weekday `weekday`: an
/// `OnWeekday` item on its own weekday alone, an `OnDate` item on the
/// weekday its date falls on, an `Unscheduled` item on no weekday.
pub open spec fn weekday_matches(s: ScheduleSpec, weekday: Weekday) -> bool {
    match s {
        ScheduleSpec::OnDate(d) => weekday_index_of(d@) == weekday.index(),
        ScheduleSpec::OnWeekday(w) => w == weekday,
        ScheduleSpec::Unscheduled => false,
    }
}

impl ScheduleSpec {
    /// Whether an item with this schedule applies on `date`.
    pub fn matches_date(&self, date: &Date) -> (r: bool)
        ensures
            r == date_matches(*self, *date),
    {
        match self {
            ScheduleSpec::OnDate(d) => d == date,
            ScheduleSpec::OnWeekday(w) => w.number() == weekday_number_of(date),
            ScheduleSpec::Unscheduled => false,
        }
    }

    /// Whether an item with this schedule applies on `weekday`.
    pub fn matches_weekday(&self, weekday: Weekday) -> (r: bool)
        ensures
            r == weekday_matches(*self, weekday),
    {
        match self {
            ScheduleSpec::OnDate(d) => weekday_number_of(d) == weekday.number(),
            ScheduleSpec::OnWeekday(w) => *w == weekday,
            ScheduleSpec::Unscheduled => false,
        }
    }

    /// Appends the canonical text of this schedule to `out`.
    pub fn append_text(&self, out: &mut String)
        ensures
            final(out)@ == old(out)@ + schedule_chars(*self),
    {
        match self {
            ScheduleSpec::OnDate(d) => {
                out.append("on ");
                d.append_text(out);
                proof {
                    assert(out@ =~= old(out)@ + schedule_chars(*self));
                }
            },
            ScheduleSpec::OnWeekday(w) => {
                out.append("every ");
                out.append(w.name());
                proof {
                    assert(out@ =~= old(out)@ + schedule_chars(*self));
                }
            },
            ScheduleSpec::Unscheduled => {
                out.append("unscheduled");
            },
        }
    }
}

/// The canonical text of the schedule `s`: the date an `OnDate` item
/// applies on, the weekday an `OnWeekday` item recurs on, or the word
/// for no day binding.
pub open spec fn schedule_chars(s: ScheduleSpec) -> Seq<char> {
    match s {
        ScheduleSpec::OnDate(d) => "on "@ + date_chars(d@),
        ScheduleSpec::OnWeekday(w) => "every "@ + weekday_name(w),
        ScheduleSpec::Unscheduled => "unscheduled"@,
    }
}

} // verus!
