//! The times of one day after another, handed out one at a time.
//!
//! The hours of a day are solved outside this library, so the iterator
//! cannot go on to a new day by itself: it says which day it needs, and is
//! given that day's solved hours.
use crate::calculator::{Calculator, SolvedHours};
use crate::calendar::CalendarDate;
use crate::types::{PraytimeType, PraytimesOutput};
use vstd::prelude::*;

verus! {

/// A calculator, the last day whose times were calculated, and those of its
/// times that have not been handed out yet.
pub struct PraytimesIterator {
    calculator: Calculator,
    date: CalendarDate,
    calculated: Vec<(PraytimeType, i64)>,
}

/// What the iterator does next.
#[derive(Clone, Copy, Debug, PartialEq, Eq, Structural)]
pub enum Step {
    /// A time of the current day.
    Item(PraytimeType, i64),
    /// The current day has no time left: the hours of this day are needed.
    NeedDay(CalendarDate),
    /// There is no day after the current one.
    Done,
}

impl PraytimesIterator {
    /// The calculator that turns solved hours into times.
    pub closed spec fn calculator(&self) -> Calculator {
        self.calculator
    }

    /// The last day whose times were calculated; at first, the day before
    /// the first one.
    pub closed spec fn date(&self) -> CalendarDate {
        self.date
    }

    /// The times of the current day that are still to come. They are
    /// handed out from the end.
    pub closed spec fn pending(&self) -> Seq<(PraytimeType, i64)> {
        self.calculated@
    }

    /// The day of the iterator is a day of the calendar.
    pub open spec fn is_valid(&self) -> bool {
        self.date().is_valid()
    }

    /// An iterator over the times of the days after `date`.
    pub fn new(calculator: Calculator, date: CalendarDate) -> (r: Self)
        requires
            date.is_valid(),
        ensures
            r.is_valid(),
            r.calculator() == calculator,
            r.date() == date,
            r.pending() == Seq::<(PraytimeType, i64)>::empty(),
    {
        PraytimesIterator { calculator, date, calculated: Vec::new() }
    }

    /// The day that the iterator needs next, if any.
    pub open spec fn following_day(&self) -> Option<CalendarDate> {
        let next = crate::calendar::next_ymd(
            self.date().year as int,
            self.date().month as int,
            self.date().day as int,
        );
        if next.0 <= crate::calendar::MAX_YEAR {
            Some(CalendarDate { year: next.0 as i32, month: next.1 as u32, day: next.2 as u32 })
        } else {
            None
        }
    }

    /// The last pending time, taken off the list; or, where none is
    /// pending, the day whose hours are needed; or the end.
    pub fn next(&mut self) -> (r: Step)
        requires
            old(self).is_valid(),
        ensures
            final(self).is_valid(),
            final(self).calculator() == old(self).calculator(),
            final(self).date() == old(self).date(),
            old(self).pending().len() > 0 ==> r == Step::Item(
                old(self).pending().last().0,
                old(self).pending().last().1,
            )
                && final(self).pending() == old(self).pending().drop_last(),
            old(self).pending().len() == 0 ==> final(self).pending() == old(self).pending() && r
                == match old(self).following_day() {
                Some(day) => Step::NeedDay(day),
                None => Step::Done,
            },
            r matches Step::NeedDay(day) ==> day.is_valid() && day.epoch_days() == old(
                self,
            ).date().epoch_days() + 1,
    {
        if self.calculated.len() == 0 {
            match self.date.succ_opt() {
                Some(day) => Step::NeedDay(day),
                None => Step::Done,
            }
        } else {
            match self.calculated.pop() {
                Some(item) => Step::Item(item.0, item.1),
                None => Step::Done,
            }
        }
    }

    /// Goes on to `date` with its solved hours: the times of that day
    /// become the pending ones, and the last of them is handed out. Where
    /// the day has no time at all, nothing is handed out.
    pub fn supply(&mut self, date: CalendarDate, hours: &SolvedHours) -> (r: Option<
        (PraytimeType, i64),
    >)
        requires
            date.is_valid(),
        ensures
            final(self).is_valid(),
            final(self).calculator() == old(self).calculator(),
            final(self).date() == date,
            ({
                let times = old(self).calculator().calculated(date, *hours).entries();
                if times.len() > 0 {
                    r == Some(times.last()) && final(self).pending() == times.drop_last()
                } else {
                    r is None && final(self).pending() == times
                }
            }),
    {
        let times: PraytimesOutput = self.calculator.calculate(&date, hours);
        self.date = date;
        self.calculated = times.into_vec();
        self.calculated.pop()
    }
}

} // verus!
