//! The in-game calendar: days of the week in quarters of an hour.

use vstd::prelude::*;
use crate::timer::{Countdown, CountdownModel, TimerMode};

verus! {

/// A day of the week.
#[derive(Clone, Copy, Debug, PartialEq, Eq, Structural)]
pub enum Day {
    Sunday,
    Monday,
    Tuesday,
    Wednesday,
    Thursday,
    Friday,
    Saturday,
}

/// The day with the number `index`, counted from Sunday as zero and round
/// the week.
pub open spec fn day_of(index: int) -> Day {
    let index = index % 7;
    if index == 0 {
        Day::Sunday
    } else if index == 1 {
        Day::Monday
    } else if index == 2 {
        Day::Tuesday
    } else if index == 3 {
        Day::Wednesday
    } else if index == 4 {
        Day::Thursday
    } else if index == 5 {
        Day::Friday
    } else {
        Day::Saturday
    }
}

impl Day {
    /// The day's number, from Sunday as zero.
    pub open spec fn index_spec(self) -> int {
        match self {
            Day::Sunday => 0,
            Day::Monday => 1,
            Day::Tuesday => 2,
            Day::Wednesday => 3,
            Day::Thursday => 4,
            Day::Friday => 5,
            Day::Saturday => 6,
        }
    }

    /// The day's name.
    pub open spec fn name_spec(self) -> Seq<char> {
        match self {
            Day::Sunday => "Sunday"@,
            Day::Monday => "Monday"@,
            Day::Tuesday => "Tuesday"@,
            Day::Wednesday => "Wednesday"@,
            Day::Thursday => "Thursday"@,
            Day::Friday => "Friday"@,
            Day::Saturday => "Saturday"@,
        }
    }

    /// The day's number, from Sunday as zero.
    pub fn index(&self) -> (r: u8)
        ensures
            r == self.index_spec(),
            day_of(r as int) == *self,
    {
        match self {
            Day::Sunday => 0,
            Day::Monday => 1,
            Day::Tuesday => 2,
            Day::Wednesday => 3,
            Day::Thursday => 4,
            Day::Friday => 5,
            Day::Saturday => 6,
        }
    }

    /// The day's name.
    pub fn name(&self) -> (r: &'static str)
        ensures
            r@ == self.name_spec(),
    {
        match self {
            Day::Sunday => "Sunday",
            Day::Monday => "Monday",
            Day::Tuesday => "Tuesday",
            Day::Wednesday => "Wednesday",
            Day::Thursday => "Thursday",
            Day::Friday => "Friday",
            Day::Saturday => "Saturday",
        }
    }

    /// The day `days` days later.
    pub fn later(self, days: u8) -> (r: Day)
        ensures
            r == day_of(self.index_spec() + days),
    {
        let index: u16 = (self.index() as u16 + days as u16) % 7;
        Day::from(index as u8)
    }
}

impl core::ops::Add<u8> for Day {
    type Output = Day;

    fn add(self, rhs: u8) -> (r: Day) {
        self.later(rhs)
    }
}

impl vstd::std_specs::ops::AddSpecImpl<u8> for Day {
    open spec fn obeys_add_spec() -> bool {
        true
    }

    open spec fn add_req(self, rhs: u8) -> bool {
        true
    }

    open spec fn add_spec(self, rhs: u8) -> Day {
        day_of(self.index_spec() + rhs)
    }
}

impl Default for Day {
    /// Sunday.
    fn default() -> (r: Day)
        ensures
            r == Day::Sunday,
    {
        Day::Sunday
    }
}

impl From<u8> for Day {
    fn from(value: u8) -> (r: Day) {
        let index: u8 = value % 7;
        match index {
            0 => Day::Sunday,
            1 => Day::Monday,
            2 => Day::Tuesday,
            3 => Day::Wednesday,
            4 => Day::Thursday,
            5 => Day::Friday,
            _ => Day::Saturday,
        }
    }
}

impl vstd::std_specs::convert::FromSpecImpl<u8> for Day {
    open spec fn obeys_from_spec() -> bool {
        true
    }

    open spec fn from_spec(value: u8) -> Day {
        day_of(value as int)
    }
}

/// A quarter of an hour.
#[derive(Clone, Copy, Debug, PartialEq, Eq, Structural)]
pub enum Minute {
    Flat,
    Quarter,
    Half,
    FortyFive,
}

/// The quarter with the number `index`, counted from the full hour as zero
/// and round the hour.
pub open spec fn minute_of(index: int) -> Minute {
    let index = index % 4;
    if index == 0 {
        Minute::Flat
    } else if index == 1 {
        Minute::Quarter
    } else if index == 2 {
        Minute::Half
    } else {
        Minute::FortyFive
    }
}

impl Minute {
    /// The quarter's number, from the full hour as zero.
    pub open spec fn index_spec(self) -> int {
        match self {
            Minute::Flat => 0,
            Minute::Quarter => 1,
            Minute::Half => 2,
            Minute::FortyFive => 3,
        }
    }

    /// The two digits of the quarter.
    pub open spec fn name_spec(self) -> Seq<char> {
        match self {
            Minute::Flat => "00"@,
            Minute::Quarter => "15"@,
            Minute::Half => "30"@,
            Minute::FortyFive => "45"@,
        }
    }

    /// The quarter's number, from the full hour as zero.
    pub fn index(&self) -> (r: u8)
        ensures
            r == self.index_spec(),
            minute_of(r as int) == *self,
    {
        match self {
            Minute::Flat => 0,
            Minute::Quarter => 1,
            Minute::Half => 2,
            Minute::FortyFive => 3,
        }
    }

    /// The two digits of the quarter.
    pub fn name(&self) -> (r: &'static str)
        ensures
            r@ == self.name_spec(),
    {
        match self {
            Minute::Flat => "00",
            Minute::Quarter => "15",
            Minute::Half => "30",
            Minute::FortyFive => "45",
        }
    }

    /// The quarter `quarters` quarters later.
    pub fn later(self, quarters: u8) -> (r: Minute)
        ensures
            r == minute_of(self.index_spec() + quarters),
    {
        let index: u16 = (self.index() as u16 + quarters as u16) % 4;
        Minute::from(index as u8)
    }
}

impl core::ops::Add<u8> for Minute {
    type Output = Minute;

    fn add(self, rhs: u8) -> (r: Minute) {
        self.later(rhs)
    }
}

impl vstd::std_specs::ops::AddSpecImpl<u8> for Minute {
    open spec fn obeys_add_spec() -> bool {
        true
    }

    open spec fn add_req(self, rhs: u8) -> bool {
        true
    }

    open spec fn add_spec(self, rhs: u8) -> Minute {
        minute_of(self.index_spec() + rhs)
    }
}

impl Default for Minute {
    /// The full hour.
    fn default() -> (r: Minute)
        ensures
            r == Minute::Flat,
    {
        Minute::Flat
    }
}

impl From<u8> for Minute {
    fn from(value: u8) -> (r: Minute) {
        let index: u8 = value % 4;
        match index {
            0 => Minute::Flat,
            1 => Minute::Quarter,
            2 => Minute::Half,
            _ => Minute::FortyFive,
        }
    }
}

impl vstd::std_specs::convert::FromSpecImpl<u8> for Minute {
    open spec fn obeys_from_spec() -> bool {
        true
    }

    open spec fn from_spec(value: u8) -> Minute {
        minute_of(value as int)
    }
}

/// A point in the week, to the quarter of an hour.
#[derive(Clone, Copy, Debug, PartialEq, Eq, Structural)]
pub struct Date {
    pub minute: Minute,
    pub hour: u8,
    pub day: Day,
}

impl Date {
    /// The date a quarter of an hour later. The hour turns over after the
    /// last quarter, and the day after the last hour.
    pub open spec fn advanced(self) -> Date {
        let minute = minute_of(self.minute.index_spec() + 1);
        if self.minute == Minute::FortyFive {
            let hour = ((self.hour + 1) % 24) as u8;
            Date {
                minute,
                hour,
                day: if hour < self.hour {
                    day_of(self.day.index_spec() + 1)
                } else {
                    self.day
                },
            }
        } else {
            Date { minute, ..self }
        }
    }

    /// Whether a quarter of an hour from this date a new day begins.
    pub open spec fn ends_day(self) -> bool {
        self.minute == Minute::FortyFive && (self.hour + 1) % 24 < self.hour
    }

    /// The date of `day`, `hour` and `minute`.
    pub fn new(day: Day, hour: u8, minute: Minute) -> (r: Date)
        ensures
            r == (Date { minute, hour, day }),
    {
        Date { day, hour, minute }
    }

    /// Moves on by a quarter of an hour and says whether a new day began.
    pub fn advance(&mut self) -> (r: bool)
        ensures
            *final(self) == old(self).advanced(),
            r == old(self).ends_day(),
    {
        let old_date = *self;
        self.minute = self.minute.later(1);
        if self.minute.index() < old_date.minute.index() {
            self.hour = ((self.hour as u16 + 1) % 24) as u8;
            if self.hour < old_date.hour {
                self.day = self.day.later(1);
                return true;
            }
        }
        false
    }
}

impl Default for Date {
    /// Sunday at midnight.
    fn default() -> (r: Date)
        ensures
            r == (Date { minute: Minute::Flat, hour: 0, day: Day::Sunday }),
    {
        Date { minute: Minute::Flat, hour: 0, day: Day::Sunday }
    }
}

/// The phone's clock: a date that moves on by a quarter whenever its timer
/// comes round.
#[derive(Clone, Copy, Debug)]
pub struct Phone {
    pub date: Date,
    pub timer: Countdown,
}

impl Phone {
    /// A phone that shows `date` and moves on every `period` nanoseconds.
    pub fn new(date: Date, period: u64) -> (r: Phone)
        ensures
            r.date == date,
            r.timer@ == CountdownModel::fresh(period as nat, TimerMode::Repeating),
    {
        Phone { date, timer: Countdown::new(period, TimerMode::Repeating) }
    }

    /// Lets `delta` nanoseconds pass: the date moves on by one quarter if the
    /// timer came round in that time.
    pub fn tick(&mut self, delta: u64)
        ensures
            final(self).timer@ == old(self).timer@.ticked(delta as nat),
            final(self).date == (if final(self).timer@.just_finished {
                old(self).date.advanced()
            } else {
                old(self).date
            }),
    {
        self.timer.tick(delta);
        if self.timer.just_finished() {
            self.date.advance();
        }
    }
}

/// From any date with an hour of the day, four quarters lead to the same
/// quarter of the next hour, and past the last hour into the next day.
pub proof fn law_four_quarters_make_an_hour(date: Date)
    requires
        date.hour < 24,
    ensures
        date.advanced().advanced().advanced().advanced() == (Date {
            hour: ((date.hour + 1) % 24) as u8,
            day: if date.hour == 23 {
                day_of(date.day.index_spec() + 1)
            } else {
                date.day
            },
            ..date
        }),
{
}

} // verus!
