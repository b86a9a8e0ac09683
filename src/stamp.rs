//! The time of a message, as the parts that its file name shows.
use vstd::prelude::*;
use crate::digits::{four_digits, two_digits, push_four_digits, push_two_digits};

verus! {

pub open spec fn is_leap_year(y: nat) -> bool {
    y % 4 == 0 && (y % 100 != 0 || y % 400 == 0)
}

pub open spec fn days_in_month(y: nat, m: nat) -> nat {
    if m == 2 {
        if is_leap_year(y) {
            29
        } else {
            28
        }
    } else if m == 4 || m == 6 || m == 9 || m == 11 {
        30
    } else {
        31
    }
}

/// A moment to the second, in the time zone that the chat service reports.
#[derive(Clone, Copy, Debug)]
pub struct Timestamp {
    pub year: u16,
    pub month: u8,
    pub day: u8,
    pub hour: u8,
    pub minute: u8,
    pub second: u8,
}

/// Whether the parts name a moment of a year that four digits can write.
pub open spec fn valid_parts(year: nat, month: nat, day: nat, hour: nat, minute: nat, second: nat) -> bool {
    &&& year <= 9999
    &&& 1 <= month <= 12
    &&& 1 <= day <= days_in_month(year, month)
    &&& hour < 24
    &&& minute < 60
    &&& second < 60
}

/// `year-month-day_hour-minute-second`, each part zero-padded, the year to four digits.
pub open spec fn stamp_text(t: Timestamp) -> Seq<char> {
    four_digits(t.year as nat) + "-"@ + two_digits(t.month as nat) + "-"@ + two_digits(t.day as nat) + "_"@
        + two_digits(t.hour as nat) + "-"@ + two_digits(t.minute as nat) + "-"@ + two_digits(
        t.second as nat,
    )
}

impl Timestamp {
    pub open spec fn wf(&self) -> bool {
        valid_parts(
            self.year as nat,
            self.month as nat,
            self.day as nat,
            self.hour as nat,
            self.minute as nat,
            self.second as nat,
        )
    }

    /// The moment with these parts, or `None` where they name none.
    pub fn new(year: u16, month: u8, day: u8, hour: u8, minute: u8, second: u8) -> (r: Option<
        Timestamp,
    >)
        ensures
            r is Some <==> valid_parts(
                year as nat,
                month as nat,
                day as nat,
                hour as nat,
                minute as nat,
                second as nat,
            ),
            r matches Some(t) ==> t.year == year && t.month == month && t.day == day && t.hour
                == hour && t.minute == minute && t.second == second,
    {
        if year > 9999 || month < 1 || month > 12 || hour >= 24 || minute >= 60 || second >= 60 {
            return None;
        }
        let leap = year % 4 == 0 && (year % 100 != 0 || year % 400 == 0);
        let last: u8 = if month == 2 {
            if leap {
                29
            } else {
                28
            }
        } else if month == 4 || month == 6 || month == 9 || month == 11 {
            30
        } else {
            31
        };
        if day < 1 || day > last {
            return None;
        }
        Some(Timestamp { year, month, day, hour, minute, second })
    }

    /// The text of this moment in a file name.
    pub fn format(&self) -> (r: String)
        requires
            self.wf(),
        ensures
            r@ == stamp_text(*self),
    {
        let mut r = String::new();
        push_four_digits(&mut r, self.year);
        r.append("-");
        push_two_digits(&mut r, self.month);
        r.append("-");
        push_two_digits(&mut r, self.day);
        r.append("_");
        push_two_digits(&mut r, self.hour);
        r.append("-");
        push_two_digits(&mut r, self.minute);
        r.append("-");
        push_two_digits(&mut r, self.second);
        assert(r@ =~= stamp_text(*self));
        r
    }
}

} // verus!
