//! Calendar timestamps read from picture metadata, and their order.
use std::cmp::Ordering;
use vstd::prelude::*;

verus! {

#[verifier::external_type_specification]
pub struct ExDateTime(exif::DateTime);

#[verifier::external_type_specification]
#[verifier::external_body]
pub struct ExError(exif::Error);

/// An ASCII decimal digit.
pub open spec fn is_digit(b: u8) -> bool {
    48 <= b <= 57
}

pub open spec fn digit_value(b: u8) -> int {
    b - 48
}

/// The number written by the two digits at `i` and `i + 1`.
pub open spec fn two_digits(s: Seq<u8>, i: int) -> int {
    10 * digit_value(s[i]) + digit_value(s[i + 1])
}

/// The number written by the four digits from `i` on.
pub open spec fn four_digits(s: Seq<u8>, i: int) -> int {
    100 * two_digits(s, i) + two_digits(s, i + 2)
}

/// The positions of `YYYY:MM:DD HH:MM:SS` that hold a separator.
pub open spec fn is_separator_position(i: int) -> bool {
    i == 4 || i == 7 || i == 10 || i == 13 || i == 16
}

/// Text in the metadata date format `YYYY:MM:DD HH:MM:SS`, possibly followed
/// by more bytes.
pub open spec fn is_date_text(s: Seq<u8>) -> bool {
    &&& s.len() >= 19
    &&& s[4] == 58u8 && s[7] == 58u8 && s[10] == 32u8 && s[13] == 58u8 && s[16] == 58u8
    &&& forall|i: int| 0 <= i < 19 && !is_separator_position(i) ==> is_digit(#[trigger] s[i])
}

/// Relies on exif::DateTime::from_ascii: it accepts exactly the texts of the
/// form `YYYY:MM:DD HH:MM:SS` (blank texts have spaces where digits belong),
/// reads each number in decimal without checking its range, and sets neither
/// sub-second nor offset.
pub assume_specification[ exif::DateTime::from_ascii ](data: &[u8]) -> (r: Result<
    exif::DateTime,
    exif::Error,
>)
    ensures
        r is Ok <==> is_date_text(data@),
        r matches Ok(d) ==> {
            &&& d.year == four_digits(data@, 0)
            &&& d.month == two_digits(data@, 5)
            &&& d.day == two_digits(data@, 8)
            &&& d.hour == two_digits(data@, 11)
            &&& d.minute == two_digits(data@, 14)
            &&& d.second == two_digits(data@, 17)
            &&& d.nanosecond is None
            &&& d.offset is None
        },
;

/// A timestamp as read from one metadata field, not yet range checked.
///
/// Two timestamps are compared by year, month, day, hour, minute and second
/// only: the sub-second part and the time zone offset are carried along but
/// take no part in `==` or in the order, so one instant written in two
/// offsets may compare unequal, and two different offsets may compare equal.
#[derive(Debug, Clone, Copy)]
pub struct SortedDayTime {
    pub year: u16,
    pub month: u8,
    pub day: u8,
    pub hour: u8,
    pub minute: u8,
    pub second: u8,
    pub nanosecond: Option<u32>,
    pub offset: Option<i16>,
}

impl SortedDayTime {
    /// The month lies in 1..=12, the day in 1..=31 and the year is positive.
    pub open spec fn is_valid(&self) -> bool {
        &&& self.year > 0
        &&& 1 <= self.month <= 12
        &&& 1 <= self.day <= 31
    }

    /// The six compared fields agree.
    pub open spec fn same_time(&self, other: &Self) -> bool {
        &&& self.year == other.year
        &&& self.month == other.month
        &&& self.day == other.day
        &&& self.hour == other.hour
        &&& self.minute == other.minute
        &&& self.second == other.second
    }

    /// `self` comes strictly before `other` in the lexicographic order of
    /// (year, month, day, hour, minute, second).
    pub open spec fn earlier(&self, other: &Self) -> bool {
        ||| self.year < other.year
        ||| self.year == other.year && self.month < other.month
        ||| self.year == other.year && self.month == other.month && self.day < other.day
        ||| self.year == other.year && self.month == other.month && self.day == other.day
            && self.hour < other.hour
        ||| self.year == other.year && self.month == other.month && self.day == other.day
            && self.hour == other.hour && self.minute < other.minute
        ||| self.year == other.year && self.month == other.month && self.day == other.day
            && self.hour == other.hour && self.minute == other.minute && self.second
            < other.second
    }

    pub open spec fn order(&self, other: &Self) -> Ordering {
        if self.earlier(other) {
            Ordering::Less
        } else if other.earlier(self) {
            Ordering::Greater
        } else {
            Ordering::Equal
        }
    }

    pub open spec fn from_exif(dt: exif::DateTime) -> Self {
        SortedDayTime {
            year: dt.year,
            month: dt.month,
            day: dt.day,
            hour: dt.hour,
            minute: dt.minute,
            second: dt.second,
            nanosecond: dt.nanosecond,
            offset: dt.offset,
        }
    }

    pub fn new(dt: exif::DateTime) -> (r: Self)
        ensures
            r == Self::from_exif(dt),
    {
        SortedDayTime {
            year: dt.year,
            month: dt.month,
            day: dt.day,
            hour: dt.hour,
            minute: dt.minute,
            second: dt.second,
            nanosecond: dt.nanosecond,
            offset: dt.offset,
        }
    }

    /// Whether the timestamp passes the range check.
    pub fn is_valid_date(&self) -> (r: bool)
        ensures
            r == self.is_valid(),
    {
        self.year > 0 && self.day > 0 && self.month > 0 && self.day < 32 && self.month < 13
    }

    /// Whether `self` comes strictly before `other`.
    pub fn is_earlier_than(&self, other: &Self) -> (r: bool)
        ensures
            r == self.earlier(other),
    {
        if self.year != other.year {
            return self.year < other.year;
        }
        if self.month != other.month {
            return self.month < other.month;
        }
        if self.day != other.day {
            return self.day < other.day;
        }
        if self.hour != other.hour {
            return self.hour < other.hour;
        }
        if self.minute != other.minute {
            return self.minute < other.minute;
        }
        self.second < other.second
    }
}

/// Strict precedence is irreflexive and transitive, and of two timestamps
/// exactly one precedes the other unless they agree on all compared fields.
pub proof fn lemma_earlier_total_order(a: SortedDayTime, b: SortedDayTime, c: SortedDayTime)
    ensures
        !a.earlier(&a),
        a.earlier(&b) ==> !b.earlier(&a),
        a.earlier(&b) && b.earlier(&c) ==> a.earlier(&c),
        a.earlier(&b) || b.earlier(&a) || a.same_time(&b),
        a.same_time(&b) ==> !a.earlier(&b) && !b.earlier(&a),
{
}

impl SortedDayTime {
    pub proof fn lemma_irreflexive(a: SortedDayTime)
        ensures
            !a.earlier(&a),
    {
    }

    /// If `a` precedes `b` and `c` does not precede `b`, `a` precedes `c`.
    pub proof fn lemma_earlier_then_not_later(a: SortedDayTime, b: SortedDayTime, c: SortedDayTime)
        ensures
            a.earlier(&b) && !c.earlier(&b) ==> a.earlier(&c),
    {
    }

    /// If `a` does not follow `b` and `b` precedes `c`, `a` precedes `c`.
    pub proof fn lemma_not_later_earlier(a: SortedDayTime, b: SortedDayTime, c: SortedDayTime)
        ensures
            !b.earlier(&a) && b.earlier(&c) ==> a.earlier(&c),
    {
    }
}

impl From<exif::DateTime> for SortedDayTime {
    fn from(value: exif::DateTime) -> (r: Self) {
        SortedDayTime::new(value)
    }
}

impl vstd::std_specs::convert::FromSpecImpl<exif::DateTime> for SortedDayTime {
    open spec fn obeys_from_spec() -> bool {
        true
    }

    open spec fn from_spec(v: exif::DateTime) -> Self {
        SortedDayTime::from_exif(v)
    }
}

impl PartialEq for SortedDayTime {
    fn eq(&self, other: &SortedDayTime) -> (r: bool) {
        self.year == other.year && self.month == other.month && self.day == other.day
            && self.hour == other.hour && self.minute == other.minute && self.second
            == other.second
    }
}

impl vstd::std_specs::cmp::PartialEqSpecImpl for SortedDayTime {
    open spec fn obeys_eq_spec() -> bool {
        true
    }

    open spec fn eq_spec(&self, other: &SortedDayTime) -> bool {
        self.same_time(other)
    }
}

impl PartialOrd for SortedDayTime {
    fn partial_cmp(&self, other: &SortedDayTime) -> (r: Option<Ordering>) {
        if self.is_earlier_than(other) {
            Some(Ordering::Less)
        } else if other.is_earlier_than(self) {
            Some(Ordering::Greater)
        } else {
            Some(Ordering::Equal)
        }
    }
}

impl vstd::std_specs::cmp::PartialOrdSpecImpl for SortedDayTime {
    open spec fn obeys_partial_cmp_spec() -> bool {
        true
    }

    open spec fn partial_cmp_spec(&self, other: &SortedDayTime) -> Option<Ordering> {
        Some(self.order(other))
    }
}

} // verus!
