//! Where a picture goes: the destination path built from its timestamp and
//! a template with the placeholders `[YEAR]`, `[MONTH]` and `[DAY]`.
use crate::date_time::SortedDayTime;
use crate::paths::{join, join_spec};
use vstd::prelude::*;

verus! {

pub open spec fn digit_char(d: nat) -> char {
    if d == 0 { '0' } else if d == 1 { '1' } else if d == 2 { '2' } else if d == 3 { '3' }
    else if d == 4 { '4' } else if d == 5 { '5' } else if d == 6 { '6' } else if d == 7 { '7' }
    else if d == 8 { '8' } else { '9' }
}

/// The decimal digits of `n`, without leading zeros.
pub open spec fn decimal(n: nat) -> Seq<char>
    decreases n,
{
    if n < 10 {
        seq![digit_char(n)]
    } else {
        decimal(n / 10).push(digit_char(n % 10))
    }
}

/// The decimal digits of `n`, with zeros in front up to `width` characters.
pub open spec fn zero_padded_spec(n: nat, width: nat) -> Seq<char> {
    let digits = decimal(n);
    if digits.len() < width {
        Seq::new((width - digits.len()) as nat, |i: int| '0') + digits
    } else {
        digits
    }
}

/// `s` with each occurrence of `pat` replaced by `rep`, occurrences found
/// from the left and not overlapping.
pub open spec fn replace_spec(s: Seq<char>, pat: Seq<char>, rep: Seq<char>) -> Seq<char>
    recommends
        pat.len() > 0,
    decreases s.len(),
{
    if pat.len() == 0 || s.len() < pat.len() {
        s
    } else if s.subrange(0, pat.len() as int) == pat {
        rep + replace_spec(s.subrange(pat.len() as int, s.len() as int), pat, rep)
    } else {
        seq![s[0]] + replace_spec(s.subrange(1, s.len() as int), pat, rep)
    }
}

/// Relies on the `{:0w}` format of an unsigned integer: its decimal digits,
/// zero padded in front to the width. A width given at run time must stay
/// within `u16::MAX`; the widths used here are small.
#[verifier::external_body]
fn zero_padded(n: u16, width: usize) -> (r: String)
    requires
        width <= 4,
    ensures
        r@ == zero_padded_spec(n as nat, width as nat),
{
    format!("{:0w$}", n, w = width)
}

/// Relies on str::replace with a non-empty text pattern: every match, found
/// from the left without overlap, replaced.
#[verifier::external_body]
fn replace_text(s: &str, pat: &str, rep: &str) -> (r: String)
    requires
        pat@.len() > 0,
    ensures
        r@ == replace_spec(s@, pat@, rep@),
{
    s.replace(pat, rep)
}

/// The template with the year (4 digits), month and day (2 digits each)
/// put in for the placeholders; other text passes through unchanged.
pub open spec fn substituted(format: Seq<char>, date: SortedDayTime) -> Seq<char> {
    let y = replace_spec(format, "[YEAR]"@, zero_padded_spec(date.year as nat, 4));
    let m = replace_spec(y, "[MONTH]"@, zero_padded_spec(date.month as nat, 2));
    replace_spec(m, "[DAY]"@, zero_padded_spec(date.day as nat, 2))
}

/// The destination of a file: the substituted template followed by the
/// file name, joined onto the destination root.
pub open spec fn destination_spec(
    format: Seq<char>,
    dest: Seq<char>,
    date: SortedDayTime,
    file_name: Seq<char>,
) -> Seq<char> {
    join_spec(dest, substituted(format, date) + file_name)
}

/// Builds the destination path of a file named `file_name` with timestamp
/// `date` under the root `dest`, after the template `format`.
pub fn create_sub_path(format: &str, dest: &str, date: &SortedDayTime, file_name: &str) -> (r:
    String)
    ensures
        r@ == destination_spec(format@, dest@, *date, file_name@),
{
    proof {
        reveal_strlit("[YEAR]");
        reveal_strlit("[MONTH]");
        reveal_strlit("[DAY]");
    }
    let year = zero_padded(date.year, 4);
    let month = zero_padded(date.month as u16, 2);
    let day = zero_padded(date.day as u16, 2);
    let y = replace_text(format, "[YEAR]", year.as_str());
    let m = replace_text(y.as_str(), "[MONTH]", month.as_str());
    let mut relative = replace_text(m.as_str(), "[DAY]", day.as_str());
    relative.append(file_name);
    join(dest, relative.as_str())
}

/// The destination depends on the calendar day of the timestamp alone, so
/// building it twice from one timestamp and template, or from two
/// timestamps of one day, gives the same path.
pub proof fn lemma_destination_depends_on_day(
    format: Seq<char>,
    dest: Seq<char>,
    a: SortedDayTime,
    b: SortedDayTime,
    file_name: Seq<char>,
)
    requires
        a.year == b.year,
        a.month == b.month,
        a.day == b.day,
    ensures
        destination_spec(format, dest, a, file_name) == destination_spec(
            format,
            dest,
            b,
            file_name,
        ),
{
}

} // verus!
