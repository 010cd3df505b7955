//! Calendar readings as plain fields, and their rendering in the
//! `YYYY-MM-DD HH:MM:SS` form that the current-time query returns.

use vstd::prelude::*;
use vstd::string::*;
use crate::decimal::{
    is_dec_digit, pad4_string, spec_digit, spec_pad2, spec_pad4, two_digit_string,
};

verus! {

/// One reading of a calendar clock, broken into plain fields.
#[derive(Clone, Copy, PartialEq, Eq, Structural, Debug)]
pub struct TimeParts {
    pub year: i32,
    pub month: u32,
    pub day: u32,
    pub hour: u32,
    pub minute: u32,
    pub second: u32,
}

impl TimeParts {
    /// The field ranges every calendar reading satisfies: month 1 to 12,
    /// day 1 to 31, hour 0 to 23, minute and second 0 to 59.
    pub open spec fn valid(self) -> bool {
        &&& 1 <= self.month <= 12
        &&& 1 <= self.day <= 31
        &&& self.hour <= 23
        &&& self.minute <= 59
        &&& self.second <= 59
    }
}

/// The year field of a timestamp: at least four digits, zero-padded, with a
/// leading `-` for years before year zero.
pub open spec fn spec_year(y: int) -> Seq<char> {
    if y < 0 {
        seq!['-'] + spec_pad4(-y)
    } else {
        spec_pad4(y)
    }
}

/// A full `YYYY-MM-DD HH:MM:SS` timestamp as a character sequence.
pub open spec fn spec_timestamp(p: TimeParts) -> Seq<char> {
    spec_year(p.year as int) + seq!['-'] + spec_pad2(p.month as int) + seq!['-'] + spec_pad2(
        p.day as int,
    ) + seq![' '] + spec_pad2(p.hour as int) + seq![':'] + spec_pad2(p.minute as int) + seq![':']
        + spec_pad2(p.second as int)
}

/// The year field of a timestamp, rendered for any `i32` year.
pub fn year_string(y: i32) -> (r: String)
    ensures
        r@ == spec_year(y as int),
{
    if y < 0 {
        let mag64: i64 = -(y as i64);
        let mag: u32 = mag64 as u32;
        proof {
            reveal_strlit("-");
            assert("-"@ =~= seq!['-']);
        }
        let r = String::from_str("-").concat(pad4_string(mag).as_str());
        proof {
            assert(r@ =~= spec_year(y as int));
        }
        r
    } else {
        pad4_string(y as u32)
    }
}

/// Renders a calendar reading as `YYYY-MM-DD HH:MM:SS`.
pub fn format_time_parts(p: &TimeParts) -> (r: String)
    requires
        p.valid(),
    ensures
        r@ == spec_timestamp(*p),
{
    let mut r = year_string(p.year);
    r.append("-");
    let month = two_digit_string(p.month);
    r.append(month.as_str());
    r.append("-");
    let day = two_digit_string(p.day);
    r.append(day.as_str());
    r.append(" ");
    let hour = two_digit_string(p.hour);
    r.append(hour.as_str());
    r.append(":");
    let minute = two_digit_string(p.minute);
    r.append(minute.as_str());
    r.append(":");
    let second = two_digit_string(p.second);
    r.append(second.as_str());
    proof {
        reveal_strlit("-");
        reveal_strlit(" ");
        reveal_strlit(":");
        assert("-"@ =~= seq!['-']);
        assert(" "@ =~= seq![' ']);
        assert(":"@ =~= seq![':']);
        assert(r@ =~= spec_timestamp(*p));
    }
    r
}

/// For years 0 through 9999 the timestamp has the exact `YYYY-MM-DD HH:MM:SS`
/// shape: nineteen characters, with `-`, `-`, space, `:`, `:` at positions
/// 4, 7, 10, 13 and 16, and a decimal digit everywhere else.
pub proof fn lemma_timestamp_shape(p: TimeParts)
    requires
        p.valid(),
        0 <= p.year <= 9999,
    ensures
        spec_timestamp(p).len() == 19,
        spec_timestamp(p)[4] == '-',
        spec_timestamp(p)[7] == '-',
        spec_timestamp(p)[10] == ' ',
        spec_timestamp(p)[13] == ':',
        spec_timestamp(p)[16] == ':',
        forall|i: int|
            0 <= i < 19 && i != 4 && i != 7 && i != 10 && i != 13 && i != 16 ==> is_dec_digit(
                #[trigger] spec_timestamp(p)[i],
            ),
{
    let t = spec_timestamp(p);
    assert(spec_year(p.year as int) == spec_pad4(p.year as int));
    assert(spec_year(p.year as int).len() == 4);
    assert(t.len() == 19);
    assert forall|d: int| is_dec_digit(#[trigger] spec_digit(d)) by {}
    assert forall|i: int|
        0 <= i < 19 && i != 4 && i != 7 && i != 10 && i != 13 && i != 16 implies is_dec_digit(
        #[trigger] t[i],
    ) by {
        assert(is_dec_digit(t[0]));
        assert(is_dec_digit(t[1]));
        assert(is_dec_digit(t[2]));
        assert(is_dec_digit(t[3]));
        assert(is_dec_digit(t[5]));
        assert(is_dec_digit(t[6]));
        assert(is_dec_digit(t[8]));
        assert(is_dec_digit(t[9]));
        assert(is_dec_digit(t[11]));
        assert(is_dec_digit(t[12]));
        assert(is_dec_digit(t[14]));
        assert(is_dec_digit(t[15]));
        assert(is_dec_digit(t[17]));
        assert(is_dec_digit(t[18]));
    }
}

/// The current local time, formatted as `YYYY-MM-DD HH:MM:SS`: whatever the
/// clock read, the result renders some valid calendar reading.
pub fn get_system_time() -> (r: String)
    ensures
        exists|p: TimeParts| p.valid() && r@ == spec_timestamp(p),
{
    let c = crate::clock::read_clock();
    let r = format_time_parts(&c.parts);
    proof {
        assert(c.parts.valid() && r@ == spec_timestamp(c.parts));
    }
    r
}

} // verus!
