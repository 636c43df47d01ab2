//! Timestamped output file naming: `screenshot_DDMMYYYY_HHMMSS.<ext>`,
//! generated fresh from the wall clock for every capture.

use vstd::prelude::*;
use crate::options::{ImageFormat, spec_extension, spec_format_of, extension, format_of};

verus! {

/// A local calendar timestamp, one field per filename component.
#[derive(Clone, Copy, Debug, PartialEq, Eq, Structural)]
pub struct Timestamp {
    pub year: i32,
    pub month: u8,
    pub day: u8,
    pub hour: u8,
    pub minute: u8,
    pub second: u8,
}

impl Timestamp {
    /// Field ranges of a calendar timestamp as the clock reports them.
    pub open spec fn wf(self) -> bool {
        &&& -9999 <= self.year <= 9999
        &&& 1 <= self.month <= 12
        &&& 1 <= self.day <= 31
        &&& self.hour < 24
        &&& self.minute < 60
        &&& self.second < 60
    }
}

/// Relies on `time::OffsetDateTime::now_local` (falling back to `now_utc`
/// when the local offset is indeterminate) and its calendar accessors:
/// `day` is 1..=31, `month` as a number is 1..=12, `hour` is below 24,
/// `minute` and `second` are below 60, and `year` lies within +/-9999 in
/// the crate's default configuration.
#[verifier::external_body]
pub fn now_timestamp() -> (ts: Timestamp)
    ensures
        ts.wf(),
{
    let t = time::OffsetDateTime::now_local().unwrap_or_else(|_| time::OffsetDateTime::now_utc());
    Timestamp {
        year: t.year(),
        month: t.month() as u8,
        day: t.day(),
        hour: t.hour(),
        minute: t.minute(),
        second: t.second(),
    }
}

pub open spec fn spec_digit(n: int) -> char {
    if n == 0 {
        '0'
    } else if n == 1 {
        '1'
    } else if n == 2 {
        '2'
    } else if n == 3 {
        '3'
    } else if n == 4 {
        '4'
    } else if n == 5 {
        '5'
    } else if n == 6 {
        '6'
    } else if n == 7 {
        '7'
    } else if n == 8 {
        '8'
    } else {
        '9'
    }
}

/// A number below 100, zero-padded to two decimal digits.
pub open spec fn spec_two_digits(n: int) -> Seq<char> {
    seq![spec_digit(n / 10), spec_digit(n % 10)]
}

/// A number below 10000, zero-padded to four decimal digits.
pub open spec fn spec_four_digits(n: int) -> Seq<char> {
    seq![
        spec_digit(n / 1000),
        spec_digit((n / 100) % 10),
        spec_digit((n / 10) % 10),
        spec_digit(n % 10),
    ]
}

/// A year rendered at minimum width four: non-negative years are
/// zero-padded to four digits; negative years keep their sign, the width
/// counting the sign character.
pub open spec fn spec_year_digits(y: int) -> Seq<char> {
    if y >= 0 {
        spec_four_digits(y)
    } else if y <= -1000 {
        seq!['-'] + spec_four_digits(-y)
    } else {
        seq!['-'] + spec_four_digits(-y).skip(1)
    }
}

/// The full output file name for a timestamp and format:
/// `screenshot_DDMMYYYY_HHMMSS.<ext>`.
pub open spec fn spec_file_name(ts: Timestamp, f: ImageFormat) -> Seq<char> {
    "screenshot_"@ + spec_two_digits(ts.day as int) + spec_two_digits(ts.month as int)
        + spec_year_digits(ts.year as int) + "_"@ + spec_two_digits(ts.hour as int)
        + spec_two_digits(ts.minute as int) + spec_two_digits(ts.second as int) + "."@
        + spec_extension(f)
}

fn digit_char(n: u8) -> (c: char)
    requires
        n < 10,
    ensures
        c == spec_digit(n as int),
{
    match n {
        0 => '0',
        1 => '1',
        2 => '2',
        3 => '3',
        4 => '4',
        5 => '5',
        6 => '6',
        7 => '7',
        8 => '8',
        _ => '9',
    }
}

fn push_two_digits(v: &mut Vec<char>, n: u8)
    requires
        n < 100,
    ensures
        final(v)@ == old(v)@ + spec_two_digits(n as int),
{
    v.push(digit_char(n / 10));
    v.push(digit_char(n % 10));
    assert(v@ =~= old(v)@ + spec_two_digits(n as int));
}

fn push_four_digits(v: &mut Vec<char>, n: u16)
    requires
        n < 10000,
    ensures
        final(v)@ == old(v)@ + spec_four_digits(n as int),
{
    v.push(digit_char((n / 1000) as u8));
    v.push(digit_char(((n / 100) % 10) as u8));
    v.push(digit_char(((n / 10) % 10) as u8));
    v.push(digit_char((n % 10) as u8));
    assert(v@ =~= old(v)@ + spec_four_digits(n as int));
}

fn push_year(v: &mut Vec<char>, y: i32)
    requires
        -9999 <= y <= 9999,
    ensures
        final(v)@ == old(v)@ + spec_year_digits(y as int),
{
    if y >= 0 {
        push_four_digits(v, y as u16);
    } else {
        v.push('-');
        let n: u16 = (-y) as u16;
        if y <= -1000 {
            push_four_digits(v, n);
            assert(v@ =~= old(v)@ + spec_year_digits(y as int));
        } else {
            v.push(digit_char(((n / 100) % 10) as u8));
            v.push(digit_char(((n / 10) % 10) as u8));
            v.push(digit_char((n % 10) as u8));
            assert(n / 1000 == 0);
            assert(spec_four_digits(n as int).skip(1) =~= seq![
                spec_digit((n as int / 100) % 10),
                spec_digit((n as int / 10) % 10),
                spec_digit(n as int % 10),
            ]);
            assert(v@ =~= old(v)@ + spec_year_digits(y as int));
        }
    }
}

/// The timestamped file name for given clock fields and format.
pub fn file_name_for(ts: &Timestamp, f: ImageFormat) -> (r: String)
    requires
        ts.wf(),
    ensures
        r@ == spec_file_name(*ts, f),
{
    let mut v: Vec<char> = Vec::new();
    v.push('s');
    v.push('c');
    v.push('r');
    v.push('e');
    v.push('e');
    v.push('n');
    v.push('s');
    v.push('h');
    v.push('o');
    v.push('t');
    v.push('_');
    proof {
        reveal_strlit("screenshot_");
        assert(v@ =~= "screenshot_"@);
    }
    push_two_digits(&mut v, ts.day);
    push_two_digits(&mut v, ts.month);
    push_year(&mut v, ts.year);
    v.push('_');
    proof {
        reveal_strlit("_");
        assert(v@.subrange(v@.len() - 1, v@.len() as int) =~= "_"@);
    }
    push_two_digits(&mut v, ts.hour);
    push_two_digits(&mut v, ts.minute);
    push_two_digits(&mut v, ts.second);
    v.push('.');
    proof {
        reveal_strlit(".");
        assert(v@.subrange(v@.len() - 1, v@.len() as int) =~= "."@);
    }
    let base = crate::chars_to_string(&v);
    let ext = extension(f);
    let r = base.concat(ext.as_str());
    proof {
        reveal_strlit("_");
        reveal_strlit(".");
        assert(r@ =~= spec_file_name(*ts, f));
    }
    r
}

/// A fresh timestamped file name from the current local time, for the
/// format named by `fmt`.
pub fn file_name(fmt: &str) -> (r: String)
    ensures
        exists|ts: Timestamp| ts.wf() && r@ == spec_file_name(ts, spec_format_of(fmt@)),
{
    let ts = now_timestamp();
    let f = format_of(fmt);
    let r = file_name_for(&ts, f);
    proof {
        assert(ts.wf() && r@ == spec_file_name(ts, spec_format_of(fmt@)));
    }
    r
}

} // verus!
