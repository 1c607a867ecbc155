use crate::calendar::{Date, Stamp};
use vstd::prelude::*;

verus! {

/// The decimal digit for `d` (0..=9).
pub open spec fn digit_char(d: int) -> char {
    if d == 0 {
        '0'
    } else if d == 1 {
        '1'
    } else if d == 2 {
        '2'
    } else if d == 3 {
        '3'
    } else if d == 4 {
        '4'
    } else if d == 5 {
        '5'
    } else if d == 6 {
        '6'
    } else if d == 7 {
        '7'
    } else if d == 8 {
        '8'
    } else {
        '9'
    }
}

/// `n` (0..=99) in two decimal digits, zero-padded.
pub open spec fn pad2(n: int) -> Seq<char> {
    seq![digit_char(n / 10), digit_char(n % 10)]
}

/// `n` (0..=9999) in four decimal digits, zero-padded.
pub open spec fn pad4(n: int) -> Seq<char> {
    seq![
        digit_char(n / 1000),
        digit_char((n / 100) % 10),
        digit_char((n / 10) % 10),
        digit_char(n % 10),
    ]
}

/// `YYYY-MM-DD`.
pub open spec fn ymd_text(y: int, m: int, d: int) -> Seq<char> {
    pad4(y) + "-"@ + pad2(m) + "-"@ + pad2(d)
}

/// Name of the short-cycle video that covers `date`: `daily-YYYY-MM-DD.mp4`.
pub open spec fn daily_video_name(date: Date) -> Seq<char> {
    "daily-"@ + ymd_text(date.year as int, date.month as int, date.day as int) + ".mp4"@
}

/// Name of the long-cycle video that covers the month of `date`: `longterm-YYYY-MM.mp4`.
pub open spec fn longterm_video_name(date: Date) -> Seq<char> {
    "longterm-"@ + pad4(date.year as int) + "-"@ + pad2(date.month as int) + ".mp4"@
}

/// Name of a short-cycle shot taken at `s`: `daily-YYYY-MM-DD_HHMM.jpg`.
pub open spec fn daily_shot_name(s: Stamp) -> Seq<char> {
    "daily-"@ + ymd_text(s.year as int, s.month as int, s.day as int) + "_"@ + pad2(s.hour as int)
        + pad2(s.minute as int) + ".jpg"@
}

/// Name of a long-cycle shot taken at `s`: `longterm-YYYY-MM-DD.jpg`.
pub open spec fn longterm_shot_name(s: Stamp) -> Seq<char> {
    "longterm-"@ + ymd_text(s.year as int, s.month as int, s.day as int) + ".jpg"@
}

pub open spec fn date_in_range(y: int, m: int, d: int) -> bool {
    0 <= y <= 9999 && 1 <= m <= 12 && 1 <= d <= 31
}

fn push_digit(s: &mut String, d: u32)
    requires
        d < 10,
    ensures
        final(s)@ == old(s)@.push(digit_char(d as int)),
{
    proof {
        reveal_strlit("0");
        reveal_strlit("1");
        reveal_strlit("2");
        reveal_strlit("3");
        reveal_strlit("4");
        reveal_strlit("5");
        reveal_strlit("6");
        reveal_strlit("7");
        reveal_strlit("8");
        reveal_strlit("9");
    }
    let ghost before = s@;
    if d == 0 {
        s.append("0");
    } else if d == 1 {
        s.append("1");
    } else if d == 2 {
        s.append("2");
    } else if d == 3 {
        s.append("3");
    } else if d == 4 {
        s.append("4");
    } else if d == 5 {
        s.append("5");
    } else if d == 6 {
        s.append("6");
    } else if d == 7 {
        s.append("7");
    } else if d == 8 {
        s.append("8");
    } else {
        s.append("9");
    }
    assert(s@ =~= before.push(digit_char(d as int)));
}

fn push_pad2(s: &mut String, n: u32)
    requires
        n < 100,
    ensures
        final(s)@ == old(s)@ + pad2(n as int),
{
    let ghost before = s@;
    push_digit(s, n / 10);
    push_digit(s, n % 10);
    assert(s@ =~= before + pad2(n as int));
}

fn push_pad4(s: &mut String, n: u32)
    requires
        n < 10000,
    ensures
        final(s)@ == old(s)@ + pad4(n as int),
{
    let ghost before = s@;
    push_digit(s, n / 1000);
    push_digit(s, (n / 100) % 10);
    push_digit(s, (n / 10) % 10);
    push_digit(s, n % 10);
    assert(s@ =~= before + pad4(n as int));
}

fn push_ymd(s: &mut String, y: i32, m: u32, d: u32)
    requires
        date_in_range(y as int, m as int, d as int),
    ensures
        final(s)@ == old(s)@ + ymd_text(y as int, m as int, d as int),
{
    let ghost before = s@;
    push_pad4(s, y as u32);
    s.append("-");
    push_pad2(s, m);
    s.append("-");
    push_pad2(s, d);
    assert(s@ =~= before + ymd_text(y as int, m as int, d as int));
}

/// Name of the short-cycle video that covers `date`.
pub fn daily_video_filename(date: &Date) -> (r: String)
    requires
        date_in_range(date.year as int, date.month as int, date.day as int),
    ensures
        r@ == daily_video_name(*date),
{
    let mut s = String::from_str("daily-");
    push_ymd(&mut s, date.year, date.month, date.day);
    s.append(".mp4");
    s
}

/// Name of the long-cycle video that covers the month of `date`.
pub fn longterm_video_filename(date: &Date) -> (r: String)
    requires
        date_in_range(date.year as int, date.month as int, date.day as int),
    ensures
        r@ == longterm_video_name(*date),
{
    let mut s = String::from_str("longterm-");
    push_pad4(&mut s, date.year as u32);
    s.append("-");
    push_pad2(&mut s, date.month);
    s.append(".mp4");
    s
}

/// Name of a short-cycle shot taken at `stamp`.
pub fn daily_shot_filename(stamp: &Stamp) -> (r: String)
    requires
        stamp.wf(),
    ensures
        r@ == daily_shot_name(*stamp),
{
    let mut s = String::from_str("daily-");
    push_ymd(&mut s, stamp.year, stamp.month, stamp.day);
    s.append("_");
    push_pad2(&mut s, stamp.hour);
    push_pad2(&mut s, stamp.minute);
    s.append(".jpg");
    s
}

/// Name of a long-cycle shot taken at `stamp`.
pub fn longterm_shot_filename(stamp: &Stamp) -> (r: String)
    requires
        stamp.wf(),
    ensures
        r@ == longterm_shot_name(*stamp),
{
    let mut s = String::from_str("longterm-");
    push_ymd(&mut s, stamp.year, stamp.month, stamp.day);
    s.append(".jpg");
    s
}

} // verus!
