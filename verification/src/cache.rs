//! The daily cache: one saved picture per day, fetched anew when it is from another day.

use crate::config::Config;
use crate::picture_io::{first_step_of, start_fetch, Step, StepView};
use vstd::prelude::*;
use vstd::string::*;

verus! {

/// The number of seconds in a day.
pub const SECONDS_PER_DAY: i64 = 86_400;

/// The day, counted from 1 January 1970, on which the moment `seconds` after that
/// date's midnight falls in universal time.
pub open spec fn utc_day_of(seconds: int) -> int {
    seconds / 86_400
}

/// The day in universal time of a moment given in seconds since 1 January 1970.
pub fn utc_day(seconds: i64) -> (day: i64)
    ensures
        day == utc_day_of(seconds as int),
{
    if seconds >= 0 {
        seconds / SECONDS_PER_DAY
    } else {
        let back: i64 = -(seconds + 1);
        -(back / SECONDS_PER_DAY) - 1
    }
}

/// A saved picture is fresh if it was created on the day that `now` falls on, in
/// universal time.
pub fn is_fresh(created_at: i64, now: i64) -> (fresh: bool)
    ensures
        fresh == (utc_day_of(created_at as int) == utc_day_of(now as int)),
{
    utc_day(created_at) == utc_day(now)
}

/// The text of one decimal digit.
pub open spec fn digit_text(digit: int) -> Seq<char> {
    if digit == 0 {
        "0"@
    } else if digit == 1 {
        "1"@
    } else if digit == 2 {
        "2"@
    } else if digit == 3 {
        "3"@
    } else if digit == 4 {
        "4"@
    } else if digit == 5 {
        "5"@
    } else if digit == 6 {
        "6"@
    } else if digit == 7 {
        "7"@
    } else if digit == 8 {
        "8"@
    } else {
        "9"@
    }
}

/// The last two decimal digits of `number`.
pub open spec fn two_digits(number: int) -> Seq<char> {
    digit_text(number / 10 % 10) + digit_text(number % 10)
}

/// The name of the file that holds the picture of a day: day, month and the year
/// within its century, two digits each and joined by hyphens, with the extension
/// `.jpg`.
pub open spec fn image_name_text(day: int, month: int, year: int) -> Seq<char> {
    two_digits(day) + "-"@ + two_digits(month) + "-"@ + two_digits(year % 100) + ".jpg"@
}

/// The text of the decimal digit `value`.
fn digit(value: u8) -> (text: &'static str)
    requires
        value < 10,
    ensures
        text@ == digit_text(value as int),
{
    match value {
        0 => "0",
        1 => "1",
        2 => "2",
        3 => "3",
        4 => "4",
        5 => "5",
        6 => "6",
        7 => "7",
        8 => "8",
        _ => "9",
    }
}

/// Appends the last two decimal digits of `number` to `text`.
fn push_two_digits(text: &mut String, number: u8)
    ensures
        final(text)@ == old(text)@ + two_digits(number as int),
{
    text.append(digit(number / 10 % 10));
    text.append(digit(number % 10));
    assert(text@ =~= old(text)@ + two_digits(number as int));
}

/// The year within its century: the year modulo 100.
fn year_in_century(year: i32) -> (short: u8)
    ensures
        short == year % 100,
{
    if year >= 0 {
        (year % 100) as u8
    } else {
        let back: i32 = -(year + 1);
        proof {
            vstd::arithmetic::div_mod::lemma_fundamental_div_mod(back as int, 100);
            vstd::arithmetic::div_mod::lemma_fundamental_div_mod_converse(
                year as int,
                100,
                -(back as int / 100) - 1,
                99 - back as int % 100,
            );
        }
        (99 - back % 100) as u8
    }
}

/// The name of the file that holds the picture of the given day.
pub fn get_image_name(day: u8, month: u8, year: i32) -> (name: String)
    ensures
        name@ == image_name_text(day as int, month as int, year as int),
{
    let mut name = String::new();
    push_two_digits(&mut name, day);
    name.append("-");
    push_two_digits(&mut name, month);
    name.append("-");
    push_two_digits(&mut name, year_in_century(year));
    name.append(".jpg");
    assert(name@ =~= image_name_text(day as int, month as int, year as int));
    name
}

/// What to do about today's picture.
#[derive(Debug)]
pub enum CachePlan {
    /// The saved file is fresh: use it.
    Reuse { file_name: String },
    /// There is no saved file, or it is from another day: fetch the picture, starting
    /// with `first`, and save it under `file_name`.
    Fetch { file_name: String, first: Step },
}

/// The mathematical model of a `CachePlan`.
pub enum CachePlanView {
    Reuse { file_name: Seq<char> },
    Fetch { file_name: Seq<char>, first: StepView },
}

impl View for CachePlan {
    type V = CachePlanView;

    open spec fn view(&self) -> CachePlanView {
        match *self {
            CachePlan::Reuse { file_name } => CachePlanView::Reuse { file_name: file_name@ },
            CachePlan::Fetch { file_name, first } => CachePlanView::Fetch { file_name: file_name@, first: first@ },
        }
    }
}

/// Whether a file created at `created_at`, if there is one, is from the day of `now`.
pub open spec fn has_fresh_copy(created_at: Option<i64>, now: i64) -> bool {
    created_at is Some && utc_day_of(created_at->0 as int) == utc_day_of(now as int)
}

/// Decides between the saved picture and a new one. `created_at` is the moment at
/// which the saved file was created, if there is such a file, and `now` the current
/// moment, both in seconds since 1 January 1970.
pub fn fetch_image(config: &Config, created_at: Option<i64>, now: i64) -> (plan: CachePlan)
    ensures
        plan@ == if has_fresh_copy(created_at, now) {
            CachePlanView::Reuse { file_name: config.picture_file_name_text() }
        } else {
            CachePlanView::Fetch { file_name: config.picture_file_name_text(), first: first_step_of(*config) }
        },
{
    let file_name = config.get_picture_file_name();
    let fresh = match created_at {
        Some(moment) => is_fresh(moment, now),
        None => false,
    };
    if fresh {
        CachePlan::Reuse { file_name }
    } else {
        CachePlan::Fetch { file_name, first: start_fetch(config) }
    }
}

} // verus!
