//! The local date, read from the system clock through `chrono`, and the
//! decisions that depend on it.

use vstd::prelude::*;

use chrono::{Datelike, Local};

use crate::models::Category;
use crate::months::{averaging_day_count, averaging_days, month_key, month_key_text, month_name_readable, readable_month_name, selected_month, zero_padded};
use crate::pages::add_record_page;
use crate::templates::AddRecordTemplate;
use crate::text::same_text;

verus! {

/// A calendar date.
pub struct LocalDate {
    pub year: i32,
    pub month: u32,
    pub day: u32,
}

/// Today's date in the local time zone, read once with `Local::now().naive_local()`:
/// its `year()`, `month()` and `day()`, and its text by `format("%Y-%m-%d")`.
/// Claimed of every outcome, as `chrono` documents: the month is 1 to 12, the
/// day 1 to 31, and for the years 0 to 9999 the text is the year zero-padded to
/// four digits, `-`, the month and the day zero-padded to two digits.
#[verifier::external_body]
fn local_today() -> (r: (LocalDate, String))
    ensures
        1 <= r.0.month <= 12,
        1 <= r.0.day <= 31,
        0 <= r.0.year <= 9999 ==> r.1@ == date_text(r.0.year as int, r.0.month as nat, r.0.day as nat),
{
    let now = Local::now().naive_local();
    let text = now.format("%Y-%m-%d").to_string();
    (LocalDate { year: now.year(), month: now.month(), day: now.day() }, text)
}

/// `text` is the date of day `d` of month `m` of year `y` as written on the
/// add-record form: a valid month and day, and for the years 0 to 9999 the
/// text `YYYY-MM-DD`.
pub open spec fn dated(text: Seq<char>, y: int, m: nat, d: nat) -> bool {
    1 <= m <= 12 && 1 <= d <= 31 && (0 <= y <= 9999 ==> text == date_text(y, m, d))
}

/// A date written `YYYY-MM-DD`.
pub open spec fn date_text(year: int, month: nat, day: nat) -> Seq<char> {
    month_key_text(year, month) + seq!['-'] + zero_padded(day, 2)
}

/// The month the dashboard shows: the one asked for, or else the current one.
pub fn dashboard_month(requested: Option<String>) -> (s: String)
    ensures
        requested matches Some(m) ==> s@ == m@,
        requested is None ==> exists|y: int, m: nat| 1 <= m <= 12 && s@ == month_key_text(y, m),
{
    let (today, _) = local_today();
    selected_month(requested, today.year, today.month)
}

/// The days over which the expenses of `selected` are averaged, for today's
/// date; `None` when `selected` is not the current month and no year and
/// month part can be read from it.
pub fn averaging_days_today(selected: &str) -> (r: Option<u32>)
    ensures
        r matches Some(d) ==> exists|y: int, m: nat, day: nat|
            1 <= m <= 12 && 1 <= day <= 31 && d == averaging_days(selected@, y, m, day),
        r is None ==> !month_name_readable(selected@),
{
    let (today, _) = local_today();
    let current = month_key(today.year, today.month);
    if !same_text(selected, current.as_str()) && !readable_month_name(selected) {
        return None;
    }
    Some(averaging_day_count(selected, today.year, today.month, today.day))
}

/// The form for a new transaction, dated today.
pub fn add_record_page_today(categories: Vec<Category>) -> (t: AddRecordTemplate)
    ensures
        t.logged_in,
        t.categories == categories,
        exists|y: int, m: nat, d: nat| #[trigger] dated(t.today@, y, m, d),
{
    let (today, text) = local_today();
    let t = add_record_page(categories, text);
    assert(dated(t.today@, today.year as int, today.month as nat, today.day as nat));
    t
}

} // verus!
