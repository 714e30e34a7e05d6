//! The nth-weekday-of-month computation used by the "happy Monday" rules.

use vstd::prelude::*;

use crate::date::{
    days_in_month, month_len, weekday_index, Date, Weekday,
};

verus! {

/// The day of month on which weekday `t` (days-since-Sunday index) first
/// occurs in month `m` of year `y`; always a day 1 through 7.
pub open spec fn first_weekday_day(y: int, m: int, t: int) -> int {
    1 + (t + 7 - weekday_index(Date { year: y as i32, month: m as u32, day: 1 })) % 7
}

/// The day of month of the `n`-th occurrence of weekday `t` in month `m` of
/// year `y`; the occurrence exists exactly when this is at most the month's
/// day count.
pub open spec fn nth_weekday_day(y: int, m: int, n: int, t: int) -> int {
    first_weekday_day(y, m, t) + 7 * (n - 1)
}

/// The date of the `week`-th `week_day` of the month that `date` lies in:
/// the month's days that fall on `week_day` form one column of the month's
/// week grid, and the `week`-th entry of that column is returned.  When the
/// month has fewer than `week` such days the request is out of range and an
/// error is returned.
pub fn week_day(date: &Date, week: u8, target: Weekday) -> (r: Result<Date, &'static str>)
    requires
        date.wf(),
        week >= 1,
    ensures
        ({
            let y = date.year as int;
            let m = date.month as int;
            let nth = nth_weekday_day(y, m, week as int, target.spec_num_days_from_sunday());
            &&& (r matches Ok(d) <==> nth <= month_len(y, m))
            &&& (r matches Ok(d) ==> d == (Date { year: date.year, month: date.month, day: nth as u32 }))
            &&& (r matches Err(e) ==> e@ == "Error: week"@)
        }),
{
    let first_of_month = Date::from_ymd(date.year, date.month, 1);
    let w1: u32 = first_of_month.weekday().num_days_from_sunday();
    let t: u32 = target.num_days_from_sunday();
    let first: u32 = 1 + (t + 7 - w1) % 7;
    let nth: u32 = first + 7 * ((week as u32) - 1);
    let dim: u32 = days_in_month(date.year, date.month);
    if nth <= dim {
        Ok(Date { year: date.year, month: date.month, day: nth })
    } else {
        Err("Error: week")
    }
}

/// Every month holds at least four of each weekday, so the first through
/// fourth occurrences always exist.
pub proof fn lemma_nth_weekday_exists(y: int, m: int, n: int, t: int)
    requires
        1 <= n <= 4,
    ensures
        1 <= nth_weekday_day(y, m, n, t) <= 28 <= month_len(y, m),
{
}

} // verus!
