//! The holiday rules: the polymorphic rule contract, the basic rules defined
//! directly by law, and the two derived rules (substitute holidays and
//! sandwiched national holidays) that consult a registry of basic rules.

use vstd::prelude::*;
use vstd::string::StringExecFns;

use crate::date::{next_ymd, prev_ymd, weekday_index, Date, Weekday};
use crate::registry::Registry;
use crate::utils::{lemma_nth_weekday_exists, nth_weekday_day, week_day};

verus! {

/// The contract every holiday rule meets: a matching predicate and a name,
/// each pinned by a spec-level counterpart.
pub trait Holiday: Sized {
    /// Whether the rule matches the date.
    spec fn spec_matches(&self, d: Date) -> bool;

    /// The name the rule produces at a date it matches.
    spec fn spec_name(&self, d: Date) -> Seq<char>;

    /// Whether the rule is a basic rule defined directly by law, as opposed
    /// to a derived overlay.
    spec fn spec_is_basic(&self) -> bool;

    fn exists_holiday(&self, date: &Date) -> (r: bool)
        requires
            date.wf(),
        ensures
            r == self.spec_matches(*date),
    ;

    fn resolve_holiday_name(&self, date: &Date) -> (r: String)
        requires
            date.wf(),
            self.spec_matches(*date),
        ensures
            r@ == self.spec_name(*date),
    ;

    fn is_holiday(&self, date: &Date) -> (r: bool)
        requires
            date.wf(),
        ensures
            r == self.spec_matches(*date),
    {
        if self.exists_holiday(date) {
            return true;
        }
        false
    }

    fn is_holiday_name(&self, date: &Date) -> (r: Option<String>)
        requires
            date.wf(),
        ensures
            r is Some <==> self.spec_matches(*date),
            r matches Some(n) ==> n@ == self.spec_name(*date),
    {
        if self.exists_holiday(date) {
            return Some(self.resolve_holiday_name(date));
        }
        None
    }

    fn is_basic_holiday(&self) -> (r: bool)
        ensures
            r == self.spec_is_basic(),
    ;
}

// 元日
#[derive(Clone, Copy)]
pub struct NewYear {}

impl Holiday for NewYear {
    open spec fn spec_matches(&self, d: Date) -> bool {
        d.month == 1 && d.day == 1
    }

    open spec fn spec_name(&self, d: Date) -> Seq<char> {
        "元日"@
    }

    open spec fn spec_is_basic(&self) -> bool {
        true
    }

    fn exists_holiday(&self, date: &Date) -> (r: bool) {
        if date.month == 1 && date.day == 1 {
            return true;
        }
        false
    }

    fn resolve_holiday_name(&self, date: &Date) -> (r: String) {
        String::from_str("元日")
    }

    fn is_basic_holiday(&self) -> (r: bool) {
        true
    }
}

// 成人の日
#[derive(Clone, Copy)]
pub struct AdultDay {}

impl Holiday for AdultDay {
    open spec fn spec_matches(&self, d: Date) -> bool {
        ||| (1948 <= d.year <= 1999 && d.month == 1 && d.day == 15)
        ||| (d.year >= 2000 && d.month == 1 && d.day == nth_weekday_day(d.year as int, 1, 2, 1))
    }

    open spec fn spec_name(&self, d: Date) -> Seq<char> {
        "成人の日"@
    }

    open spec fn spec_is_basic(&self) -> bool {
        true
    }

    fn exists_holiday(&self, date: &Date) -> (r: bool) {
        if 1948 <= date.year && date.year <= 1999 && date.month == 1 && date.day == 15 {
            return true;
        } else if date.year >= 2000 && date.month == 1 {
            proof {
                lemma_nth_weekday_exists(date.year as int, 1, 2, 1);
            }
            if date.day == week_day(date, 2, Weekday::Mon).unwrap().day {
                return true;
            }
        }
        false
    }

    fn resolve_holiday_name(&self, date: &Date) -> (r: String) {
        String::from_str("成人の日")
    }

    fn is_basic_holiday(&self) -> (r: bool) {
        true
    }
}

// 建国記念の日
#[derive(Clone, Copy)]
pub struct FoundationDay {}

impl Holiday for FoundationDay {
    open spec fn spec_matches(&self, d: Date) -> bool {
        d.year >= 1967 && d.month == 2 && d.day == 11
    }

    open spec fn spec_name(&self, d: Date) -> Seq<char> {
        "建国記念の日"@
    }

    open spec fn spec_is_basic(&self) -> bool {
        true
    }

    fn exists_holiday(&self, date: &Date) -> (r: bool) {
        if date.year >= 1967 && date.month == 2 && date.day == 11 {
            return true;
        }
        false
    }

    fn resolve_holiday_name(&self, date: &Date) -> (r: String) {
        String::from_str("建国記念の日")
    }

    fn is_basic_holiday(&self) -> (r: bool) {
        true
    }
}

// 天皇誕生日
#[derive(Clone, Copy)]
pub struct EmperorsBirthday {}

impl Holiday for EmperorsBirthday {
    open spec fn spec_matches(&self, d: Date) -> bool {
        ||| (1948 <= d.year <= 1988 && d.month == 4 && d.day == 29)
        ||| (1988 <= d.year <= 2018 && d.month == 12 && d.day == 23)
        ||| (d.year >= 2020 && d.month == 2 && d.day == 23)
    }

    open spec fn spec_name(&self, d: Date) -> Seq<char> {
        "天皇誕生日"@
    }

    open spec fn spec_is_basic(&self) -> bool {
        true
    }

    fn exists_holiday(&self, date: &Date) -> (r: bool) {
        // 1948-1988
        if 1948 <= date.year && date.year <= 1988 && date.month == 4 && date.day == 29 {
            return true;
        }
        // 1988-2018; moved by the 2019 amendment of the holiday law
        else if 1988 <= date.year && date.year <= 2018 && date.month == 12 && date.day == 23 {
            return true;
        } else if date.year >= 2020 && date.month == 2 && date.day == 23 {
            return true;
        }
        false
    }

    fn resolve_holiday_name(&self, date: &Date) -> (r: String) {
        String::from_str("天皇誕生日")
    }

    fn is_basic_holiday(&self) -> (r: bool) {
        true
    }
}

// 春分の日
#[derive(Clone, Copy)]
pub struct VernalEquinoxDay {}

/// The equinox day-of-month approximation, in fixed-point arithmetic:
/// the floor of `c + 0.242194 * (year - 1980) - floor((year - 1980) / 4)`,
/// where `c6` is the era coefficient `c` scaled by 10^6, computed over the
/// nonnegative shift `a = year - 1848` and clamped below at zero.
pub open spec fn equinox_day_calc(year: int, c6: int) -> int {
    let a = year - 1848;
    let q1 = (c6 + 242194 * a + 30392) / 1000000;
    let q2 = a / 4;
    if q1 + 1 >= q2 {
        q1 + 1 - q2
    } else {
        0
    }
}

/// The vernal-equinox era coefficient, scaled by 10^6.
pub open spec fn vernal_coeff(year: int) -> int {
    if 1851 <= year <= 1899 {
        19827700
    } else if 1900 <= year <= 1979 {
        20835700
    } else if 1980 <= year <= 2099 {
        20843100
    } else if 2100 <= year <= 2150 {
        21851000
    } else {
        0
    }
}

/// The autumnal-equinox era coefficient, scaled by 10^6.
pub open spec fn autumn_coeff(year: int) -> int {
    if 1851 <= year <= 1899 {
        22258800
    } else if 1900 <= year <= 1979 {
        23258800
    } else if 1980 <= year <= 2099 {
        23248800
    } else if 2100 <= year <= 2150 {
        24248800
    } else {
        0
    }
}

/// The March day of the vernal equinox of `year`, or 0 for years before the
/// holiday existed (1948 and earlier).
pub open spec fn vernal_equinox_day_spec(year: int) -> int {
    if year <= 1948 {
        0
    } else {
        equinox_day_calc(year, vernal_coeff(year))
    }
}

/// The September day of the autumnal equinox of `year`, or 0 for years
/// before the holiday existed (1948 and earlier).
pub open spec fn autumn_equinox_day_spec(year: int) -> int {
    if year <= 1948 {
        0
    } else {
        equinox_day_calc(year, autumn_coeff(year))
    }
}

/// The clamped fixed-point equinox evaluation shared by the two rules.
fn equinox_day_of(year: i32, c6: u64) -> (r: u32)
    requires
        year >= 1949,
        c6 <= 24248800,
    ensures
        r == equinox_day_calc(year as int, c6 as int),
{
    let a: u64 = (year - 1848) as u64;
    let q1: u64 = (c6 + 242194 * a + 30392) / 1000000;
    let q2: u64 = a / 4;
    if q1 + 1 >= q2 {
        ((q1 + 1) - q2) as u32
    } else {
        0
    }
}

impl VernalEquinoxDay {
    /// The March day of the vernal equinox of `year` by the era-banded
    /// linear approximation, or 0 for years up to 1948, when the holiday
    /// did not exist under this name.
    pub fn vernal_equinox_day(&self, year: i32) -> (r: u32)
        ensures
            r == vernal_equinox_day_spec(year as int),
    {
        if year <= 1948 {
            return 0;
        }
        let c6: u64 = if 1851 <= year && year <= 1899 {
            19827700
        } else if 1900 <= year && year <= 1979 {
            20835700
        } else if 1980 <= year && year <= 2099 {
            20843100
        } else if 2100 <= year && year <= 2150 {
            21851000
        } else {
            0
        };
        equinox_day_of(year, c6)
    }
}

impl Holiday for VernalEquinoxDay {
    open spec fn spec_matches(&self, d: Date) -> bool {
        d.month == 3 && d.day == vernal_equinox_day_spec(d.year as int)
    }

    open spec fn spec_name(&self, d: Date) -> Seq<char> {
        "春分の日"@
    }

    open spec fn spec_is_basic(&self) -> bool {
        true
    }

    fn exists_holiday(&self, date: &Date) -> (r: bool) {
        if date.month == 3 && date.day == self.vernal_equinox_day(date.year) {
            return true;
        }
        false
    }

    fn resolve_holiday_name(&self, date: &Date) -> (r: String) {
        String::from_str("春分の日")
    }

    fn is_basic_holiday(&self) -> (r: bool) {
        true
    }
}

// みどりの日
#[derive(Clone, Copy)]
pub struct GreeneryDay {}

impl Holiday for GreeneryDay {
    open spec fn spec_matches(&self, d: Date) -> bool {
        ||| (1989 <= d.year <= 2006 && d.month == 4 && d.day == 29)
        ||| (d.year >= 2007 && d.month == 5 && d.day == 4)
    }

    open spec fn spec_name(&self, d: Date) -> Seq<char> {
        "みどりの日"@
    }

    open spec fn spec_is_basic(&self) -> bool {
        true
    }

    fn exists_holiday(&self, date: &Date) -> (r: bool) {
        // 1989-2006
        if 1989 <= date.year && date.year <= 2006 && date.month == 4 && date.day == 29 {
            return true;
        } else if date.year >= 2007 && date.month == 5 && date.day == 4 {
            return true;
        }
        false
    }

    fn resolve_holiday_name(&self, date: &Date) -> (r: String) {
        String::from_str("みどりの日")
    }

    fn is_basic_holiday(&self) -> (r: bool) {
        true
    }
}

// 昭和の日
#[derive(Clone, Copy)]
pub struct ShowaDay {}

impl Holiday for ShowaDay {
    open spec fn spec_matches(&self, d: Date) -> bool {
        d.year >= 2007 && d.month == 4 && d.day == 29
    }

    open spec fn spec_name(&self, d: Date) -> Seq<char> {
        "昭和の日"@
    }

    open spec fn spec_is_basic(&self) -> bool {
        true
    }

    fn exists_holiday(&self, date: &Date) -> (r: bool) {
        if date.year >= 2007 && date.month == 4 && date.day == 29 {
            return true;
        }
        false
    }

    fn resolve_holiday_name(&self, date: &Date) -> (r: String) {
        String::from_str("昭和の日")
    }

    fn is_basic_holiday(&self) -> (r: bool) {
        true
    }
}

// 憲法記念日
#[derive(Clone, Copy)]
pub struct ConstitutionMemorialDay {}

impl Holiday for ConstitutionMemorialDay {
    open spec fn spec_matches(&self, d: Date) -> bool {
        d.month == 5 && d.day == 3
    }

    open spec fn spec_name(&self, d: Date) -> Seq<char> {
        "憲法記念日"@
    }

    open spec fn spec_is_basic(&self) -> bool {
        true
    }

    fn exists_holiday(&self, date: &Date) -> (r: bool) {
        if date.month == 5 && date.day == 3 {
            return true;
        }
        false
    }

    fn resolve_holiday_name(&self, date: &Date) -> (r: String) {
        String::from_str("憲法記念日")
    }

    fn is_basic_holiday(&self) -> (r: bool) {
        true
    }
}

// こどもの日
#[derive(Clone, Copy)]
pub struct ChildrensDay {}

impl Holiday for ChildrensDay {
    open spec fn spec_matches(&self, d: Date) -> bool {
        d.month == 5 && d.day == 5
    }

    open spec fn spec_name(&self, d: Date) -> Seq<char> {
        "こどもの日"@
    }

    open spec fn spec_is_basic(&self) -> bool {
        true
    }

    fn exists_holiday(&self, date: &Date) -> (r: bool) {
        if date.month == 5 && date.day == 5 {
            return true;
        }
        false
    }

    fn resolve_holiday_name(&self, date: &Date) -> (r: String) {
        String::from_str("こどもの日")
    }

    fn is_basic_holiday(&self) -> (r: bool) {
        true
    }
}

// 海の日
#[derive(Clone, Copy)]
pub struct SeaDay {}

impl Holiday for SeaDay {
    open spec fn spec_matches(&self, d: Date) -> bool {
        ||| (1996 <= d.year <= 2002 && d.month == 7 && d.day == 20)
        ||| (d.year >= 2003 && d.year != 2020 && d.month == 7 && d.day == nth_weekday_day(
            d.year as int,
            7,
            3,
            1,
        ))
        ||| (d.year == 2020 && d.month == 7 && d.day == 23)
    }

    open spec fn spec_name(&self, d: Date) -> Seq<char> {
        "海の日"@
    }

    open spec fn spec_is_basic(&self) -> bool {
        true
    }

    fn exists_holiday(&self, date: &Date) -> (r: bool) {
        if 1996 <= date.year && date.year <= 2002 && date.month == 7 && date.day == 20 {
            return true;
        }
        // third Monday of July since 2003; shifted in 2020 by the special
        // Olympic-year law
        else if date.year >= 2003 && date.year != 2020 && date.month == 7 {
            proof {
                lemma_nth_weekday_exists(date.year as int, 7, 3, 1);
            }
            if date.day == week_day(date, 3, Weekday::Mon).unwrap().day {
                return true;
            }
        }
        // the 2020 one-off date of the special law
        if *date == Date::from_ymd(2020, 7, 23) {
            return true;
        }
        false
    }

    fn resolve_holiday_name(&self, date: &Date) -> (r: String) {
        String::from_str("海の日")
    }

    fn is_basic_holiday(&self) -> (r: bool) {
        true
    }
}

// 山の日
#[derive(Clone, Copy)]
pub struct MountainDay {}

impl Holiday for MountainDay {
    open spec fn spec_matches(&self, d: Date) -> bool {
        ||| (d.year >= 2016 && d.year != 2020 && d.month == 8 && d.day == 11)
        ||| (d.year == 2020 && d.month == 8 && d.day == 10)
    }

    open spec fn spec_name(&self, d: Date) -> Seq<char> {
        "山の日"@
    }

    open spec fn spec_is_basic(&self) -> bool {
        true
    }

    fn exists_holiday(&self, date: &Date) -> (r: bool) {
        // August 11 since 2016; shifted in 2020 by the special Olympic-year law
        if date.year >= 2016 && date.year != 2020 && date.month == 8 && date.day == 11 {
            return true;
        }
        // the 2020 one-off date of the special law
        if *date == Date::from_ymd(2020, 8, 10) {
            return true;
        }
        false
    }

    fn resolve_holiday_name(&self, date: &Date) -> (r: String) {
        String::from_str("山の日")
    }

    fn is_basic_holiday(&self) -> (r: bool) {
        true
    }
}

// 敬老の日
#[derive(Clone, Copy)]
pub struct RespectForTheAgedDay {}

impl Holiday for RespectForTheAgedDay {
    open spec fn spec_matches(&self, d: Date) -> bool {
        ||| (1966 <= d.year <= 2002 && d.month == 9 && d.day == 15)
        ||| (d.year >= 2003 && d.month == 9 && d.day == nth_weekday_day(d.year as int, 9, 3, 1))
    }

    open spec fn spec_name(&self, d: Date) -> Seq<char> {
        "敬老の日"@
    }

    open spec fn spec_is_basic(&self) -> bool {
        true
    }

    fn exists_holiday(&self, date: &Date) -> (r: bool) {
        if 1966 <= date.year && date.year <= 2002 && date.month == 9 && date.day == 15 {
            return true;
        } else if date.year >= 2003 && date.month == 9 {
            proof {
                lemma_nth_weekday_exists(date.year as int, 9, 3, 1);
            }
            if date.day == week_day(date, 3, Weekday::Mon).unwrap().day {
                return true;
            }
        }
        false
    }

    fn resolve_holiday_name(&self, date: &Date) -> (r: String) {
        String::from_str("敬老の日")
    }

    fn is_basic_holiday(&self) -> (r: bool) {
        true
    }
}

// 秋分の日
#[derive(Clone, Copy)]
pub struct AutumnEquinoxDay {}

impl AutumnEquinoxDay {
    /// The September day of the autumnal equinox of `year` by the era-banded
    /// linear approximation, or 0 for years up to 1948, when the holiday
    /// did not exist under this name.
    pub fn autumn_equinox_day(&self, year: i32) -> (r: u32)
        ensures
            r == autumn_equinox_day_spec(year as int),
    {
        if year <= 1948 {
            return 0;
        }
        let c6: u64 = if 1851 <= year && year <= 1899 {
            22258800
        } else if 1900 <= year && year <= 1979 {
            23258800
        } else if 1980 <= year && year <= 2099 {
            23248800
        } else if 2100 <= year && year <= 2150 {
            24248800
        } else {
            0
        };
        equinox_day_of(year, c6)
    }
}

impl Holiday for AutumnEquinoxDay {
    open spec fn spec_matches(&self, d: Date) -> bool {
        d.month == 9 && d.day == autumn_equinox_day_spec(d.year as int)
    }

    open spec fn spec_name(&self, d: Date) -> Seq<char> {
        "秋分の日"@
    }

    open spec fn spec_is_basic(&self) -> bool {
        true
    }

    fn exists_holiday(&self, date: &Date) -> (r: bool) {
        if date.month == 9 && date.day == self.autumn_equinox_day(date.year) {
            return true;
        }
        false
    }

    fn resolve_holiday_name(&self, date: &Date) -> (r: String) {
        String::from_str("秋分の日")
    }

    fn is_basic_holiday(&self) -> (r: bool) {
        true
    }
}

// 体育の日
#[derive(Clone, Copy)]
pub struct HealthAndSportsDay {}

impl Holiday for HealthAndSportsDay {
    open spec fn spec_matches(&self, d: Date) -> bool {
        ||| (1966 <= d.year <= 1999 && d.month == 10 && d.day == 10)
        ||| (2000 <= d.year <= 2019 && d.month == 10 && d.day == nth_weekday_day(
            d.year as int,
            10,
            2,
            1,
        ))
    }

    open spec fn spec_name(&self, d: Date) -> Seq<char> {
        "体育の日"@
    }

    open spec fn spec_is_basic(&self) -> bool {
        true
    }

    fn exists_holiday(&self, date: &Date) -> (r: bool) {
        if 1966 <= date.year && date.year <= 1999 && date.month == 10 && date.day == 10 {
            return true;
        } else if 2000 <= date.year && date.year <= 2019 && date.month == 10 {
            proof {
                lemma_nth_weekday_exists(date.year as int, 10, 2, 1);
            }
            if date.day == week_day(date, 2, Weekday::Mon).unwrap().day {
                return true;
            }
        }
        false
    }

    fn resolve_holiday_name(&self, date: &Date) -> (r: String) {
        String::from_str("体育の日")
    }

    fn is_basic_holiday(&self) -> (r: bool) {
        true
    }
}

// スポーツの日
#[derive(Clone, Copy)]
pub struct SportsDay {}

impl Holiday for SportsDay {
    open spec fn spec_matches(&self, d: Date) -> bool {
        ||| (d.year >= 2021 && d.month == 10 && d.day == nth_weekday_day(d.year as int, 10, 2, 1))
        ||| (d.year == 2020 && d.month == 7 && d.day == 24)
    }

    open spec fn spec_name(&self, d: Date) -> Seq<char> {
        "スポーツの日"@
    }

    open spec fn spec_is_basic(&self) -> bool {
        true
    }

    fn exists_holiday(&self, date: &Date) -> (r: bool) {
        // second Monday of October from 2021 on; in 2020 itself the special
        // Olympic-year law moved the day to the one-off date below
        if date.year >= 2021 && date.month == 10 {
            proof {
                lemma_nth_weekday_exists(date.year as int, 10, 2, 1);
            }
            if date.day == week_day(date, 2, Weekday::Mon).unwrap().day {
                return true;
            }
        }
        // the 2020 one-off date of the special law
        if *date == Date::from_ymd(2020, 7, 24) {
            return true;
        }
        false
    }

    fn resolve_holiday_name(&self, date: &Date) -> (r: String) {
        String::from_str("スポーツの日")
    }

    fn is_basic_holiday(&self) -> (r: bool) {
        true
    }
}

// 文化の日
#[derive(Clone, Copy)]
pub struct CultureDay {}

impl Holiday for CultureDay {
    open spec fn spec_matches(&self, d: Date) -> bool {
        d.month == 11 && d.day == 3
    }

    open spec fn spec_name(&self, d: Date) -> Seq<char> {
        "文化の日"@
    }

    open spec fn spec_is_basic(&self) -> bool {
        true
    }

    fn exists_holiday(&self, date: &Date) -> (r: bool) {
        if date.month == 11 && date.day == 3 {
            return true;
        }
        false
    }

    fn resolve_holiday_name(&self, date: &Date) -> (r: String) {
        String::from_str("文化の日")
    }

    fn is_basic_holiday(&self) -> (r: bool) {
        true
    }
}

// 勤労感謝の日
#[derive(Clone, Copy)]
pub struct LaborThanksgivingDay {}

impl Holiday for LaborThanksgivingDay {
    open spec fn spec_matches(&self, d: Date) -> bool {
        d.month == 11 && d.day == 23
    }

    open spec fn spec_name(&self, d: Date) -> Seq<char> {
        "勤労感謝の日"@
    }

    open spec fn spec_is_basic(&self) -> bool {
        true
    }

    fn exists_holiday(&self, date: &Date) -> (r: bool) {
        if date.month == 11 && date.day == 23 {
            return true;
        }
        false
    }

    fn resolve_holiday_name(&self, date: &Date) -> (r: String) {
        String::from_str("勤労感謝の日")
    }

    fn is_basic_holiday(&self) -> (r: bool) {
        true
    }
}

// 皇室慶弔行事に伴う祝日
#[derive(Clone, Copy)]
pub struct ExtraHolidays {}

impl ExtraHolidays {
    /// The ceremonial one-off holiday at `d`, if any.
    pub open spec fn spec_extra_name(d: Date) -> Option<Seq<char>> {
        if d.year == 1959 && d.month == 4 && d.day == 10 {
            Some("皇太子・明仁親王の結婚の儀"@)
        } else if d.year == 1989 && d.month == 2 && d.day == 24 {
            Some("昭和天皇の大喪の礼"@)
        } else if d.year == 1990 && d.month == 11 && d.day == 12 {
            Some("即位の礼正殿の儀"@)
        } else if d.year == 1993 && d.month == 6 && d.day == 9 {
            Some("皇太子・皇太子徳仁親王の結婚の儀"@)
        } else if d.year == 2019 && d.month == 5 && d.day == 1 {
            Some("天皇の即位の日"@)
        } else if d.year == 2019 && d.month == 10 && d.day == 22 {
            Some("即位礼正殿の儀"@)
        } else {
            None
        }
    }

    /// The name of the ceremonial one-off holiday on `date`, if the date is
    /// one of the enthronement, wedding or funeral dates declared holidays
    /// by their own laws.
    pub fn extra_holiday_name(&self, date: &Date) -> (r: Option<String>)
        requires
            date.wf(),
        ensures
            r is Some <==> Self::spec_extra_name(*date) is Some,
            r matches Some(n) ==> Some(n@) == Self::spec_extra_name(*date),
    {
        if *date == Date::from_ymd(1959, 4, 10) {
            return Some(String::from_str("皇太子・明仁親王の結婚の儀"));
        } else if *date == Date::from_ymd(1989, 2, 24) {
            return Some(String::from_str("昭和天皇の大喪の礼"));
        } else if *date == Date::from_ymd(1990, 11, 12) {
            return Some(String::from_str("即位の礼正殿の儀"));
        } else if *date == Date::from_ymd(1993, 6, 9) {
            return Some(String::from_str("皇太子・皇太子徳仁親王の結婚の儀"));
        } else if *date == Date::from_ymd(2019, 5, 1) {
            return Some(String::from_str("天皇の即位の日"));
        }
        // the enthronement-ceremony holiday of the 2019 law
        else if *date == Date::from_ymd(2019, 10, 22) {
            return Some(String::from_str("即位礼正殿の儀"));
        }
        None
    }
}

impl Holiday for ExtraHolidays {
    open spec fn spec_matches(&self, d: Date) -> bool {
        Self::spec_extra_name(d) is Some
    }

    open spec fn spec_name(&self, d: Date) -> Seq<char> {
        Self::spec_extra_name(d)->0
    }

    open spec fn spec_is_basic(&self) -> bool {
        true
    }

    fn exists_holiday(&self, date: &Date) -> (r: bool) {
        if self.extra_holiday_name(date).is_some() {
            return true;
        }
        false
    }

    fn resolve_holiday_name(&self, date: &Date) -> (r: String) {
        self.extra_holiday_name(date).unwrap()
    }

    fn is_basic_holiday(&self) -> (r: bool) {
        true
    }
}

/// A basic holiday rule, as one variant per rule kind.  The registry holds
/// these; the derived rules below consult a registry of them.
#[derive(Clone, Copy)]
pub enum BasicRule {
    NewYear(NewYear),
    AdultDay(AdultDay),
    FoundationDay(FoundationDay),
    EmperorsBirthday(EmperorsBirthday),
    VernalEquinoxDay(VernalEquinoxDay),
    GreeneryDay(GreeneryDay),
    ShowaDay(ShowaDay),
    ConstitutionMemorialDay(ConstitutionMemorialDay),
    ChildrensDay(ChildrensDay),
    SeaDay(SeaDay),
    MountainDay(MountainDay),
    RespectForTheAgedDay(RespectForTheAgedDay),
    AutumnEquinoxDay(AutumnEquinoxDay),
    HealthAndSportsDay(HealthAndSportsDay),
    SportsDay(SportsDay),
    CultureDay(CultureDay),
    LaborThanksgivingDay(LaborThanksgivingDay),
    ExtraHolidays(ExtraHolidays),
}

impl Holiday for BasicRule {
    open spec fn spec_matches(&self, d: Date) -> bool {
        match self {
            BasicRule::NewYear(r) => r.spec_matches(d),
            BasicRule::AdultDay(r) => r.spec_matches(d),
            BasicRule::FoundationDay(r) => r.spec_matches(d),
            BasicRule::EmperorsBirthday(r) => r.spec_matches(d),
            BasicRule::VernalEquinoxDay(r) => r.spec_matches(d),
            BasicRule::GreeneryDay(r) => r.spec_matches(d),
            BasicRule::ShowaDay(r) => r.spec_matches(d),
            BasicRule::ConstitutionMemorialDay(r) => r.spec_matches(d),
            BasicRule::ChildrensDay(r) => r.spec_matches(d),
            BasicRule::SeaDay(r) => r.spec_matches(d),
            BasicRule::MountainDay(r) => r.spec_matches(d),
            BasicRule::RespectForTheAgedDay(r) => r.spec_matches(d),
            BasicRule::AutumnEquinoxDay(r) => r.spec_matches(d),
            BasicRule::HealthAndSportsDay(r) => r.spec_matches(d),
            BasicRule::SportsDay(r) => r.spec_matches(d),
            BasicRule::CultureDay(r) => r.spec_matches(d),
            BasicRule::LaborThanksgivingDay(r) => r.spec_matches(d),
            BasicRule::ExtraHolidays(r) => r.spec_matches(d),
        }
    }

    open spec fn spec_name(&self, d: Date) -> Seq<char> {
        match self {
            BasicRule::NewYear(r) => r.spec_name(d),
            BasicRule::AdultDay(r) => r.spec_name(d),
            BasicRule::FoundationDay(r) => r.spec_name(d),
            BasicRule::EmperorsBirthday(r) => r.spec_name(d),
            BasicRule::VernalEquinoxDay(r) => r.spec_name(d),
            BasicRule::GreeneryDay(r) => r.spec_name(d),
            BasicRule::ShowaDay(r) => r.spec_name(d),
            BasicRule::ConstitutionMemorialDay(r) => r.spec_name(d),
            BasicRule::ChildrensDay(r) => r.spec_name(d),
            BasicRule::SeaDay(r) => r.spec_name(d),
            BasicRule::MountainDay(r) => r.spec_name(d),
            BasicRule::RespectForTheAgedDay(r) => r.spec_name(d),
            BasicRule::AutumnEquinoxDay(r) => r.spec_name(d),
            BasicRule::HealthAndSportsDay(r) => r.spec_name(d),
            BasicRule::SportsDay(r) => r.spec_name(d),
            BasicRule::CultureDay(r) => r.spec_name(d),
            BasicRule::LaborThanksgivingDay(r) => r.spec_name(d),
            BasicRule::ExtraHolidays(r) => r.spec_name(d),
        }
    }

    open spec fn spec_is_basic(&self) -> bool {
        true
    }

    fn exists_holiday(&self, date: &Date) -> (r: bool) {
        match self {
            BasicRule::NewYear(r) => r.exists_holiday(date),
            BasicRule::AdultDay(r) => r.exists_holiday(date),
            BasicRule::FoundationDay(r) => r.exists_holiday(date),
            BasicRule::EmperorsBirthday(r) => r.exists_holiday(date),
            BasicRule::VernalEquinoxDay(r) => r.exists_holiday(date),
            BasicRule::GreeneryDay(r) => r.exists_holiday(date),
            BasicRule::ShowaDay(r) => r.exists_holiday(date),
            BasicRule::ConstitutionMemorialDay(r) => r.exists_holiday(date),
            BasicRule::ChildrensDay(r) => r.exists_holiday(date),
            BasicRule::SeaDay(r) => r.exists_holiday(date),
            BasicRule::MountainDay(r) => r.exists_holiday(date),
            BasicRule::RespectForTheAgedDay(r) => r.exists_holiday(date),
            BasicRule::AutumnEquinoxDay(r) => r.exists_holiday(date),
            BasicRule::HealthAndSportsDay(r) => r.exists_holiday(date),
            BasicRule::SportsDay(r) => r.exists_holiday(date),
            BasicRule::CultureDay(r) => r.exists_holiday(date),
            BasicRule::LaborThanksgivingDay(r) => r.exists_holiday(date),
            BasicRule::ExtraHolidays(r) => r.exists_holiday(date),
        }
    }

    fn resolve_holiday_name(&self, date: &Date) -> (r: String) {
        match self {
            BasicRule::NewYear(r) => r.resolve_holiday_name(date),
            BasicRule::AdultDay(r) => r.resolve_holiday_name(date),
            BasicRule::FoundationDay(r) => r.resolve_holiday_name(date),
            BasicRule::EmperorsBirthday(r) => r.resolve_holiday_name(date),
            BasicRule::VernalEquinoxDay(r) => r.resolve_holiday_name(date),
            BasicRule::GreeneryDay(r) => r.resolve_holiday_name(date),
            BasicRule::ShowaDay(r) => r.resolve_holiday_name(date),
            BasicRule::ConstitutionMemorialDay(r) => r.resolve_holiday_name(date),
            BasicRule::ChildrensDay(r) => r.resolve_holiday_name(date),
            BasicRule::SeaDay(r) => r.resolve_holiday_name(date),
            BasicRule::MountainDay(r) => r.resolve_holiday_name(date),
            BasicRule::RespectForTheAgedDay(r) => r.resolve_holiday_name(date),
            BasicRule::AutumnEquinoxDay(r) => r.resolve_holiday_name(date),
            BasicRule::HealthAndSportsDay(r) => r.resolve_holiday_name(date),
            BasicRule::SportsDay(r) => r.resolve_holiday_name(date),
            BasicRule::CultureDay(r) => r.resolve_holiday_name(date),
            BasicRule::LaborThanksgivingDay(r) => r.resolve_holiday_name(date),
            BasicRule::ExtraHolidays(r) => r.resolve_holiday_name(date),
        }
    }

    fn is_basic_holiday(&self) -> (r: bool) {
        true
    }
}

/// Whether some rule of `rules` matches `d`.
pub open spec fn reg_any(rules: Seq<BasicRule>, d: Date) -> bool {
    exists|i: int| 0 <= i < rules.len() && (#[trigger] rules[i].spec_matches(d))
}

/// The name produced by the first rule of `rules` that matches `d`, in
/// sequence order, or nothing when none matches.
pub open spec fn seq_first_name(rules: Seq<BasicRule>, d: Date) -> Option<Seq<char>>
    decreases rules.len(),
{
    if rules.len() == 0 {
        None
    } else if rules[0].spec_matches(d) {
        Some(rules[0].spec_name(d))
    } else {
        seq_first_name(rules.drop_first(), d)
    }
}

/// The first matching rule determines `seq_first_name`: if the rules before
/// index `i` all miss `d` and the rule at `i` matches, the name is rule
/// `i`'s.
pub proof fn lemma_first_name_at(rules: Seq<BasicRule>, d: Date, i: int)
    requires
        0 <= i < rules.len(),
        rules[i].spec_matches(d),
        forall|j: int| 0 <= j < i ==> !(#[trigger] rules[j].spec_matches(d)),
    ensures
        seq_first_name(rules, d) == Some(rules[i].spec_name(d)),
    decreases i,
{
    if i > 0 {
        lemma_first_name_at(rules.drop_first(), d, i - 1);
    }
}

/// When no rule matches, there is no name.
pub proof fn lemma_first_name_none(rules: Seq<BasicRule>, d: Date)
    requires
        forall|j: int| 0 <= j < rules.len() ==> !(#[trigger] rules[j].spec_matches(d)),
    ensures
        seq_first_name(rules, d) is None,
    decreases rules.len(),
{
    if rules.len() > 0 {
        lemma_first_name_none(rules.drop_first(), d);
    }
}

/// A name exists exactly when some rule matches.
pub proof fn lemma_first_name_some_iff_any(rules: Seq<BasicRule>, d: Date)
    ensures
        seq_first_name(rules, d) is Some <==> reg_any(rules, d),
    decreases rules.len(),
{
    if rules.len() > 0 {
        lemma_first_name_some_iff_any(rules.drop_first(), d);
        if rules[0].spec_matches(d) {
        } else {
            assert forall|i: int|
                0 <= i < rules.len() && (#[trigger] rules[i].spec_matches(d)) implies reg_any(
                rules.drop_first(),
                d,
            ) by {
                assert(rules.drop_first()[i - 1].spec_matches(d));
            }
            assert forall|i: int|
                0 <= i < rules.drop_first().len() && (#[trigger] rules.drop_first()[i].spec_matches(
                    d,
                )) implies reg_any(rules, d) by {
                assert(rules[i + 1].spec_matches(d));
            }
        }
    }
}

/// The date whose holiday a substitute holiday on `d` would observe, if a
/// substitute holiday is possible on `d` at all: from 1973 on, a Monday
/// observes the day before it, and May 6 falling on a Tuesday or Wednesday
/// observes the start of the preceding Golden-Week run, reached by walking
/// back as many days as `d`'s days-since-Sunday index.
pub open spec fn spec_transfer_target(d: Date) -> Option<Date> {
    if d.year < 1973 {
        None
    } else if d.month == 5 && d.day == 6 && (weekday_index(d) == 2 || weekday_index(d) == 3) {
        Some(Date { year: d.year, month: d.month, day: (d.day - weekday_index(d)) as u32 })
    } else if weekday_index(d) == 1 {
        Some(prev_ymd(d))
    } else {
        None
    }
}

// 振替休日
pub struct TransferHoliday {
    pub registry: Registry,
}

impl TransferHoliday {
    /// The substitute-holiday name at `date`: when `date` can carry a
    /// substitute holiday and a basic rule of the registry matches the
    /// observed date, the observed holiday's name with the
    /// substitute-holiday suffix; otherwise nothing.
    pub fn transfer_holiday_name(&self, date: &Date) -> (r: Option<String>)
        requires
            date.wf(),
        ensures
            r is Some <==> self.spec_matches(*date),
            r matches Some(n) ==> n@ == self.spec_name(*date),
    {
        // the substitute-holiday law took effect in 1973
        if date.year < 1973 {
            return None;
        }
        let wd: u32 = date.weekday().num_days_from_sunday();
        // Golden Week: the consecutive holidays around May 6 need a longer
        // walk back than the plain previous-day check below
        if date.month == 5 && date.day == 6 && (wd == 2 || wd == 3) {
            let back = Date::from_ymd(date.year, date.month, date.day - wd);
            proof {
                lemma_first_name_some_iff_any(self.registry@, back);
            }
            match rules_first_name(self.registry.get_registry(), &back) {
                Some(name) => {
                    return Some(name.concat(" 振替休日"));
                },
                None => {
                    return None;
                },
            }
        }
        // otherwise only a Monday can be a substitute holiday
        if wd != 1 {
            return None;
        }
        let prev = date.prev_day();
        proof {
            lemma_first_name_some_iff_any(self.registry@, prev);
        }
        match rules_first_name(self.registry.get_registry(), &prev) {
            Some(name) => Some(name.concat(" 振替休日")),
            None => None,
        }
    }

    /// The suffix a substitute holiday appends to the observed holiday's
    /// name.
    pub fn holiday_name(&self) -> (r: &'static str)
        ensures
            r@ == "振替休日"@,
    {
        "振替休日"
    }
}

impl Holiday for TransferHoliday {
    open spec fn spec_matches(&self, d: Date) -> bool {
        match spec_transfer_target(d) {
            Some(t) => reg_any(self.registry@, t),
            None => false,
        }
    }

    open spec fn spec_name(&self, d: Date) -> Seq<char> {
        match spec_transfer_target(d) {
            Some(t) => match seq_first_name(self.registry@, t) {
                Some(n) => n + " 振替休日"@,
                None => Seq::empty(),
            },
            None => Seq::empty(),
        }
    }

    open spec fn spec_is_basic(&self) -> bool {
        false
    }

    fn exists_holiday(&self, date: &Date) -> (r: bool) {
        if self.transfer_holiday_name(date).is_some() {
            return true;
        }
        false
    }

    fn resolve_holiday_name(&self, date: &Date) -> (r: String) {
        self.transfer_holiday_name(date).unwrap()
    }

    fn is_basic_holiday(&self) -> (r: bool) {
        false
    }
}

// 国民の休日
pub struct NationalHoliday {
    pub registry: Registry,
}

impl Holiday for NationalHoliday {
    open spec fn spec_matches(&self, d: Date) -> bool {
        &&& !d.is_min()
        &&& !d.is_max()
        &&& reg_any(self.registry@, prev_ymd(d))
        &&& reg_any(self.registry@, next_ymd(d))
    }

    open spec fn spec_name(&self, d: Date) -> Seq<char> {
        "国民の休日"@
    }

    open spec fn spec_is_basic(&self) -> bool {
        false
    }

    fn exists_holiday(&self, date: &Date) -> (r: bool) {
        // a first or last supported day has no neighbour on one side and
        // cannot be sandwiched
        if (date.year == 1 && date.month == 1 && date.day == 1) || (date.year == 9999
            && date.month == 12 && date.day == 31) {
            return false;
        }
        let prev = date.prev_day();
        let next = date.next_day();
        rules_any_match(self.registry.get_registry(), &prev) && rules_any_match(
            self.registry.get_registry(),
            &next,
        )
    }

    fn resolve_holiday_name(&self, date: &Date) -> (r: String) {
        String::from_str("国民の休日")
    }

    fn is_basic_holiday(&self) -> (r: bool) {
        false
    }
}

/// Whether some rule of the vector matches `date`; the exec counterpart of
/// [`reg_any`].
pub(crate) fn rules_any_match(rules: &Vec<BasicRule>, date: &Date) -> (r: bool)
    requires
        date.wf(),
    ensures
        r == reg_any(rules@, *date),
{
    let n = rules.len();
    let mut i: usize = 0;
    while i < n
        invariant
            n == rules@.len(),
            0 <= i <= n,
            date.wf(),
            forall|j: int| 0 <= j < i ==> !(#[trigger] rules@[j].spec_matches(*date)),
        decreases n - i,
    {
        let rule = rules[i];
        if rule.is_holiday(date) {
            return true;
        }
        i += 1;
    }
    false
}

/// The name of the first rule of the vector that matches `date`; the exec
/// counterpart of [`seq_first_name`].
pub(crate) fn rules_first_name(rules: &Vec<BasicRule>, date: &Date) -> (r: Option<String>)
    requires
        date.wf(),
    ensures
        r is Some <==> seq_first_name(rules@, *date) is Some,
        r matches Some(n) ==> Some(n@) == seq_first_name(rules@, *date),
{
    let n = rules.len();
    let mut i: usize = 0;
    while i < n
        invariant
            n == rules@.len(),
            0 <= i <= n,
            date.wf(),
            forall|j: int| 0 <= j < i ==> !(#[trigger] rules@[j].spec_matches(*date)),
        decreases n - i,
    {
        let rule = rules[i];
        if rule.is_holiday(date) {
            proof {
                lemma_first_name_at(rules@, *date, i as int);
            }
            return Some(rule.resolve_holiday_name(date));
        }
        i += 1;
    }
    proof {
        lemma_first_name_none(rules@, *date);
    }
    None
}

} // verus!
