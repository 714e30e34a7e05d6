//! The holiday engine: the fully assembled rule registry and the public
//! query operations — point lookup, name lookup, and enumeration over a
//! range, a year or a month.

use vstd::prelude::*;

use crate::date::{
    date_key, days_in_month, lemma_key_below_max, lemma_key_injective, lemma_next_key_increases,
    month_len, next_ymd, Date,
};
use crate::holidays::{
    lemma_first_name_some_iff_any, reg_any, rules_any_match, rules_first_name, seq_first_name,
    AdultDay, AutumnEquinoxDay, BasicRule, ChildrensDay, ConstitutionMemorialDay, CultureDay,
    EmperorsBirthday, ExtraHolidays, FoundationDay, GreeneryDay, HealthAndSportsDay, Holiday,
    LaborThanksgivingDay, MountainDay, NationalHoliday, NewYear, RespectForTheAgedDay, SeaDay,
    ShowaDay, SportsDay, TransferHoliday, VernalEquinoxDay,
};
use crate::registry::Registry;

verus! {

/// The canonical basic rule set, in evaluation order.
pub open spec fn canonical_rules() -> Seq<BasicRule> {
    seq![
        BasicRule::NewYear(NewYear {}),
        BasicRule::AdultDay(AdultDay {}),
        BasicRule::FoundationDay(FoundationDay {}),
        BasicRule::EmperorsBirthday(EmperorsBirthday {}),
        BasicRule::VernalEquinoxDay(VernalEquinoxDay {}),
        BasicRule::GreeneryDay(GreeneryDay {}),
        BasicRule::ShowaDay(ShowaDay {}),
        BasicRule::ConstitutionMemorialDay(ConstitutionMemorialDay {}),
        BasicRule::ChildrensDay(ChildrensDay {}),
        BasicRule::SeaDay(SeaDay {}),
        BasicRule::MountainDay(MountainDay {}),
        BasicRule::RespectForTheAgedDay(RespectForTheAgedDay {}),
        BasicRule::AutumnEquinoxDay(AutumnEquinoxDay {}),
        BasicRule::HealthAndSportsDay(HealthAndSportsDay {}),
        BasicRule::SportsDay(SportsDay {}),
        BasicRule::CultureDay(CultureDay {}),
        BasicRule::LaborThanksgivingDay(LaborThanksgivingDay {}),
        BasicRule::ExtraHolidays(ExtraHolidays {}),
    ]
}

/// The view of an enumeration result: each date paired with its name's
/// character sequence.
pub open spec fn view_entries(v: Seq<(Date, String)>) -> Seq<(Date, Seq<char>)> {
    v.map_values(|p: (Date, String)| (p.0, p.1@))
}

/// The holiday engine.  Its rule set is assembled once by [`JPHoliday::new`]
/// and never changes: the basic rules in their canonical order, then the
/// substitute-holiday rule, then the sandwiched-national-holiday rule, each
/// derived rule holding its own snapshot of the basic rules only, so that
/// derived rules can never observe each other.
///
/// Every query takes `&self` and its postcondition equates the result (or
/// the result's view) with a spec function of the engine and the inputs
/// alone, so a query repeated with identical inputs returns an identical
/// answer: there is no hidden state.
pub struct JPHoliday {
    pub registry: Registry,
    pub transfer: TransferHoliday,
    pub national: NationalHoliday,
}

impl JPHoliday {
    /// The engine as [`new`](JPHoliday::new) builds it: every registry holds
    /// exactly the canonical basic rules.
    pub open spec fn wf(self) -> bool {
        &&& self.registry@ == canonical_rules()
        &&& self.transfer.registry@ == canonical_rules()
        &&& self.national.registry@ == canonical_rules()
    }

    /// Whether some rule of the engine matches `d`.
    pub open spec fn spec_is_holiday(self, d: Date) -> bool {
        ||| reg_any(self.registry@, d)
        ||| self.transfer.spec_matches(d)
        ||| self.national.spec_matches(d)
    }

    /// The name of the first rule matching `d`, in evaluation order: the
    /// basic rules first, then the substitute rule, then the sandwiched
    /// national holiday.
    pub open spec fn spec_holiday_name(self, d: Date) -> Option<Seq<char>> {
        match seq_first_name(self.registry@, d) {
            Some(n) => Some(n),
            None => if self.transfer.spec_matches(d) {
                Some(self.transfer.spec_name(d))
            } else if self.national.spec_matches(d) {
                Some(self.national.spec_name(d))
            } else {
                None
            },
        }
    }

    /// The single holiday entry of day `d`, or no entry.
    pub open spec fn spec_day_entries(self, d: Date) -> Seq<(Date, Seq<char>)> {
        match self.spec_holiday_name(d) {
            Some(n) => seq![(d, n)],
            None => Seq::empty(),
        }
    }

    /// The holiday entries of the inclusive range `s ..= e`, one day at a
    /// time in calendar order.
    pub open spec fn spec_between(self, s: Date, e: Date) -> Seq<(Date, Seq<char>)>
        decreases date_key(e) - date_key(s),
        when s.wf() && e.wf()
    {
        if date_key(s) > date_key(e) {
            Seq::empty()
        } else if date_key(s) == date_key(e) {
            self.spec_day_entries(s)
        } else {
            self.spec_day_entries(s) + self.spec_between(next_ymd(s), e)
        }
    }

    /// How many days of the inclusive range `s ..= e` are holidays.
    #[verifier::rlimit(50)]
    pub open spec fn spec_count_holidays(self, s: Date, e: Date) -> int
        decreases date_key(e) - date_key(s),
        when s.wf() && e.wf()
    {
        if date_key(s) > date_key(e) {
            0
        } else if date_key(s) == date_key(e) {
            if self.spec_is_holiday(s) {
                1
            } else {
                0
            }
        } else {
            (if self.spec_is_holiday(s) {
                1int
            } else {
                0int
            }) + self.spec_count_holidays(next_ymd(s), e)
        }
    }

    /// The engine with the canonical rule set.
    pub fn new() -> (jp: Self)
        ensures
            jp.wf(),
    {
        // the basic rules of the main registry, and one private snapshot of
        // the same basic-only registry for each derived rule
        let registry = build_basic_registry();
        let basic_for_transfer = build_basic_registry();
        let basic_for_national = build_basic_registry();
        JPHoliday {
            registry,
            transfer: TransferHoliday { registry: basic_for_transfer },
            national: NationalHoliday { registry: basic_for_national },
        }
    }

    /// Whether `date` is a holiday: some rule matches it.
    pub fn is_holiday(&self, date: &Date) -> (r: bool)
        requires
            date.wf(),
        ensures
            r == self.spec_is_holiday(*date),
    {
        if rules_any_match(self.registry.get_registry(), date) {
            return true;
        }
        if self.transfer.is_holiday(date) {
            return true;
        }
        if self.national.is_holiday(date) {
            return true;
        }
        false
    }

    /// The name of the holiday on `date`, from the first matching rule, or
    /// nothing when `date` is no holiday.
    pub fn is_holiday_name(&self, date: &Date) -> (r: Option<String>)
        requires
            date.wf(),
        ensures
            r is Some <==> self.spec_holiday_name(*date) is Some,
            r matches Some(n) ==> Some(n@) == self.spec_holiday_name(*date),
    {
        match rules_first_name(self.registry.get_registry(), date) {
            Some(n) => {
                return Some(n);
            },
            None => {},
        }
        match self.transfer.is_holiday_name(date) {
            Some(n) => {
                return Some(n);
            },
            None => {},
        }
        match self.national.is_holiday_name(date) {
            Some(n) => {
                return Some(n);
            },
            None => {},
        }
        None
    }

    /// The holidays of the inclusive range `start_date ..= end_date`, in
    /// ascending date order, each with its name.
    #[verifier::rlimit(100)]
    pub fn between(&self, start_date: &Date, end_date: &Date) -> (r: Vec<(Date, String)>)
        requires
            start_date.wf(),
            end_date.wf(),
            date_key(*start_date) <= date_key(*end_date),
        ensures
            view_entries(r@) == self.spec_between(*start_date, *end_date),
    {
        let mut date: Date = *start_date;
        let mut result: Vec<(Date, String)> = Vec::new();
        loop
            invariant_except_break
                date.wf(),
                start_date.wf(),
                end_date.wf(),
                date_key(date) <= date_key(*end_date),
                self.spec_between(*start_date, *end_date) == view_entries(result@)
                    + self.spec_between(date, *end_date),
            ensures
                view_entries(result@) == self.spec_between(*start_date, *end_date),
            decreases date_key(*end_date) - date_key(date),
        {
            let ghost entries_before = result@;
            let ghost rest_before = self.spec_between(date, *end_date);
            proof {
                lemma_first_name_some_iff_any(self.registry@, date);
            }
            if self.is_holiday(&date) {
                let name = self.is_holiday_name(&date).unwrap();
                result.push((date, name));
            }
            proof {
                assert(view_entries(result@) =~= view_entries(entries_before)
                    + self.spec_day_entries(date));
            }
            if date == *end_date {
                proof {
                    assert(self.spec_between(date, *end_date) == self.spec_day_entries(date));
                    assert(view_entries(result@) =~= view_entries(entries_before) + rest_before);
                }
                break;
            }
            proof {
                if date_key(date) == date_key(*end_date) {
                    lemma_key_injective(date, *end_date);
                }
                lemma_key_below_max(*end_date);
                assert(rest_before == self.spec_day_entries(date) + self.spec_between(
                    next_ymd(date),
                    *end_date,
                ));
                assert(view_entries(entries_before) + rest_before =~= (view_entries(entries_before)
                    + self.spec_day_entries(date)) + self.spec_between(next_ymd(date), *end_date));
            }
            date = date.next_day();
        }
        result
    }

    /// The holidays of the given year, in ascending date order.
    pub fn year_holidays(&self, year: i32) -> (r: Vec<(Date, String)>)
        requires
            1 <= year <= 9999,
        ensures
            view_entries(r@) == self.spec_between(
                Date { year, month: 1, day: 1 },
                Date { year, month: 12, day: 31 },
            ),
    {
        let start = Date::from_ymd(year, 1, 1);
        let end = Date::from_ymd(year, 12, 31);
        self.between(&start, &end)
    }

    /// The holidays of the given month, in ascending date order.
    pub fn month_holidays(&self, year: i32, month: u32) -> (r: Vec<(Date, String)>)
        requires
            1 <= year <= 9999,
            1 <= month <= 12,
        ensures
            view_entries(r@) == self.spec_between(
                Date { year, month, day: 1 },
                Date { year, month, day: month_len(year as int, month as int) as u32 },
            ),
    {
        let start = Date::from_ymd(year, month, 1);
        let dim = days_in_month(year, month);
        let end = Date::from_ymd(year, month, dim);
        self.between(&start, &end)
    }
}

/// A date is a holiday exactly when a name resolves for it: the two point
/// queries of the engine agree on every date.
pub proof fn lemma_holiday_name_consistent(jp: JPHoliday, d: Date)
    ensures
        jp.spec_is_holiday(d) <==> jp.spec_holiday_name(d) is Some,
{
    lemma_first_name_some_iff_any(jp.registry@, d);
}

/// Every entry of a range enumeration is a holiday of the range, carries
/// the name the engine resolves for its date, and the entries come in
/// strictly ascending date order.
#[verifier::rlimit(100)]
pub proof fn lemma_between_entries(jp: JPHoliday, s: Date, e: Date)
    requires
        s.wf(),
        e.wf(),
    ensures
        ({
            let entries = jp.spec_between(s, e);
            &&& forall|i: int|
                0 <= i < entries.len() ==> {
                    let d = (#[trigger] entries[i]).0;
                    &&& d.wf()
                    &&& date_key(s) <= date_key(d) <= date_key(e)
                    &&& jp.spec_is_holiday(d)
                    &&& jp.spec_holiday_name(d) == Some(entries[i].1)
                }
            &&& forall|i: int, j: int|
                0 <= i < j < entries.len() ==> date_key(#[trigger] entries[i].0) < date_key(
                    #[trigger] entries[j].0,
                )
        }),
    decreases date_key(e) - date_key(s),
{
    lemma_holiday_name_consistent(jp, s);
    if date_key(s) > date_key(e) {
    } else if date_key(s) == date_key(e) {
    } else {
        lemma_next_key_increases(s);
        lemma_key_below_max(e);
        lemma_between_entries(jp, next_ymd(s), e);
    }
}

/// A range enumeration holds one entry for each day of the range that is a
/// holiday: its length is the count of `is_holiday` truths over the days.
#[verifier::rlimit(100)]
pub proof fn lemma_between_len_is_count(jp: JPHoliday, s: Date, e: Date)
    requires
        s.wf(),
        e.wf(),
    ensures
        jp.spec_between(s, e).len() == jp.spec_count_holidays(s, e),
    decreases date_key(e) - date_key(s),
{
    lemma_holiday_name_consistent(jp, s);
    if date_key(s) > date_key(e) {
    } else if date_key(s) == date_key(e) {
    } else {
        lemma_next_key_increases(s);
        lemma_key_below_max(e);
        lemma_between_len_is_count(jp, next_ymd(s), e);
    }
}

/// The month enumeration is the range enumeration of the month's first
/// through last day — `month_holidays` and `between` promise the same
/// sequence — and that sequence is already restricted to the month: every
/// entry's date lies in the given year and month.  Its length is the count
/// of `is_holiday` truths across the month's days.
#[verifier::rlimit(100)]
pub proof fn lemma_month_holidays_in_month(jp: JPHoliday, year: i32, month: u32)
    requires
        1 <= year <= 9999,
        1 <= month <= 12,
    ensures
        ({
            let first = Date { year, month, day: 1 };
            let last = Date {
                year,
                month,
                day: month_len(year as int, month as int) as u32,
            };
            let entries = jp.spec_between(first, last);
            &&& forall|i: int|
                0 <= i < entries.len() ==> (#[trigger] entries[i]).0.year == year
                    && entries[i].0.month == month
            &&& entries.len() == jp.spec_count_holidays(first, last)
        }),
{
    let first = Date { year, month, day: 1 };
    let last = Date { year, month, day: month_len(year as int, month as int) as u32 };
    let entries = jp.spec_between(first, last);
    lemma_between_entries(jp, first, last);
    lemma_between_len_is_count(jp, first, last);
    assert forall|i: int| 0 <= i < entries.len() implies (#[trigger] entries[i]).0.year == year
        && entries[i].0.month == month by {
        let d = entries[i].0;
        assert(date_key(first) <= date_key(d) <= date_key(last));
    }
}

/// The year enumeration's dates are strictly ascending and all lie in the
/// given year.
#[verifier::rlimit(100)]
pub proof fn lemma_year_holidays_ascending(jp: JPHoliday, year: i32)
    requires
        1 <= year <= 9999,
    ensures
        ({
            let entries = jp.spec_between(
                Date { year, month: 1, day: 1 },
                Date { year, month: 12, day: 31 },
            );
            &&& forall|i: int| 0 <= i < entries.len() ==> (#[trigger] entries[i]).0.year == year
            &&& forall|i: int, j: int|
                0 <= i < j < entries.len() ==> date_key(#[trigger] entries[i].0) < date_key(
                    #[trigger] entries[j].0,
                )
        }),
{
    let first = Date { year, month: 1, day: 1 };
    let last = Date { year, month: 12, day: 31 };
    let entries = jp.spec_between(first, last);
    lemma_between_entries(jp, first, last);
    assert forall|i: int| 0 <= i < entries.len() implies (#[trigger] entries[i]).0.year
        == year by {
        let d = entries[i].0;
        assert(date_key(first) <= date_key(d) <= date_key(last));
    }
}

/// The canonical basic rules, registered in evaluation order.
fn build_basic_registry() -> (reg: Registry)
    ensures
        reg@ == canonical_rules(),
{
    let mut reg = Registry::new();
    reg.register(BasicRule::NewYear(NewYear {}));
    reg.register(BasicRule::AdultDay(AdultDay {}));
    reg.register(BasicRule::FoundationDay(FoundationDay {}));
    reg.register(BasicRule::EmperorsBirthday(EmperorsBirthday {}));
    reg.register(BasicRule::VernalEquinoxDay(VernalEquinoxDay {}));
    reg.register(BasicRule::GreeneryDay(GreeneryDay {}));
    reg.register(BasicRule::ShowaDay(ShowaDay {}));
    reg.register(BasicRule::ConstitutionMemorialDay(ConstitutionMemorialDay {}));
    reg.register(BasicRule::ChildrensDay(ChildrensDay {}));
    reg.register(BasicRule::SeaDay(SeaDay {}));
    reg.register(BasicRule::MountainDay(MountainDay {}));
    reg.register(BasicRule::RespectForTheAgedDay(RespectForTheAgedDay {}));
    reg.register(BasicRule::AutumnEquinoxDay(AutumnEquinoxDay {}));
    reg.register(BasicRule::HealthAndSportsDay(HealthAndSportsDay {}));
    reg.register(BasicRule::SportsDay(SportsDay {}));
    reg.register(BasicRule::CultureDay(CultureDay {}));
    reg.register(BasicRule::LaborThanksgivingDay(LaborThanksgivingDay {}));
    reg.register(BasicRule::ExtraHolidays(ExtraHolidays {}));
    proof {
        assert(reg@ =~= canonical_rules());
    }
    reg
}

} // verus!
